//! The persisted records: servers, accounts, timelines and the guided tour's step.

pub mod account;
pub mod instruction;
pub mod server;
pub mod timeline;

pub use account::Account;
pub use instruction::Instruction;
pub use server::Server;
pub use timeline::Timeline;
