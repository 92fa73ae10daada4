//! Ordered timeline registry, streaming-session supervision and event
//! translation for a client that aggregates several federated servers.

pub mod text;
pub mod entities;
pub mod registry;
pub mod accounts;
pub mod session;
pub mod streaming;
pub mod supervisor;
pub mod favicon;
pub mod media;
pub mod settings;
pub mod logging;
