//! A remote server that the client follows.

use vstd::prelude::*;
use crate::text::{clone_opt, opt_view};

verus! {

/// One server as it is stored. At most one account belongs to it.
#[derive(Debug)]
pub struct Server {
    pub id: i64,
    pub domain: String,
    pub base_url: String,
    pub favicon: Option<String>,
    pub account_id: Option<i64>,
}

/// What a server holds, with its strings as sequences of characters.
pub struct ServerView {
    pub id: i64,
    pub domain: Seq<char>,
    pub base_url: Seq<char>,
    pub favicon: Option<Seq<char>>,
    pub account_id: Option<i64>,
}

impl View for Server {
    type V = ServerView;

    open spec fn view(&self) -> ServerView {
        ServerView {
            id: self.id,
            domain: self.domain@,
            base_url: self.base_url@,
            favicon: opt_view(self.favicon),
            account_id: self.account_id,
        }
    }
}

impl Server {
    /// A server to which no account is linked yet.
    pub fn new(id: i64, domain: String, base_url: String, favicon: Option<String>) -> (server:
        Server)
        ensures
            server@ == (ServerView {
                id,
                domain: domain@,
                base_url: base_url@,
                favicon: opt_view(favicon),
                account_id: None,
            }),
    {
        Server { id, domain, base_url, favicon, account_id: None }
    }
}

impl Clone for Server {
    fn clone(&self) -> (copy: Server)
        ensures
            copy == *self,
    {
        Server {
            id: self.id,
            domain: self.domain.clone(),
            base_url: self.base_url.clone(),
            favicon: clone_opt(&self.favicon),
            account_id: self.account_id,
        }
    }
}

} // verus!
