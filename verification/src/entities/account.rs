//! An authenticated account on a server.

use vstd::prelude::*;
use crate::text::{clone_opt, opt_view};

verus! {

/// One account as it is stored.
#[derive(Debug)]
pub struct Account {
    pub id: i64,
    pub username: String,
    /// The id that the remote server gave the account.
    pub account_id: String,
    pub avatar: Option<String>,
    /// Some servers hand out no client id.
    pub client_id: Option<String>,
    pub client_secret: String,
    pub access_token: String,
    /// Some servers hand out no refresh token.
    pub refresh_token: Option<String>,
    /// Whether this is the account that the user acts as by default.
    pub is_default: bool,
}

/// What an account holds, with its strings as sequences of characters.
pub struct AccountView {
    pub id: i64,
    pub username: Seq<char>,
    pub account_id: Seq<char>,
    pub avatar: Option<Seq<char>>,
    pub client_id: Option<Seq<char>>,
    pub client_secret: Seq<char>,
    pub access_token: Seq<char>,
    pub refresh_token: Option<Seq<char>>,
    pub is_default: bool,
}

impl AccountView {
    /// The same account, marked or unmarked as the default.
    pub open spec fn with_default(self, is_default: bool) -> AccountView {
        AccountView { is_default, ..self }
    }

    /// The same account under another id.
    pub open spec fn with_id(self, id: i64) -> AccountView {
        AccountView { id, ..self }
    }
}

impl View for Account {
    type V = AccountView;

    open spec fn view(&self) -> AccountView {
        AccountView {
            id: self.id,
            username: self.username@,
            account_id: self.account_id@,
            avatar: opt_view(self.avatar),
            client_id: opt_view(self.client_id),
            client_secret: self.client_secret@,
            access_token: self.access_token@,
            refresh_token: opt_view(self.refresh_token),
            is_default: self.is_default,
        }
    }
}

impl Account {
    /// An account that is not the default.
    pub fn new(
        id: i64,
        username: String,
        account_id: String,
        avatar: Option<String>,
        client_id: Option<String>,
        client_secret: String,
        access_token: String,
        refresh_token: Option<String>,
    ) -> (account: Account)
        ensures
            account@ == (AccountView {
                id,
                username: username@,
                account_id: account_id@,
                avatar: opt_view(avatar),
                client_id: opt_view(client_id),
                client_secret: client_secret@,
                access_token: access_token@,
                refresh_token: opt_view(refresh_token),
                is_default: false,
            }),
    {
        Account {
            id,
            username,
            account_id,
            avatar,
            client_id,
            client_secret,
            access_token,
            refresh_token,
            is_default: false,
        }
    }

    /// A copy of this account, marked or unmarked as the default.
    pub fn with_default(&self, is_default: bool) -> (marked: Account)
        ensures
            marked@ == self@.with_default(is_default),
    {
        Account {
            id: self.id,
            username: self.username.clone(),
            account_id: self.account_id.clone(),
            avatar: clone_opt(&self.avatar),
            client_id: clone_opt(&self.client_id),
            client_secret: self.client_secret.clone(),
            access_token: self.access_token.clone(),
            refresh_token: clone_opt(&self.refresh_token),
            is_default,
        }
    }
}

impl Clone for Account {
    fn clone(&self) -> (copy: Account)
        ensures
            copy == *self,
    {
        Account {
            id: self.id,
            username: self.username.clone(),
            account_id: self.account_id.clone(),
            avatar: clone_opt(&self.avatar),
            client_id: clone_opt(&self.client_id),
            client_secret: self.client_secret.clone(),
            access_token: self.access_token.clone(),
            refresh_token: clone_opt(&self.refresh_token),
            is_default: self.is_default,
        }
    }
}

} // verus!
