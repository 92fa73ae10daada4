//! The stored accounts, of which exactly one may be the default.

use vstd::prelude::*;
use crate::entities::account::{Account, AccountView};
use crate::entities::server::Server;
use crate::text::opt_view;

verus! {

/// Why an account could not be stored or marked.
#[derive(Clone, Copy, Debug, PartialEq, Eq, Structural)]
pub enum AccountsError {
    /// No account has the id that was asked for.
    NotFound,
    /// Some account already holds the greatest id there is.
    IdExhausted,
}

/// The accounts of a vector, each by its view.
pub open spec fn account_views(rows: Seq<Account>) -> Seq<AccountView> {
    Seq::new(rows.len(), |i: int| rows[i]@)
}

/// No two accounts share an id.
pub open spec fn distinct_account_ids(rows: Seq<AccountView>) -> bool {
    forall|i: int, j: int|
        0 <= i < rows.len() && 0 <= j < rows.len() && i != j ==> rows[i].id != rows[j].id
}

/// Whether some account has this id.
pub open spec fn has_account(rows: Seq<AccountView>, id: i64) -> bool {
    exists|i: int| 0 <= i < rows.len() && rows[i].id == id
}

/// The place of the account with this id, where there is one.
pub open spec fn account_position(rows: Seq<AccountView>, id: i64) -> int {
    choose|i: int| 0 <= i < rows.len() && rows[i].id == id
}

/// The accounts after the first statement of a change of default: the
/// account `id` is marked.
pub open spec fn marked(rows: Seq<AccountView>, id: i64) -> Seq<AccountView> {
    Seq::new(
        rows.len(),
        |i: int|
            if rows[i].id == id {
                rows[i].with_default(true)
            } else {
                rows[i]
            },
    )
}

/// The accounts after the second statement of a change of default: every
/// account but `id` is unmarked.
pub open spec fn others_cleared(rows: Seq<AccountView>, id: i64) -> Seq<AccountView> {
    Seq::new(
        rows.len(),
        |i: int|
            if rows[i].id != id {
                rows[i].with_default(false)
            } else {
                rows[i]
            },
    )
}

/// The accounts with `id` as the default and no other.
pub open spec fn defaulted(rows: Seq<AccountView>, id: i64) -> Seq<AccountView> {
    Seq::new(rows.len(), |i: int| rows[i].with_default(rows[i].id == id))
}

/// How many accounts are marked as the default.
pub open spec fn default_count(rows: Seq<AccountView>) -> nat
    decreases rows.len(),
{
    if rows.len() == 0 {
        0
    } else if rows.last().is_default {
        default_count(rows.drop_last()) + 1
    } else {
        default_count(rows.drop_last())
    }
}

/// The greatest id among the accounts, and 0 where there is none above 0.
pub open spec fn greatest_account_id(rows: Seq<AccountView>) -> int
    decreases rows.len(),
{
    if rows.len() == 0 {
        0
    } else if rows.last().id > greatest_account_id(rows.drop_last()) {
        rows.last().id as int
    } else {
        greatest_account_id(rows.drop_last())
    }
}

/// Where ids are distinct, the place of an id is the one place that has it.
pub proof fn lemma_account_position_is(rows: Seq<AccountView>, id: i64, i: int)
    requires
        distinct_account_ids(rows),
        0 <= i < rows.len(),
        rows[i].id == id,
    ensures
        has_account(rows, id),
        account_position(rows, id) == i,
{
    let p = account_position(rows, id);
    assert(0 <= p < rows.len() && rows[p].id == id);
}

/// No account has an id above the greatest id.
pub proof fn lemma_greatest_account_id_bounds(rows: Seq<AccountView>)
    ensures
        greatest_account_id(rows) >= 0,
        forall|i: int| 0 <= i < rows.len() ==> rows[i].id <= greatest_account_id(rows),
    decreases rows.len(),
{
    if rows.len() > 0 {
        lemma_greatest_account_id_bounds(rows.drop_last());
        assert forall|i: int| 0 <= i < rows.len() implies rows[i].id <= greatest_account_id(
            rows,
        ) by {
            if i < rows.len() - 1 {
                assert(rows.drop_last()[i] == rows[i]);
            }
        }
    }
}

/// The two statements of a change of default, one after the other, leave
/// `id` as the default and no other account.
pub proof fn lemma_two_statements_default(rows: Seq<AccountView>, id: i64)
    ensures
        others_cleared(marked(rows, id), id) == defaulted(rows, id),
{
    assert(others_cleared(marked(rows, id), id) =~= defaulted(rows, id));
}

/// Accounts of which none is marked count no default.
proof fn lemma_none_marked(rows: Seq<AccountView>)
    requires
        forall|i: int| 0 <= i < rows.len() ==> !rows[i].is_default,
    ensures
        default_count(rows) == 0,
    decreases rows.len(),
{
    if rows.len() > 0 {
        assert forall|i: int| 0 <= i < rows.drop_last().len() implies !rows.drop_last()[i].is_default by {
            assert(rows.drop_last()[i] == rows[i]);
        }
        lemma_none_marked(rows.drop_last());
    }
}

/// Accounts of which the one at `p` alone is marked count one default.
proof fn lemma_one_marked(rows: Seq<AccountView>, p: int)
    requires
        0 <= p < rows.len(),
        forall|i: int| 0 <= i < rows.len() ==> rows[i].is_default == (i == p),
    ensures
        default_count(rows) == 1,
    decreases rows.len(),
{
    let rest = rows.drop_last();
    assert forall|i: int| 0 <= i < rest.len() implies rest[i].is_default == (i == p) by {
        assert(rest[i] == rows[i]);
    }
    if p == rows.len() - 1 {
        lemma_none_marked(rest);
    } else {
        lemma_one_marked(rest, p);
    }
}

/// After the account `id` has been made the default, exactly one account is
/// the default, whatever was marked before: the one with that id.
pub proof fn lemma_exactly_one_default(rows: Seq<AccountView>, id: i64)
    requires
        distinct_account_ids(rows),
        has_account(rows, id),
    ensures
        default_count(defaulted(rows, id)) == 1,
        forall|i: int|
            0 <= i < rows.len() ==> (#[trigger] defaulted(rows, id)[i]).is_default == (i
                == account_position(rows, id)),
{
    let p = account_position(rows, id);
    let after = defaulted(rows, id);
    assert forall|i: int| 0 <= i < after.len() implies after[i].is_default == (i == p) by {
        if rows[i].id == id {
            lemma_account_position_is(rows, id, i);
        }
    }
    lemma_one_marked(after, p);
}

/// The stored accounts. No two of them share an id.
pub struct Accounts {
    rows: Vec<Account>,
}

impl View for Accounts {
    type V = Seq<AccountView>;

    closed spec fn view(&self) -> Seq<AccountView> {
        account_views(self.rows@)
    }
}

/// The place of the account with this id.
fn find_account(rows: &Vec<Account>, id: i64) -> (found: Option<usize>)
    ensures
        match found {
            Some(i) => i < rows.len() && rows[i as int].id == id,
            None => !has_account(account_views(rows@), id),
        },
{
    let mut i: usize = 0;
    while i < rows.len()
        invariant
            i <= rows.len(),
            forall|j: int| 0 <= j < i ==> rows[j].id != id,
        decreases rows.len() - i,
    {
        if rows[i].id == id {
            return Some(i);
        }
        i += 1;
    }
    assert forall|j: int| 0 <= j < rows.len() implies account_views(rows@)[j].id != id by {
        assert(account_views(rows@)[j] == rows[j]@);
    }
    None
}

/// Carries out the first statement of a change of default.
fn mark(rows: &mut Vec<Account>, id: i64)
    ensures
        account_views(final(rows)@) == marked(account_views(old(rows)@), id),
{
    let ghost before = account_views(rows@);
    let mut i: usize = 0;
    while i < rows.len()
        invariant
            i <= rows.len(),
            rows.len() == before.len(),
            forall|j: int| 0 <= j < i ==> rows[j]@ == marked(before, id)[j],
            forall|j: int| i <= j < rows.len() ==> rows[j]@ == before[j],
        decreases rows.len() - i,
    {
        if rows[i].id == id {
            let changed = rows[i].with_default(true);
            rows.set(i, changed);
        }
        i += 1;
    }
    assert(account_views(rows@) =~= marked(before, id));
}

/// Carries out the second statement of a change of default.
fn clear_others(rows: &mut Vec<Account>, id: i64)
    ensures
        account_views(final(rows)@) == others_cleared(account_views(old(rows)@), id),
{
    let ghost before = account_views(rows@);
    let mut i: usize = 0;
    while i < rows.len()
        invariant
            i <= rows.len(),
            rows.len() == before.len(),
            forall|j: int| 0 <= j < i ==> rows[j]@ == others_cleared(before, id)[j],
            forall|j: int| i <= j < rows.len() ==> rows[j]@ == before[j],
        decreases rows.len() - i,
    {
        if rows[i].id != id {
            let changed = rows[i].with_default(false);
            rows.set(i, changed);
        }
        i += 1;
    }
    assert(account_views(rows@) =~= others_cleared(before, id));
}

/// The greatest id among the accounts, and 0 where there is none above 0.
fn greatest_account_id_of(rows: &Vec<Account>) -> (greatest: i64)
    ensures
        greatest == greatest_account_id(account_views(rows@)),
{
    let mut greatest: i64 = 0;
    let mut i: usize = 0;
    while i < rows.len()
        invariant
            i <= rows.len(),
            greatest == greatest_account_id(account_views(rows@).take(i as int)),
        decreases rows.len() - i,
    {
        proof {
            let next = account_views(rows@).take(i as int + 1);
            assert(next.drop_last() =~= account_views(rows@).take(i as int));
            assert(next.last() == rows[i as int]@);
        }
        if rows[i].id > greatest {
            greatest = rows[i].id;
        }
        i += 1;
    }
    assert(account_views(rows@).take(rows.len() as int) =~= account_views(rows@));
    greatest
}

impl Accounts {
    #[verifier::type_invariant]
    spec fn well_formed(self) -> bool {
        distinct_account_ids(account_views(self.rows@))
    }

    /// No accounts.
    pub fn new() -> (accounts: Accounts)
        ensures
            accounts@ == Seq::<AccountView>::empty(),
    {
        let accounts = Accounts { rows: Vec::new() };
        assert(accounts@ =~= Seq::<AccountView>::empty());
        accounts
    }

    /// The given accounts, unless two of them share an id.
    pub fn from_rows(rows: Vec<Account>) -> (accounts: Option<Accounts>)
        ensures
            match accounts {
                Some(made) => distinct_account_ids(account_views(rows@)) && made@ == account_views(
                    rows@,
                ),
                None => !distinct_account_ids(account_views(rows@)),
            },
    {
        let ghost given = account_views(rows@);
        let mut i: usize = 0;
        while i < rows.len()
            invariant
                i <= rows.len(),
                given == account_views(rows@),
                forall|a: int, b: int|
                    0 <= a < i && 0 <= b < i && a != b ==> given[a].id != given[b].id,
            decreases rows.len() - i,
        {
            let mut j: usize = 0;
            while j < i
                invariant
                    j <= i,
                    i < rows.len(),
                    given == account_views(rows@),
                    forall|a: int| 0 <= a < j ==> given[a].id != given[i as int].id,
                decreases i - j,
            {
                if rows[j].id == rows[i].id {
                    assert(given[j as int].id == given[i as int].id);
                    return None;
                }
                j += 1;
            }
            i += 1;
        }
        Some(Accounts { rows })
    }

    /// The accounts, in the order in which they were stored.
    pub fn list(&self) -> (accounts: Vec<Account>)
        ensures
            account_views(accounts@) == self@,
            distinct_account_ids(self@),
    {
        proof {
            use_type_invariant(self);
        }
        let mut accounts: Vec<Account> = Vec::new();
        let mut i: usize = 0;
        while i < self.rows.len()
            invariant
                i <= self.rows.len(),
                accounts@ == self.rows@.take(i as int),
            decreases self.rows.len() - i,
        {
            accounts.push(self.rows[i].clone());
            assert(accounts@ =~= self.rows@.take(i as int + 1));
            i += 1;
        }
        assert(accounts@ =~= self.rows@);
        accounts
    }

    /// The account with this id, if there is one.
    pub fn get(&self, id: i64) -> (account: Option<Account>)
        ensures
            match account {
                Some(found) => has_account(self@, id) && found@ == self@[account_position(
                    self@,
                    id,
                )],
                None => !has_account(self@, id),
            },
    {
        proof {
            use_type_invariant(self);
        }
        match find_account(&self.rows, id) {
            Some(index) => {
                proof {
                    lemma_account_position_is(self@, id, index as int);
                }
                Some(self.rows[index].clone())
            },
            None => None,
        }
    }

    /// Stores an account under a new id, one above the greatest id in use,
    /// and links it to its server. Nothing changes where no id is left.
    pub fn add(&mut self, server: &mut Server, account: &Account) -> (created: Result<
        Account,
        AccountsError,
    >)
        ensures
            distinct_account_ids(final(self)@),
            match created {
                Ok(stored) => {
                    &&& greatest_account_id(old(self)@) < i64::MAX
                    &&& stored@ == account@.with_id((greatest_account_id(old(self)@) + 1) as i64)
                    &&& final(self)@ == old(self)@.push(stored@)
                    &&& *final(server) == (Server { account_id: Some(stored.id), ..*old(server) })
                },
                Err(error) => {
                    &&& error == AccountsError::IdExhausted
                    &&& greatest_account_id(old(self)@) >= i64::MAX
                    &&& final(self)@ == old(self)@
                    &&& *final(server) == *old(server)
                },
            },
    {
        proof {
            use_type_invariant(&*self);
            lemma_greatest_account_id_bounds(self@);
        }
        let greatest = greatest_account_id_of(&self.rows);
        if greatest == i64::MAX {
            return Err(AccountsError::IdExhausted);
        }
        let mut stored = account.clone();
        stored.id = greatest + 1;
        let kept = stored.clone();
        let ghost before = self@;
        let mut rows: Vec<Account> = Vec::new();
        core::mem::swap(&mut self.rows, &mut rows);
        rows.push(kept);
        proof {
            let after = account_views(rows@);
            assert(after =~= before.push(stored@));
            assert forall|i: int, j: int|
                0 <= i < after.len() && 0 <= j < after.len() && i != j implies after[i].id
                != after[j].id by {
                if i < before.len() {
                    assert(after[i] == before[i]);
                }
                if j < before.len() {
                    assert(after[j] == before[j]);
                }
            }
        }
        self.rows = rows;
        server.account_id = Some(stored.id);
        Ok(stored)
    }

    /// Makes the account `id` the default, and it alone: it is marked and
    /// every other account is unmarked, as one change. Where no account has
    /// the id, the call fails and the accounts stay as they were.
    pub fn set_default(&mut self, id: i64) -> (chosen: Result<Account, AccountsError>)
        ensures
            distinct_account_ids(final(self)@),
            match chosen {
                Ok(account) => {
                    &&& has_account(old(self)@, id)
                    &&& final(self)@ == defaulted(old(self)@, id)
                    &&& account@ == final(self)@[account_position(old(self)@, id)]
                    &&& account.id == id
                    &&& account.is_default
                    &&& default_count(final(self)@) == 1
                },
                Err(error) => {
                    &&& error == AccountsError::NotFound
                    &&& !has_account(old(self)@, id)
                    &&& final(self)@ == old(self)@
                },
            },
    {
        proof {
            use_type_invariant(&*self);
        }
        let ghost before = self@;
        let index = match find_account(&self.rows, id) {
            Some(index) => index,
            None => {
                return Err(AccountsError::NotFound);
            },
        };
        let mut rows: Vec<Account> = Vec::new();
        core::mem::swap(&mut self.rows, &mut rows);
        mark(&mut rows, id);
        clear_others(&mut rows, id);
        proof {
            lemma_two_statements_default(before, id);
            assert(account_views(rows@) == defaulted(before, id));
            assert(distinct_account_ids(defaulted(before, id)));
            assert(account_views(rows@)[index as int] == rows@[index as int]@);
            assert(before[index as int].id == id);
            lemma_account_position_is(before, id, index as int);
            lemma_exactly_one_default(before, id);
        }
        let chosen = rows[index].clone();
        self.rows = rows;
        Ok(chosen)
    }
}

/// The code with which the access token is fetched: the session token of
/// the registered application where the server gave one, else the code that
/// the user typed in.
pub fn authorization_code(session_token: Option<String>, code: &str) -> (chosen: String)
    ensures
        chosen@ == match opt_view(session_token) {
            Some(token) => token,
            None => code@,
        },
{
    match session_token {
        Some(token) => token,
        None => code.to_owned(),
    }
}

} // verus!
