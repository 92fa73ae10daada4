//! Which sessions run: one for every account, and one for every timeline
//! of a kind that has a stream of its own.

use vstd::prelude::*;
use crate::entities::account::Account;
use crate::entities::server::Server;
use crate::entities::timeline::{Kind, Timeline};
use crate::session::{ConfigError, Session, SessionError};
use crate::streaming::{account_session, start, start_user, timeline_session};

verus! {

/// Whether timelines of this kind have a stream of their own. The home
/// timeline and the notifications come over the account's stream, and
/// favourites and bookmarks are fetched when asked for.
pub open spec fn streamed(kind: Kind) -> bool {
    !(kind == Kind::Home || kind == Kind::Notifications || kind == Kind::Favourites || kind
        == Kind::Bookmarks)
}

/// Whether timelines of this kind have a stream of their own.
pub fn is_streamed(kind: Kind) -> (yes: bool)
    ensures
        yes == streamed(kind),
{
    match kind {
        Kind::Home | Kind::Notifications | Kind::Favourites | Kind::Bookmarks => false,
        _ => true,
    }
}

/// The first account with this id among the pairs from `from` on.
pub open spec fn account_from(pairs: Seq<(Account, Server)>, id: i64, from: int) -> Option<Account>
    decreases pairs.len() - from,
{
    if from < 0 || from >= pairs.len() {
        None
    } else if pairs[from].0.id == id {
        Some(pairs[from].0)
    } else {
        account_from(pairs, id, from + 1)
    }
}

/// The first account with this id among the pairs.
pub open spec fn account_with(pairs: Seq<(Account, Server)>, id: i64) -> Option<Account> {
    account_from(pairs, id, 0)
}

/// The first account with this id among the pairs.
pub fn find_account(pairs: &Vec<(Account, Server)>, id: i64) -> (found: Option<Account>)
    ensures
        found == account_with(pairs@, id),
{
    let mut i: usize = 0;
    while i < pairs.len()
        invariant
            i <= pairs.len(),
            account_with(pairs@, id) == account_from(pairs@, id, i as int),
        decreases pairs.len() - i,
    {
        if pairs[i].0.id == id {
            return Some(pairs[i].0.clone());
        }
        i += 1;
    }
    None
}

/// Whether `made` is what starting the session of this timeline comes to,
/// with the account that the timeline's server names: none where the kind
/// has no stream of its own, an error where the named account is not stored.
pub open spec fn timeline_spawned(
    pairs: Seq<(Account, Server)>,
    server: Server,
    timeline: Timeline,
    made: Option<Result<Session, SessionError>>,
) -> bool {
    match made {
        None => !streamed(timeline.kind),
        Some(result) => streamed(timeline.kind) && match server.account_id {
            None => timeline_session(server, timeline, None, result),
            Some(account_id) => match account_with(pairs, account_id) {
                Some(account) => timeline_session(server, timeline, Some(account), result),
                None => result == Err::<Session, SessionError>(
                    SessionError::Config(ConfigError::AccountNotFound { account_id }),
                ),
            },
        },
    }
}

/// Starts the session of a timeline with the account that its server
/// names. A timeline of a kind without a stream of its own gets none.
pub fn start_timeline_streaming(
    pairs: &Vec<(Account, Server)>,
    server: &Server,
    timeline: &Timeline,
) -> (made: Option<Result<Session, SessionError>>)
    ensures
        timeline_spawned(pairs@, *server, *timeline, made),
{
    if !is_streamed(timeline.kind) {
        return None;
    }
    match server.account_id {
        None => Some(start(server, timeline, None)),
        Some(account_id) => match find_account(pairs, account_id) {
            Some(account) => Some(start(server, timeline, Some(account))),
            None => Some(Err(SessionError::Config(ConfigError::AccountNotFound { account_id }))),
        },
    }
}

/// The timelines of a kind that has a stream of its own, in their order.
pub open spec fn streamed_rows(timelines: Seq<(Timeline, Server)>) -> Seq<(Timeline, Server)>
    decreases timelines.len(),
{
    if timelines.len() == 0 {
        Seq::empty()
    } else if streamed(timelines.last().0.kind) {
        streamed_rows(timelines.drop_last()).push(timelines.last())
    } else {
        streamed_rows(timelines.drop_last())
    }
}

/// Whether `started` is what starting every session comes to: first one
/// session for every account, then, for every timeline of a kind with a
/// stream of its own, its session or the reason why it has none.
pub open spec fn all_started(
    pairs: Seq<(Account, Server)>,
    timelines: Seq<(Timeline, Server)>,
    started: Seq<Result<Session, SessionError>>,
) -> bool {
    &&& started.len() == pairs.len() + streamed_rows(timelines).len()
    &&& forall|i: int|
        0 <= i < pairs.len() ==> (#[trigger] started[i]) is Ok && account_session(
            pairs[i].1,
            pairs[i].0,
            started[i]->Ok_0,
        )
    &&& forall|k: int|
        0 <= k < streamed_rows(timelines).len() ==> timeline_spawned(
            pairs,
            streamed_rows(timelines)[k].1,
            streamed_rows(timelines)[k].0,
            Some(#[trigger] started[pairs.len() + k]),
        )
}

/// Starts every session: one for each account on its server, and one for
/// each timeline of a kind with a stream of its own. A timeline whose
/// session cannot be started leaves its reason in place of the session,
/// and the others are started all the same.
pub fn start_streamings(pairs: &Vec<(Account, Server)>, timelines: &Vec<(Timeline, Server)>) -> (started:
    Vec<Result<Session, SessionError>>)
    ensures
        all_started(pairs@, timelines@, started@),
{
    let mut started: Vec<Result<Session, SessionError>> = Vec::new();
    let mut i: usize = 0;
    while i < pairs.len()
        invariant
            i <= pairs.len(),
            started.len() == i,
            forall|a: int|
                0 <= a < i ==> (#[trigger] started[a]) is Ok && account_session(
                    pairs[a].1,
                    pairs[a].0,
                    started[a]->Ok_0,
                ),
        decreases pairs.len() - i,
    {
        started.push(Ok(start_user(&pairs[i].1, &pairs[i].0)));
        i += 1;
    }
    let mut j: usize = 0;
    while j < timelines.len()
        invariant
            j <= timelines.len(),
            started.len() == pairs.len() + streamed_rows(timelines@.take(j as int)).len(),
            forall|a: int|
                0 <= a < pairs.len() ==> (#[trigger] started[a]) is Ok && account_session(
                    pairs[a].1,
                    pairs[a].0,
                    started[a]->Ok_0,
                ),
            forall|k: int|
                0 <= k < streamed_rows(timelines@.take(j as int)).len() ==> timeline_spawned(
                    pairs@,
                    streamed_rows(timelines@.take(j as int))[k].1,
                    streamed_rows(timelines@.take(j as int))[k].0,
                    Some(#[trigger] started[pairs.len() + k]),
                ),
        decreases timelines.len() - j,
    {
        proof {
            assert(timelines@.take(j as int + 1).drop_last() =~= timelines@.take(j as int));
            assert(timelines@.take(j as int + 1).last() == timelines[j as int]);
        }
        match start_timeline_streaming(pairs, &timelines[j].1, &timelines[j].0) {
            Some(made) => {
                started.push(made);
            },
            None => {},
        }
        j += 1;
    }
    assert(timelines@.take(timelines.len() as int) =~= timelines@);
    started
}

/// Those of `ids` that are not among `others`, in their order.
pub open spec fn missing_from(ids: Seq<i64>, others: Seq<i64>) -> Seq<i64>
    decreases ids.len(),
{
    if ids.len() == 0 {
        Seq::empty()
    } else if others.contains(ids.last()) {
        missing_from(ids.drop_last(), others)
    } else {
        missing_from(ids.drop_last(), others).push(ids.last())
    }
}

/// The ids of the timelines, in their order.
pub open spec fn timeline_ids(timelines: Seq<Timeline>) -> Seq<i64> {
    Seq::new(timelines.len(), |i: int| timelines[i].id)
}

/// The ids of the timelines of a kind with a stream of its own, in their order.
pub open spec fn streamed_ids(timelines: Seq<Timeline>) -> Seq<i64>
    decreases timelines.len(),
{
    if timelines.len() == 0 {
        Seq::empty()
    } else if streamed(timelines.last().kind) {
        streamed_ids(timelines.drop_last()).push(timelines.last().id)
    } else {
        streamed_ids(timelines.drop_last())
    }
}

/// What has to change so that the sessions match the timelines.
#[derive(Debug)]
pub struct Reconciliation {
    /// The timelines that need a session and have none.
    pub spawn: Vec<i64>,
    /// The timelines whose session runs though they are gone. Such a
    /// session is left to end by itself.
    pub retire: Vec<i64>,
}

/// Whether `id` is among `ids`.
pub fn contains_id(ids: &Vec<i64>, id: i64) -> (found: bool)
    ensures
        found == ids@.contains(id),
{
    let mut i: usize = 0;
    while i < ids.len()
        invariant
            i <= ids.len(),
            forall|j: int| 0 <= j < i ==> ids[j] != id,
        decreases ids.len() - i,
    {
        if ids[i] == id {
            return true;
        }
        i += 1;
    }
    false
}

/// Compares the timelines whose sessions run with the timelines as they
/// are listed now, by id: a listed timeline of a kind with a stream of its
/// own that has no session is to be started, and a session whose timeline
/// is no longer listed is to be left to end.
pub fn reconcile(running: &Vec<i64>, timelines: &Vec<Timeline>) -> (changes: Reconciliation)
    ensures
        changes.spawn@ == missing_from(streamed_ids(timelines@), running@),
        changes.retire@ == missing_from(running@, timeline_ids(timelines@)),
{
    let mut spawn: Vec<i64> = Vec::new();
    let mut listed: Vec<i64> = Vec::new();
    let mut i: usize = 0;
    while i < timelines.len()
        invariant
            i <= timelines.len(),
            listed@ == timeline_ids(timelines@.take(i as int)),
            spawn@ == missing_from(streamed_ids(timelines@.take(i as int)), running@),
        decreases timelines.len() - i,
    {
        proof {
            let next = timelines@.take(i as int + 1);
            assert(next.drop_last() =~= timelines@.take(i as int));
            assert(next.last() == timelines[i as int]);
            assert(timeline_ids(next) =~= timeline_ids(timelines@.take(i as int)).push(
                timelines[i as int].id,
            ));
            if streamed(timelines[i as int].kind) {
                let ids = streamed_ids(next);
                assert(ids.drop_last() =~= streamed_ids(timelines@.take(i as int)));
                assert(ids.last() == timelines[i as int].id);
            }
        }
        listed.push(timelines[i].id);
        if is_streamed(timelines[i].kind) && !contains_id(running, timelines[i].id) {
            spawn.push(timelines[i].id);
        }
        i += 1;
    }
    assert(timelines@.take(timelines.len() as int) =~= timelines@);
    let mut retire: Vec<i64> = Vec::new();
    let mut j: usize = 0;
    while j < running.len()
        invariant
            j <= running.len(),
            retire@ == missing_from(running@.take(j as int), listed@),
        decreases running.len() - j,
    {
        proof {
            let next = running@.take(j as int + 1);
            assert(next.drop_last() =~= running@.take(j as int));
            assert(next.last() == running[j as int]);
        }
        if !contains_id(&listed, running[j]) {
            retire.push(running[j]);
        }
        j += 1;
    }
    assert(running@.take(running.len() as int) =~= running@);
    Reconciliation { spawn, retire }
}

/// Nothing is started twice and nothing that is listed is retired: every id
/// to start is listed and has no session, and every id to retire has a
/// session and is not listed.
pub proof fn lemma_missing_from(ids: Seq<i64>, others: Seq<i64>)
    ensures
        forall|id: i64|
            missing_from(ids, others).contains(id) <==> ids.contains(id) && !others.contains(id),
    decreases ids.len(),
{
    if ids.len() > 0 {
        lemma_missing_from(ids.drop_last(), others);
        let rest = missing_from(ids.drop_last(), others);
        let all = missing_from(ids, others);
        assert forall|id: i64| all.contains(id) <==> ids.contains(id) && !others.contains(
            id,
        ) by {
            if ids.contains(id) {
                let k = choose|k: int| 0 <= k < ids.len() && ids[k] == id;
                if k < ids.len() - 1 {
                    assert(ids.drop_last()[k] == id);
                }
            }
            if ids.drop_last().contains(id) {
                let k = choose|k: int| 0 <= k < ids.drop_last().len() && ids.drop_last()[k] == id;
                assert(ids[k] == id);
            }
            if !others.contains(ids.last()) {
                assert(all == rest.push(ids.last()));
                assert(all.last() == ids.last());
                if rest.contains(id) {
                    let k = choose|k: int| 0 <= k < rest.len() && rest[k] == id;
                    assert(all[k] == id);
                }
                if all.contains(id) {
                    let k = choose|k: int| 0 <= k < all.len() && all[k] == id;
                    if k < rest.len() {
                        assert(rest[k] == id);
                    }
                }
            }
        }
    }
}

} // verus!
