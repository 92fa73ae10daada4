use fedistar::entities::timeline::{ColumnWidth, Kind};
use fedistar::entities::{Account, Server, Timeline};
use fedistar::session::{ConfigError, Scope, SessionError, StreamRequest};
use fedistar::supervisor::{
    contains_id, find_account, is_streamed, reconcile, start_streamings, start_timeline_streaming,
};

fn server(id: i64, account_id: Option<i64>) -> Server {
    let mut server = Server::new(
        id,
        String::from("example.social"),
        String::from("https://example.social"),
        None,
    );
    server.account_id = account_id;
    server
}

fn account(id: i64, name: &str) -> Account {
    Account::new(
        id,
        String::from(name),
        String::from("109"),
        None,
        None,
        String::from("secret"),
        String::from(name),
        None,
    )
}

fn timeline(id: i64, kind: Kind, list_id: Option<&str>) -> Timeline {
    Timeline::new(id, 7, kind, String::from("name"), id, list_id.map(String::from), ColumnWidth::SM)
}

#[test]
fn four_kinds_have_no_stream_of_their_own() {
    for kind in [Kind::Home, Kind::Notifications, Kind::Favourites, Kind::Bookmarks] {
        assert!(!is_streamed(kind));
    }
    for kind in [Kind::Local, Kind::Public, Kind::List, Kind::Direct, Kind::Tag] {
        assert!(is_streamed(kind));
    }
}

#[test]
fn find_account_takes_the_first_with_the_id() {
    let pairs = vec![
        (account(1, "alice"), server(7, Some(1))),
        (account(2, "bob"), server(8, Some(2))),
        (account(2, "bobby"), server(9, Some(2))),
    ];
    assert_eq!(find_account(&pairs, 2).map(|a| a.username), Some(String::from("bob")));
    assert!(find_account(&pairs, 3).is_none());
}

#[test]
fn a_timeline_session_uses_the_account_of_its_server() {
    let pairs = vec![(account(1, "alice"), server(7, Some(1)))];
    let made = start_timeline_streaming(&pairs, &server(7, Some(1)), &timeline(3, Kind::Local, None));
    let session = made.expect("a streamed kind").expect("a session");
    assert_eq!(session.access_token, Some(String::from("alice")));
    assert_eq!(session.label, "local streaming of alice@example.social");
    let made = start_timeline_streaming(&pairs, &server(8, None), &timeline(3, Kind::Local, None));
    let session = made.expect("a streamed kind").expect("a session");
    assert_eq!(session.access_token, None);
}

#[test]
fn a_timeline_without_stream_gets_no_session() {
    let pairs = Vec::new();
    assert!(start_timeline_streaming(&pairs, &server(7, None), &timeline(3, Kind::Home, None)).is_none());
    assert!(
        start_timeline_streaming(&pairs, &server(7, None), &timeline(3, Kind::Bookmarks, None)).is_none()
    );
}

#[test]
fn a_missing_account_is_an_error_of_that_timeline() {
    let pairs = vec![(account(1, "alice"), server(7, Some(1)))];
    let made = start_timeline_streaming(&pairs, &server(8, Some(5)), &timeline(3, Kind::Local, None));
    assert!(matches!(
        made,
        Some(Err(SessionError::Config(ConfigError::AccountNotFound { account_id: 5 })))
    ));
}

#[test]
fn start_streamings_starts_accounts_first_and_skips_what_has_no_stream() {
    let pairs = vec![
        (account(1, "alice"), server(7, Some(1))),
        (account(2, "bob"), server(8, Some(2))),
    ];
    let timelines = vec![
        (timeline(1, Kind::Home, None), server(7, Some(1))),
        (timeline(2, Kind::Local, None), server(7, Some(1))),
        (timeline(3, Kind::List, None), server(8, Some(2))),
        (timeline(4, Kind::Notifications, None), server(8, Some(2))),
        (timeline(5, Kind::Tag, None), server(9, None)),
    ];
    let started = start_streamings(&pairs, &timelines);
    assert_eq!(started.len(), 5);
    let first = started[0].as_ref().unwrap();
    assert!(matches!(first.scope, Scope::Account { server_id: 7 }));
    assert!(matches!(first.request, StreamRequest::User));
    let second = started[1].as_ref().unwrap();
    assert!(matches!(second.scope, Scope::Account { server_id: 8 }));
    assert_eq!(second.access_token, Some(String::from("bob")));
    let local = started[2].as_ref().unwrap();
    assert!(matches!(local.scope, Scope::Timeline { server_id: 7, timeline_id: 2, .. }));
    assert!(matches!(local.request, StreamRequest::Local));
    assert_eq!(local.access_token, Some(String::from("alice")));
    assert!(matches!(
        started[3],
        Err(SessionError::Config(ConfigError::MissingListId { .. }))
    ));
    let tag = started[4].as_ref().unwrap();
    assert!(matches!(tag.scope, Scope::Timeline { server_id: 9, timeline_id: 5, .. }));
    assert_eq!(tag.access_token, None);
}

#[test]
fn start_streamings_of_nothing_starts_nothing() {
    assert!(start_streamings(&Vec::new(), &Vec::new()).is_empty());
}

#[test]
fn reconcile_spawns_new_ids_and_retires_removed_ones() {
    let timelines = vec![
        timeline(1, Kind::Home, None),
        timeline(2, Kind::Local, None),
        timeline(3, Kind::Tag, None),
        timeline(5, Kind::Public, None),
    ];
    let running = vec![2, 4, 9];
    let changes = reconcile(&running, &timelines);
    assert_eq!(changes.spawn, vec![3, 5]);
    assert_eq!(changes.retire, vec![4, 9]);
    let settled = reconcile(&vec![2, 3, 5], &timelines);
    assert!(settled.spawn.is_empty());
    assert!(settled.retire.is_empty());
    let emptied = reconcile(&vec![2, 3], &Vec::new());
    assert!(emptied.spawn.is_empty());
    assert_eq!(emptied.retire, vec![2, 3]);
}

#[test]
fn contains_id_finds_an_id() {
    assert!(contains_id(&vec![1, 2, 3], 3));
    assert!(!contains_id(&vec![1, 2, 3], 4));
    assert!(!contains_id(&Vec::new(), 1));
}
