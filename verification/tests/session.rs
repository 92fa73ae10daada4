use fedistar::entities::timeline::{ColumnWidth, Kind};
use fedistar::entities::{Account, Server, Timeline};
use fedistar::session::{
    backoff, label_for, request_for, Action, ConfigError, Outcome, Phase, Session, SessionError,
    StreamRequest,
};
use fedistar::streaming::{start, start_user, Event, Message};

type Msg = Message<&'static str, &'static str, &'static str>;

fn server() -> Server {
    Server::new(7, String::from("example.social"), String::from("https://example.social"), None)
}

fn account() -> Account {
    Account::new(
        2,
        String::from("alice"),
        String::from("109"),
        None,
        None,
        String::from("secret"),
        String::from("token"),
        None,
    )
}

fn user_session() -> Session {
    start_user(&server(), &account())
}

fn seconds(action: Action) -> u64 {
    match action {
        Action::RetryAfter { seconds } => seconds,
        other => panic!("no retry: {:?}", other),
    }
}

#[test]
fn the_waits_are_squares_up_to_a_minute() {
    let waits: Vec<u64> = (1..=12).map(backoff).collect();
    assert_eq!(waits, vec![1, 4, 9, 16, 25, 36, 49, 60, 60, 60, 60, 60]);
    assert_eq!(backoff(0), 0);
    assert_eq!(backoff(7), 49);
    assert_eq!(backoff(8), 60);
    assert_eq!(backoff(u64::MAX), 60);
}

#[test]
fn a_session_retries_with_growing_waits() {
    let mut session = user_session();
    let mut waits = Vec::new();
    for round in 1..=10u64 {
        assert!(matches!(session.step(Outcome::Opened { supported: true }), Action::Listen));
        assert_eq!(session.progress.phase, Phase::Listening);
        waits.push(seconds(session.step(Outcome::Disconnected)));
        assert_eq!(session.progress.phase, Phase::Connecting);
        assert_eq!(session.progress.retry_count, round);
        assert!(session.progress.connected);
    }
    assert_eq!(waits, vec![1, 4, 9, 16, 25, 36, 49, 60, 60, 60]);
}

#[test]
fn the_retry_count_is_never_reset() {
    let mut session = user_session();
    session.step(Outcome::Opened { supported: true });
    session.step(Outcome::Disconnected);
    session.step(Outcome::Opened { supported: true });
    assert_eq!(session.progress.retry_count, 1);
    session.step(Outcome::Disconnected);
    assert_eq!(session.progress.retry_count, 2);
    session.progress.retry_count = u64::MAX;
    session.step(Outcome::Opened { supported: true });
    assert_eq!(seconds(session.step(Outcome::Disconnected)), 60);
    assert_eq!(session.progress.retry_count, u64::MAX);
}

#[test]
fn an_unsupported_stream_ends_the_session_for_good() {
    let mut session = user_session();
    assert!(matches!(session.step(Outcome::Opened { supported: false }), Action::Finish));
    assert_eq!(session.progress.phase, Phase::Stopped);
    assert_eq!(session.progress.retry_count, 0);
    assert!(matches!(session.step(Outcome::Disconnected), Action::Finish));
    assert!(matches!(session.step(Outcome::Opened { supported: true }), Action::Finish));
    assert!(matches!(
        session.step(Outcome::DetectionFailed { reason: String::from("x") }),
        Action::Finish
    ));
    assert_eq!(session.progress.phase, Phase::Stopped);
    assert_eq!(session.progress.retry_count, 0);
    let message: Msg = Message::Update("status");
    assert!(session.receive(message).is_none());
}

#[test]
fn a_failure_before_the_first_connection_is_surfaced() {
    let mut session = user_session();
    match session.step(Outcome::DetectionFailed { reason: String::from("unknown server") }) {
        Action::Fail(error) => {
            assert_eq!(error.message(), "unknown server");
            assert!(matches!(error, SessionError::Detection { .. }));
        }
        other => panic!("no failure: {:?}", other),
    }
    assert_eq!(session.progress.phase, Phase::Stopped);
    let mut session = user_session();
    match session.step(Outcome::ClientFailed { reason: String::from("bad token") }) {
        Action::Fail(error) => {
            assert_eq!(error.message(), "bad token");
            assert!(matches!(error, SessionError::Config(ConfigError::Client { .. })));
        }
        other => panic!("no failure: {:?}", other),
    }
    assert_eq!(session.progress.phase, Phase::Stopped);
}

#[test]
fn a_failure_after_the_first_connection_is_retried() {
    let mut session = user_session();
    session.step(Outcome::Opened { supported: true });
    assert_eq!(seconds(session.step(Outcome::Disconnected)), 1);
    let action = session.step(Outcome::DetectionFailed { reason: String::from("down") });
    assert_eq!(seconds(action), 4);
    assert_eq!(session.progress.phase, Phase::Connecting);
    let action = session.step(Outcome::ClientFailed { reason: String::from("down") });
    assert_eq!(seconds(action), 9);
    assert_eq!(session.progress.retry_count, 3);
}

#[test]
fn outcomes_that_do_not_fit_the_phase_change_nothing() {
    let mut session = user_session();
    assert!(matches!(session.step(Outcome::Disconnected), Action::Connect));
    assert_eq!(session.progress.phase, Phase::Connecting);
    assert_eq!(session.progress.retry_count, 0);
    session.step(Outcome::Opened { supported: true });
    assert!(matches!(session.step(Outcome::Opened { supported: false }), Action::Listen));
    assert!(matches!(
        session.step(Outcome::ClientFailed { reason: String::from("x") }),
        Action::Listen
    ));
    assert_eq!(session.progress.phase, Phase::Listening);
    assert_eq!(session.progress.retry_count, 0);
}

#[test]
fn a_session_emits_only_while_it_listens() {
    let mut session = user_session();
    assert!(session.receive(Msg::Update("early")).is_none());
    session.step(Outcome::Opened { supported: true });
    match session.receive(Msg::Delete(String::from("42"))) {
        Some(Event::DeleteHomeStatus(payload)) => {
            assert_eq!(payload.server_id, 7);
            assert_eq!(payload.status_id, "42");
        }
        _ => panic!("another event"),
    }
    assert!(session.receive(Msg::Heartbeat).is_none());
    session.step(Outcome::Disconnected);
    assert!(session.receive(Msg::Update("late")).is_none());
}

#[test]
fn a_timeline_session_emits_timeline_events() {
    let timeline = Timeline::new(11, 7, Kind::Tag, String::from("rust"), 1, None, ColumnWidth::SM);
    let mut session = start(&server(), &timeline, None).unwrap();
    session.step(Outcome::Opened { supported: true });
    match session.receive(Msg::Update("status")) {
        Some(Event::ReceiveTimelineStatus(payload)) => {
            assert_eq!((payload.server_id, payload.timeline_id), (7, 11));
            assert_eq!(payload.name, "rust");
        }
        _ => panic!("another event"),
    }
    assert!(session
        .receive(Msg::Notification { actor: Some(String::from("1")), notification: "n" })
        .is_none());
}

#[test]
fn request_for_follows_the_kind() {
    let timeline = |kind, list_id: Option<&str>| {
        Timeline::new(1, 1, kind, String::from("name"), 1, list_id.map(String::from), ColumnWidth::SM)
    };
    assert!(matches!(request_for(&timeline(Kind::Public, None)), Ok(StreamRequest::Public)));
    assert!(matches!(request_for(&timeline(Kind::Local, None)), Ok(StreamRequest::Local)));
    assert!(matches!(request_for(&timeline(Kind::Direct, None)), Ok(StreamRequest::Direct)));
    assert!(matches!(
        request_for(&timeline(Kind::List, None)),
        Err(SessionError::Config(ConfigError::MissingListId { .. }))
    ));
    assert!(matches!(
        request_for(&timeline(Kind::Home, Some("1"))),
        Err(SessionError::Config(ConfigError::NotStreamed { .. }))
    ));
}

#[test]
fn labels_name_the_account_where_there_is_one() {
    let domain = String::from("example.social");
    let user = String::from("alice");
    assert_eq!(label_for("tag", Some(&user), &domain), "tag streaming of alice@example.social");
    assert_eq!(label_for("tag", None, &domain), "tag streaming of @example.social");
}

#[test]
fn the_account_not_found_error_has_a_text() {
    let error = SessionError::Config(ConfigError::AccountNotFound { account_id: 3 });
    assert_eq!(error.message(), "could not find the account of the server");
}

#[test]
fn a_cancelled_session_ends_wherever_it_stands() {
    let mut connecting = user_session();
    assert!(matches!(connecting.step(Outcome::Cancelled), Action::Finish));
    assert_eq!(connecting.progress.phase, Phase::Stopped);
    let mut listening = user_session();
    listening.step(Outcome::Opened { supported: true });
    listening.step(Outcome::Disconnected);
    listening.step(Outcome::Opened { supported: true });
    assert!(matches!(listening.step(Outcome::Cancelled), Action::Finish));
    assert_eq!(listening.progress.phase, Phase::Stopped);
    assert_eq!(listening.progress.retry_count, 1);
    assert!(matches!(listening.step(Outcome::Opened { supported: true }), Action::Finish));
    assert!(matches!(listening.step(Outcome::Cancelled), Action::Finish));
    assert!(listening.receive(Msg::Update("late")).is_none());
}
