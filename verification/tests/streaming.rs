use fedistar::entities::timeline::{ColumnWidth, Kind};
use fedistar::entities::{Account, Server, Timeline};
use fedistar::session::{ConfigError, Phase, Scope, SessionError, StreamRequest};
use fedistar::streaming::{
    start, start_user, translate_account_message, translate_timeline_message, Event, EventKind,
    Message,
};

type Msg = Message<&'static str, &'static str, &'static str>;

fn server() -> Server {
    Server::new(7, String::from("example.social"), String::from("https://example.social"), None)
}

fn account() -> Account {
    Account::new(
        2,
        String::from("alice"),
        String::from("109"),
        None,
        None,
        String::from("secret"),
        String::from("token"),
        None,
    )
}

fn timeline(kind: Kind, name: &str, list_id: Option<&str>) -> Timeline {
    Timeline::new(11, 7, kind, String::from(name), 1, list_id.map(String::from), ColumnWidth::SM)
}

#[test]
fn a_delete_on_the_account_stream_becomes_delete_home_status() {
    let message: Msg = Message::Delete(String::from("42"));
    let event = translate_account_message(7, message).expect("one event");
    assert_eq!(event.name(), "delete-home-status");
    assert_eq!(event.kind(), EventKind::StatusDeleted);
    assert_eq!(event.server_id(), 7);
    assert_eq!(event.timeline_id(), None);
    match event {
        Event::DeleteHomeStatus(payload) => {
            assert_eq!(payload.server_id, 7);
            assert_eq!(payload.status_id, "42");
        }
        _ => panic!("another event"),
    }
}

#[test]
fn account_stream_messages_become_home_events() {
    let update: Msg = Message::Update("status");
    match translate_account_message(7, update) {
        Some(Event::ReceiveHomeStatus(payload)) => {
            assert_eq!(payload.server_id, 7);
            assert_eq!(payload.status, "status");
        }
        _ => panic!("another event"),
    }
    let edited: Msg = Message::StatusUpdate("edited");
    match translate_account_message(7, edited) {
        Some(Event::ReceiveHomeStatusUpdate(payload)) => {
            assert_eq!(payload.server_id, 7);
            assert_eq!(payload.status, "edited");
        }
        _ => panic!("another event"),
    }
    let conversation: Msg = Message::Conversation("talk");
    assert!(translate_account_message(7, conversation).is_none());
    let heartbeat: Msg = Message::Heartbeat;
    assert!(translate_account_message(7, heartbeat).is_none());
}

#[test]
fn a_notification_needs_an_actor() {
    let with: Msg = Message::Notification { actor: Some(String::from("109")), notification: "n" };
    match translate_account_message(7, with) {
        Some(Event::ReceiveNotification(payload)) => {
            assert_eq!(payload.server_id, 7);
            assert_eq!(payload.notification, "n");
        }
        _ => panic!("another event"),
    }
    let without: Msg = Message::Notification { actor: None, notification: "n" };
    assert!(translate_account_message(7, without).is_none());
}

#[test]
fn timeline_stream_messages_become_timeline_events() {
    let name = String::from("local");
    let update: Msg = Message::Update("status");
    match translate_timeline_message(7, 11, &name, update) {
        Some(Event::ReceiveTimelineStatus(payload)) => {
            assert_eq!((payload.server_id, payload.timeline_id), (7, 11));
            assert_eq!(payload.name, "local");
            assert_eq!(payload.status, "status");
        }
        _ => panic!("another event"),
    }
    let edited: Msg = Message::StatusUpdate("edited");
    let event = translate_timeline_message(7, 11, &name, edited).unwrap();
    assert_eq!(event.name(), "receive-timeline-status-update");
    assert_eq!(event.kind(), EventKind::StatusUpdated);
    assert_eq!(event.timeline_id(), Some(11));
    let deleted: Msg = Message::Delete(String::from("42"));
    match translate_timeline_message(7, 11, &name, deleted) {
        Some(Event::DeleteTimelineStatus(payload)) => {
            assert_eq!((payload.server_id, payload.timeline_id), (7, 11));
            assert_eq!(payload.name, "local");
            assert_eq!(payload.status_id, "42");
        }
        _ => panic!("another event"),
    }
    let conversation: Msg = Message::Conversation("talk");
    match translate_timeline_message(7, 11, &name, conversation) {
        Some(Event::ReceiveTimelineConversation(payload)) => {
            assert_eq!((payload.server_id, payload.timeline_id), (7, 11));
            assert_eq!(payload.conversation, "talk");
        }
        _ => panic!("another event"),
    }
    let notification: Msg = Message::Notification { actor: Some(String::from("1")), notification: "n" };
    assert!(translate_timeline_message(7, 11, &name, notification).is_none());
    let heartbeat: Msg = Message::Heartbeat;
    assert!(translate_timeline_message(7, 11, &name, heartbeat).is_none());
}

#[test]
fn event_names_are_the_emitted_names() {
    let name = String::from("t");
    let names: Vec<String> = vec![
        translate_account_message(1, Msg::Update("s")).unwrap().name(),
        translate_account_message(1, Msg::StatusUpdate("s")).unwrap().name(),
        translate_account_message(1, Msg::Delete(String::from("1"))).unwrap().name(),
        translate_account_message(1, Msg::Notification { actor: Some(String::new()), notification: "n" })
            .unwrap()
            .name(),
        translate_timeline_message(1, 2, &name, Msg::Update("s")).unwrap().name(),
        translate_timeline_message(1, 2, &name, Msg::StatusUpdate("s")).unwrap().name(),
        translate_timeline_message(1, 2, &name, Msg::Delete(String::from("1"))).unwrap().name(),
        translate_timeline_message(1, 2, &name, Msg::Conversation("c")).unwrap().name(),
    ];
    assert_eq!(
        names,
        vec![
            "receive-home-status",
            "receive-home-status-update",
            "delete-home-status",
            "receive-notification",
            "receive-timeline-status",
            "receive-timeline-status-update",
            "delete-timeline-status",
            "receive-timeline-conversation",
        ]
    );
}

#[test]
fn start_user_opens_the_stream_of_the_account() {
    let session = start_user(&server(), &account());
    assert!(matches!(session.scope, Scope::Account { server_id: 7 }));
    assert_eq!(session.url, "https://example.social");
    assert_eq!(session.access_token, Some(String::from("token")));
    assert!(matches!(session.request, StreamRequest::User));
    assert_eq!(session.label, "user streaming of alice@example.social");
    assert_eq!(session.progress.phase, Phase::Connecting);
    assert_eq!(session.progress.retry_count, 0);
    assert!(!session.progress.connected);
    let plan = session.connect_plan();
    assert_eq!(plan.url, "https://example.social");
    assert_eq!(plan.access_token, Some(String::from("token")));
    assert_eq!(plan.user_agent, "fedistar");
    assert!(matches!(plan.request, StreamRequest::User));
}

#[test]
fn start_picks_the_stream_by_kind() {
    let public = start(&server(), &timeline(Kind::Public, "public", None), None).unwrap();
    assert!(matches!(public.request, StreamRequest::Public));
    assert_eq!(public.access_token, None);
    assert_eq!(public.label, "public streaming of @example.social");
    match &public.scope {
        Scope::Timeline { server_id, timeline_id, name } => {
            assert_eq!((*server_id, *timeline_id), (7, 11));
            assert_eq!(name, "public");
        }
        _ => panic!("another scope"),
    }
    let local = start(&server(), &timeline(Kind::Local, "local", None), Some(account())).unwrap();
    assert!(matches!(local.request, StreamRequest::Local));
    assert_eq!(local.access_token, Some(String::from("token")));
    assert_eq!(local.label, "local streaming of alice@example.social");
    let direct = start(&server(), &timeline(Kind::Direct, "direct", None), None).unwrap();
    assert!(matches!(direct.request, StreamRequest::Direct));
    let list = start(&server(), &timeline(Kind::List, "friends", Some("42")), None).unwrap();
    match &list.request {
        StreamRequest::List { list_id } => assert_eq!(list_id, "42"),
        _ => panic!("another stream"),
    }
    let tag = start(&server(), &timeline(Kind::Tag, "rust", None), None).unwrap();
    match &tag.request {
        StreamRequest::Tag { tag } => assert_eq!(tag, "rust"),
        _ => panic!("another stream"),
    }
    assert_eq!(tag.url, "https://example.social");
}

#[test]
fn a_list_timeline_without_list_id_is_refused() {
    let made = start(&server(), &timeline(Kind::List, "friends", None), Some(account()));
    match made {
        Err(error) => {
            assert_eq!(error.message(), "could not find list_id for friends ");
            match error {
                SessionError::Config(ConfigError::MissingListId { name }) => {
                    assert_eq!(name, "friends")
                }
                _ => panic!("another error"),
            }
        }
        Ok(_) => panic!("a session"),
    }
}

#[test]
fn kinds_without_a_stream_are_refused() {
    for kind in [Kind::Home, Kind::Notifications, Kind::Favourites, Kind::Bookmarks] {
        match start(&server(), &timeline(kind, "mine", None), None) {
            Err(error) => {
                assert_eq!(error.message(), "mine is not supported");
                assert!(matches!(
                    error,
                    SessionError::Config(ConfigError::NotStreamed { .. })
                ));
            }
            Ok(_) => panic!("a session"),
        }
    }
}
