//! The uniform events that the sessions emit, and the translation of what a
//! server pushes into them.
//!
//! What a server sends about a status, a notification or a conversation is
//! carried through untouched, so the events are generic in those three.

use vstd::prelude::*;
use vstd::string::*;
use crate::entities::account::Account;
use crate::entities::server::Server;
use crate::entities::timeline::{kind_name, Timeline};
use crate::session::{
    initial_progress, label_for, request_for, server_url, session_label, timeline_request, Phase,
    Progress, Scope, Session, SessionError, StreamRequest,
};

verus! {

/// One message that a server pushed over a stream.
pub enum Message<S, N, C> {
    /// A new status.
    Update(S),
    /// A notification, with the account that caused it where the server named one.
    Notification { actor: Option<String>, notification: N },
    /// A conversation.
    Conversation(C),
    /// The id of a status that was deleted.
    Delete(String),
    /// An edited status.
    StatusUpdate(S),
    /// A sign of life of the connection.
    Heartbeat,
}

/// A new status on the home timeline of the account on a server.
pub struct ReceiveHomeStatusPayload<S> {
    pub server_id: i64,
    pub status: S,
}

/// An edited status on the home timeline of the account on a server.
pub struct ReceiveHomeStatusUpdatePayload<S> {
    pub server_id: i64,
    pub status: S,
}

/// The id of a status that was deleted from the home timeline.
pub struct DeleteHomeStatusPayload {
    pub server_id: i64,
    pub status_id: String,
}

/// A notification for the account on a server.
pub struct ReceiveNotificationPayload<N> {
    pub server_id: i64,
    pub notification: N,
}

/// A new status on a timeline.
pub struct ReceiveTimelineStatusPayload<S> {
    pub server_id: i64,
    pub timeline_id: i64,
    pub name: String,
    pub status: S,
}

/// An edited status on a timeline.
pub struct ReceiveTimelineStatusUpdatePayload<S> {
    pub server_id: i64,
    pub timeline_id: i64,
    pub name: String,
    pub status: S,
}

/// The id of a status that was deleted from a timeline.
pub struct DeleteTimelineStatusPayload {
    pub server_id: i64,
    pub timeline_id: i64,
    pub name: String,
    pub status_id: String,
}

/// A conversation on a timeline of direct messages.
pub struct ReceiveTimelineConversationPayload<C> {
    pub server_id: i64,
    pub timeline_id: i64,
    pub conversation: C,
}

/// One uniform event.
pub enum Event<S, N, C> {
    ReceiveHomeStatus(ReceiveHomeStatusPayload<S>),
    ReceiveHomeStatusUpdate(ReceiveHomeStatusUpdatePayload<S>),
    DeleteHomeStatus(DeleteHomeStatusPayload),
    ReceiveNotification(ReceiveNotificationPayload<N>),
    ReceiveTimelineStatus(ReceiveTimelineStatusPayload<S>),
    ReceiveTimelineStatusUpdate(ReceiveTimelineStatusUpdatePayload<S>),
    DeleteTimelineStatus(DeleteTimelineStatusPayload),
    ReceiveTimelineConversation(ReceiveTimelineConversationPayload<C>),
}

/// What an event is about, whatever stream it came over.
#[derive(Clone, Copy, Debug, PartialEq, Eq, Structural)]
pub enum EventKind {
    StatusReceived,
    StatusUpdated,
    StatusDeleted,
    NotificationReceived,
    ConversationReceived,
}

/// The name under which an event is emitted.
pub open spec fn event_name<S, N, C>(event: Event<S, N, C>) -> Seq<char> {
    match event {
        Event::ReceiveHomeStatus(_) => "receive-home-status"@,
        Event::ReceiveHomeStatusUpdate(_) => "receive-home-status-update"@,
        Event::DeleteHomeStatus(_) => "delete-home-status"@,
        Event::ReceiveNotification(_) => "receive-notification"@,
        Event::ReceiveTimelineStatus(_) => "receive-timeline-status"@,
        Event::ReceiveTimelineStatusUpdate(_) => "receive-timeline-status-update"@,
        Event::DeleteTimelineStatus(_) => "delete-timeline-status"@,
        Event::ReceiveTimelineConversation(_) => "receive-timeline-conversation"@,
    }
}

/// What an event is about.
pub open spec fn event_kind<S, N, C>(event: Event<S, N, C>) -> EventKind {
    match event {
        Event::ReceiveHomeStatus(_) => EventKind::StatusReceived,
        Event::ReceiveHomeStatusUpdate(_) => EventKind::StatusUpdated,
        Event::DeleteHomeStatus(_) => EventKind::StatusDeleted,
        Event::ReceiveNotification(_) => EventKind::NotificationReceived,
        Event::ReceiveTimelineStatus(_) => EventKind::StatusReceived,
        Event::ReceiveTimelineStatusUpdate(_) => EventKind::StatusUpdated,
        Event::DeleteTimelineStatus(_) => EventKind::StatusDeleted,
        Event::ReceiveTimelineConversation(_) => EventKind::ConversationReceived,
    }
}

/// The server that an event came from.
pub open spec fn event_server<S, N, C>(event: Event<S, N, C>) -> i64 {
    match event {
        Event::ReceiveHomeStatus(payload) => payload.server_id,
        Event::ReceiveHomeStatusUpdate(payload) => payload.server_id,
        Event::DeleteHomeStatus(payload) => payload.server_id,
        Event::ReceiveNotification(payload) => payload.server_id,
        Event::ReceiveTimelineStatus(payload) => payload.server_id,
        Event::ReceiveTimelineStatusUpdate(payload) => payload.server_id,
        Event::DeleteTimelineStatus(payload) => payload.server_id,
        Event::ReceiveTimelineConversation(payload) => payload.server_id,
    }
}

/// The timeline that an event belongs to; none for the events of an
/// account's own stream.
pub open spec fn event_timeline<S, N, C>(event: Event<S, N, C>) -> Option<i64> {
    match event {
        Event::ReceiveTimelineStatus(payload) => Some(payload.timeline_id),
        Event::ReceiveTimelineStatusUpdate(payload) => Some(payload.timeline_id),
        Event::DeleteTimelineStatus(payload) => Some(payload.timeline_id),
        Event::ReceiveTimelineConversation(payload) => Some(payload.timeline_id),
        _ => None,
    }
}

impl<S, N, C> Event<S, N, C> {
    /// The name under which this event is emitted.
    pub fn name(&self) -> (name: String)
        ensures
            name@ == event_name(*self),
    {
        match self {
            Event::ReceiveHomeStatus(_) => "receive-home-status".to_owned(),
            Event::ReceiveHomeStatusUpdate(_) => "receive-home-status-update".to_owned(),
            Event::DeleteHomeStatus(_) => "delete-home-status".to_owned(),
            Event::ReceiveNotification(_) => "receive-notification".to_owned(),
            Event::ReceiveTimelineStatus(_) => "receive-timeline-status".to_owned(),
            Event::ReceiveTimelineStatusUpdate(_) => "receive-timeline-status-update".to_owned(),
            Event::DeleteTimelineStatus(_) => "delete-timeline-status".to_owned(),
            Event::ReceiveTimelineConversation(_) => "receive-timeline-conversation".to_owned(),
        }
    }

    /// What this event is about.
    pub fn kind(&self) -> (kind: EventKind)
        ensures
            kind == event_kind(*self),
    {
        match self {
            Event::ReceiveHomeStatus(_) => EventKind::StatusReceived,
            Event::ReceiveHomeStatusUpdate(_) => EventKind::StatusUpdated,
            Event::DeleteHomeStatus(_) => EventKind::StatusDeleted,
            Event::ReceiveNotification(_) => EventKind::NotificationReceived,
            Event::ReceiveTimelineStatus(_) => EventKind::StatusReceived,
            Event::ReceiveTimelineStatusUpdate(_) => EventKind::StatusUpdated,
            Event::DeleteTimelineStatus(_) => EventKind::StatusDeleted,
            Event::ReceiveTimelineConversation(_) => EventKind::ConversationReceived,
        }
    }

    /// The server that this event came from.
    pub fn server_id(&self) -> (server_id: i64)
        ensures
            server_id == event_server(*self),
    {
        match self {
            Event::ReceiveHomeStatus(payload) => payload.server_id,
            Event::ReceiveHomeStatusUpdate(payload) => payload.server_id,
            Event::DeleteHomeStatus(payload) => payload.server_id,
            Event::ReceiveNotification(payload) => payload.server_id,
            Event::ReceiveTimelineStatus(payload) => payload.server_id,
            Event::ReceiveTimelineStatusUpdate(payload) => payload.server_id,
            Event::DeleteTimelineStatus(payload) => payload.server_id,
            Event::ReceiveTimelineConversation(payload) => payload.server_id,
        }
    }

    /// The timeline that this event belongs to, if it came over a
    /// timeline's stream.
    pub fn timeline_id(&self) -> (timeline_id: Option<i64>)
        ensures
            timeline_id == event_timeline(*self),
    {
        match self {
            Event::ReceiveTimelineStatus(payload) => Some(payload.timeline_id),
            Event::ReceiveTimelineStatusUpdate(payload) => Some(payload.timeline_id),
            Event::DeleteTimelineStatus(payload) => Some(payload.timeline_id),
            Event::ReceiveTimelineConversation(payload) => Some(payload.timeline_id),
            _ => None,
        }
    }
}

/// The event that a message on an account's own stream becomes. A
/// notification without an actor, a conversation and a heartbeat become none.
pub open spec fn account_event<S, N, C>(server_id: i64, message: Message<S, N, C>) -> Option<
    Event<S, N, C>,
> {
    match message {
        Message::Update(status) => Some(
            Event::ReceiveHomeStatus(ReceiveHomeStatusPayload { server_id, status }),
        ),
        Message::Notification { actor, notification } => if actor is Some {
            Some(Event::ReceiveNotification(ReceiveNotificationPayload { server_id, notification }))
        } else {
            None
        },
        Message::StatusUpdate(status) => Some(
            Event::ReceiveHomeStatusUpdate(ReceiveHomeStatusUpdatePayload { server_id, status }),
        ),
        Message::Delete(status_id) => Some(
            Event::DeleteHomeStatus(DeleteHomeStatusPayload { server_id, status_id }),
        ),
        Message::Conversation(_) => None,
        Message::Heartbeat => None,
    }
}

/// The event that a message on a timeline's stream becomes. A notification
/// and a heartbeat become none.
pub open spec fn timeline_event<S, N, C>(
    server_id: i64,
    timeline_id: i64,
    name: String,
    message: Message<S, N, C>,
) -> Option<Event<S, N, C>> {
    match message {
        Message::Update(status) => Some(
            Event::ReceiveTimelineStatus(
                ReceiveTimelineStatusPayload { server_id, timeline_id, name, status },
            ),
        ),
        Message::StatusUpdate(status) => Some(
            Event::ReceiveTimelineStatusUpdate(
                ReceiveTimelineStatusUpdatePayload { server_id, timeline_id, name, status },
            ),
        ),
        Message::Delete(status_id) => Some(
            Event::DeleteTimelineStatus(
                DeleteTimelineStatusPayload { server_id, timeline_id, name, status_id },
            ),
        ),
        Message::Conversation(conversation) => Some(
            Event::ReceiveTimelineConversation(
                ReceiveTimelineConversationPayload { server_id, timeline_id, conversation },
            ),
        ),
        Message::Notification { actor, notification } => None,
        Message::Heartbeat => None,
    }
}

/// Translates a message from the stream of the account on `server_id`.
pub fn translate_account_message<S, N, C>(server_id: i64, message: Message<S, N, C>) -> (event:
    Option<Event<S, N, C>>)
    ensures
        event == account_event(server_id, message),
{
    match message {
        Message::Update(status) => Some(
            Event::ReceiveHomeStatus(ReceiveHomeStatusPayload { server_id, status }),
        ),
        Message::Notification { actor, notification } => {
            if actor.is_some() {
                Some(
                    Event::ReceiveNotification(
                        ReceiveNotificationPayload { server_id, notification },
                    ),
                )
            } else {
                None
            }
        },
        Message::StatusUpdate(status) => Some(
            Event::ReceiveHomeStatusUpdate(ReceiveHomeStatusUpdatePayload { server_id, status }),
        ),
        Message::Delete(status_id) => Some(
            Event::DeleteHomeStatus(DeleteHomeStatusPayload { server_id, status_id }),
        ),
        Message::Conversation(_) => None,
        Message::Heartbeat => None,
    }
}

/// Translates a message from the stream of the timeline `timeline_id`,
/// which is called `name`, on `server_id`.
pub fn translate_timeline_message<S, N, C>(
    server_id: i64,
    timeline_id: i64,
    name: &String,
    message: Message<S, N, C>,
) -> (event: Option<Event<S, N, C>>)
    ensures
        event == timeline_event(server_id, timeline_id, *name, message),
{
    match message {
        Message::Update(status) => Some(
            Event::ReceiveTimelineStatus(
                ReceiveTimelineStatusPayload { server_id, timeline_id, name: name.clone(), status },
            ),
        ),
        Message::StatusUpdate(status) => Some(
            Event::ReceiveTimelineStatusUpdate(
                ReceiveTimelineStatusUpdatePayload {
                    server_id,
                    timeline_id,
                    name: name.clone(),
                    status,
                },
            ),
        ),
        Message::Delete(status_id) => Some(
            Event::DeleteTimelineStatus(
                DeleteTimelineStatusPayload {
                    server_id,
                    timeline_id,
                    name: name.clone(),
                    status_id,
                },
            ),
        ),
        Message::Conversation(conversation) => Some(
            Event::ReceiveTimelineConversation(
                ReceiveTimelineConversationPayload { server_id, timeline_id, conversation },
            ),
        ),
        Message::Notification { actor, notification } => None,
        Message::Heartbeat => None,
    }
}

/// Whether `session` is the fresh session of this account on this server:
/// it opens the account's own stream at the server's address, with the
/// account's token.
pub open spec fn account_session(server: Server, account: Account, session: Session) -> bool {
    &&& session.scope == (Scope::Account { server_id: server.id })
    &&& session.url@ == server_url(server.domain@)
    &&& session.access_token == Some(account.access_token)
    &&& session.request == StreamRequest::User
    &&& session.label@ == session_label("user"@, Some(account.username@), server.domain@)
    &&& session.progress == initial_progress()
}

/// Whether `made` is what starting the session of this timeline comes to:
/// the error where the timeline has no stream to open, else the fresh
/// session that opens the timeline's stream at the server's address, with
/// the token of the account where there is one.
pub open spec fn timeline_session(
    server: Server,
    timeline: Timeline,
    account: Option<Account>,
    made: Result<Session, SessionError>,
) -> bool {
    match made {
        Ok(session) => {
            &&& timeline_request(timeline) == Ok::<StreamRequest, SessionError>(session.request)
            &&& session.scope == (Scope::Timeline {
                server_id: server.id,
                timeline_id: timeline.id,
                name: timeline.name,
            })
            &&& session.url@ == server_url(server.domain@)
            &&& session.access_token == match account {
                Some(found) => Some(found.access_token),
                None => None,
            }
            &&& session.label@ == session_label(
                kind_name(timeline.kind),
                match account {
                    Some(found) => Some(found.username@),
                    None => None,
                },
                server.domain@,
            )
            &&& session.progress == initial_progress()
        },
        Err(error) => timeline_request(timeline) == Err::<StreamRequest, SessionError>(error),
    }
}

/// Starts the session of an account: it opens the account's own stream on
/// the account's server, with the account's token.
pub fn start_user(server: &Server, account: &Account) -> (session: Session)
    ensures
        account_session(*server, *account, session),
{
    Session {
        scope: Scope::Account { server_id: server.id },
        url: "https://".to_owned().concat(server.domain.as_str()),
        access_token: Some(account.access_token.clone()),
        request: StreamRequest::User,
        label: label_for("user", Some(&account.username), &server.domain),
        progress: Progress { phase: Phase::Connecting, retry_count: 0, connected: false },
    }
}

/// Starts the session of a timeline, with the token of the server's account
/// where there is one. It is refused, before anything is sent, where the
/// timeline has no stream to open.
pub fn start(server: &Server, timeline: &Timeline, account: Option<Account>) -> (made: Result<
    Session,
    SessionError,
>)
    ensures
        timeline_session(*server, *timeline, account, made),
{
    let request = match request_for(timeline) {
        Ok(request) => request,
        Err(error) => {
            return Err(error);
        },
    };
    let what = timeline.kind.to_string();
    let (access_token, label) = match &account {
        Some(found) => (
            Some(found.access_token.clone()),
            label_for(what.as_str(), Some(&found.username), &server.domain),
        ),
        None => (None, label_for(what.as_str(), None, &server.domain)),
    };
    Ok(
        Session {
            scope: Scope::Timeline {
                server_id: server.id,
                timeline_id: timeline.id,
                name: timeline.name.clone(),
            },
            url: "https://".to_owned().concat(server.domain.as_str()),
            access_token,
            request,
            label,
            progress: Progress { phase: Phase::Connecting, retry_count: 0, connected: false },
        },
    )
}

} // verus!
