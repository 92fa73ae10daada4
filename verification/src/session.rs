//! One supervised connection: what it opens, how it reacts to what happens
//! to the connection, and how long it waits before it connects again.
//!
//! A session does no work on the network itself. It is told what happened
//! and answers with what is to be done next.

use vstd::prelude::*;
use vstd::string::*;
use crate::entities::timeline::{Kind, Timeline};
use crate::streaming::{
    account_event, timeline_event, translate_account_message, translate_timeline_message, Event,
    Message,
};
use crate::text::clone_opt;

verus! {

/// The longest time, in seconds, that a session waits before it connects again.
pub const LONGEST_WAIT: u64 = 60;

/// The stream that a session opens.
#[derive(Debug)]
pub enum StreamRequest {
    /// The stream of the account itself.
    User,
    Public,
    Local,
    Direct,
    /// The stream of one list.
    List { list_id: String },
    /// The stream of one tag.
    Tag { tag: String },
}

impl Clone for StreamRequest {
    fn clone(&self) -> (copy: StreamRequest)
        ensures
            copy == *self,
    {
        match self {
            StreamRequest::User => StreamRequest::User,
            StreamRequest::Public => StreamRequest::Public,
            StreamRequest::Local => StreamRequest::Local,
            StreamRequest::Direct => StreamRequest::Direct,
            StreamRequest::List { list_id } => StreamRequest::List { list_id: list_id.clone() },
            StreamRequest::Tag { tag } => StreamRequest::Tag { tag: tag.clone() },
        }
    }
}

/// What is wrong with the way a session was set up.
#[derive(Debug)]
pub enum ConfigError {
    /// The timeline of this name follows a list but names none.
    MissingListId { name: String },
    /// The timeline of this name is of a kind that has no stream of its own.
    NotStreamed { name: String },
    /// No client could be built for the server.
    Client { reason: String },
    /// The server names an account that is not stored.
    AccountNotFound { account_id: i64 },
}

/// Why a session was not started, or ended before it ever was connected.
#[derive(Debug)]
pub enum SessionError {
    /// It could not be found out which protocol the server speaks.
    Detection { reason: String },
    Config(ConfigError),
}

/// The text of an error, as it is logged and shown.
pub open spec fn error_text(error: SessionError) -> Seq<char> {
    match error {
        SessionError::Detection { reason } => reason@,
        SessionError::Config(ConfigError::MissingListId { name }) => "could not find list_id for "@
            + name@ + " "@,
        SessionError::Config(ConfigError::NotStreamed { name }) => name@ + " is not supported"@,
        SessionError::Config(ConfigError::Client { reason }) => reason@,
        SessionError::Config(ConfigError::AccountNotFound { account_id }) =>
            "could not find the account of the server"@,
    }
}

impl SessionError {
    /// The text of this error.
    pub fn message(&self) -> (text: String)
        ensures
            text@ == error_text(*self),
    {
        match self {
            SessionError::Detection { reason } => reason.clone(),
            SessionError::Config(ConfigError::MissingListId { name }) => {
                "could not find list_id for ".to_owned().concat(name.as_str()).concat(" ")
            },
            SessionError::Config(ConfigError::NotStreamed { name }) => {
                name.clone().concat(" is not supported")
            },
            SessionError::Config(ConfigError::Client { reason }) => reason.clone(),
            SessionError::Config(ConfigError::AccountNotFound { account_id }) => {
                "could not find the account of the server".to_owned()
            },
        }
    }
}

/// Where a session stands.
#[derive(Clone, Copy, Debug, PartialEq, Eq, Structural)]
pub enum Phase {
    /// The stream is being opened.
    Connecting,
    /// The stream is open and messages come in.
    Listening,
    /// The session has ended for good.
    Stopped,
}

/// The part of a session that changes while it runs.
#[derive(Clone, Copy, Debug, PartialEq, Eq, Structural)]
pub struct Progress {
    pub phase: Phase,
    /// How often the session has gone back to connecting. Never reset.
    pub retry_count: u64,
    /// Whether the stream has been open at least once.
    pub connected: bool,
}

/// What happened to the connection of a session.
#[derive(Debug)]
pub enum Outcome {
    /// The stream was opened; the server may still not support it.
    Opened { supported: bool },
    /// The server's protocol could not be found out.
    DetectionFailed { reason: String },
    /// No client could be built for the server.
    ClientFailed { reason: String },
    /// The open stream came to an end, for whatever reason.
    Disconnected,
    /// The session was called off: its timeline is gone, or the client shuts down.
    Cancelled,
}

/// What is to be done for a session next.
#[derive(Debug)]
pub enum Action {
    /// Go on opening the stream.
    Connect,
    /// Listen on the open stream until it ends.
    Listen,
    /// Wait this many seconds, then open the stream again.
    RetryAfter { seconds: u64 },
    /// Give the session up and tell whoever asked for it.
    Fail(SessionError),
    /// Let the session end without a word.
    Finish,
}

/// The seconds to wait before the retry of this number: its square, and 60
/// at most.
pub open spec fn backoff_seconds(retry_count: nat) -> nat {
    if retry_count * retry_count < 60 {
        retry_count * retry_count
    } else {
        60
    }
}

/// The retry count after one more retry. It stops at the greatest number
/// that it can hold.
pub open spec fn one_more(retry_count: u64) -> u64 {
    if retry_count < u64::MAX {
        (retry_count + 1) as u64
    } else {
        retry_count
    }
}

/// Where a session starts.
pub open spec fn initial_progress() -> Progress {
    Progress { phase: Phase::Connecting, retry_count: 0, connected: false }
}

/// The progress of a session that goes back to connecting.
pub open spec fn retrying(progress: Progress) -> Progress {
    Progress {
        phase: Phase::Connecting,
        retry_count: one_more(progress.retry_count),
        connected: progress.connected,
    }
}

/// The error that a failed attempt to connect stands for; none for the
/// other outcomes.
pub open spec fn failure_of(outcome: Outcome) -> Option<SessionError> {
    match outcome {
        Outcome::DetectionFailed { reason } => Some(SessionError::Detection { reason }),
        Outcome::ClientFailed { reason } => Some(
            SessionError::Config(ConfigError::Client { reason }),
        ),
        _ => None,
    }
}

/// Where a session stands after an outcome.
pub open spec fn progress_after(progress: Progress, outcome: Outcome) -> Progress {
    if outcome is Cancelled {
        Progress { phase: Phase::Stopped, ..progress }
    } else {
        uncancelled_progress(progress, outcome)
    }
}

/// Where a session stands after an outcome that does not call it off.
pub open spec fn uncancelled_progress(progress: Progress, outcome: Outcome) -> Progress {
    match progress.phase {
        Phase::Stopped => progress,
        Phase::Connecting => match outcome {
            Outcome::Opened { supported } => if supported {
                Progress { phase: Phase::Listening, connected: true, ..progress }
            } else {
                Progress { phase: Phase::Stopped, ..progress }
            },
            Outcome::Disconnected => progress,
            _ => if progress.connected {
                retrying(progress)
            } else {
                Progress { phase: Phase::Stopped, ..progress }
            },
        },
        Phase::Listening => match outcome {
            Outcome::Disconnected => retrying(progress),
            _ => progress,
        },
    }
}

/// What is to be done after an outcome.
pub open spec fn action_after(progress: Progress, outcome: Outcome) -> Action {
    if outcome is Cancelled {
        Action::Finish
    } else {
        uncancelled_action(progress, outcome)
    }
}

/// What is to be done after an outcome that does not call the session off.
pub open spec fn uncancelled_action(progress: Progress, outcome: Outcome) -> Action {
    match progress.phase {
        Phase::Stopped => Action::Finish,
        Phase::Connecting => match outcome {
            Outcome::Opened { supported } => if supported {
                Action::Listen
            } else {
                Action::Finish
            },
            Outcome::Disconnected => Action::Connect,
            _ => if progress.connected {
                Action::RetryAfter {
                    seconds: backoff_seconds(one_more(progress.retry_count) as nat) as u64,
                }
            } else {
                Action::Fail(failure_of(outcome)->Some_0)
            },
        },
        Phase::Listening => match outcome {
            Outcome::Disconnected => Action::RetryAfter {
                seconds: backoff_seconds(one_more(progress.retry_count) as nat) as u64,
            },
            _ => Action::Listen,
        },
    }
}

/// The seconds to wait before the retry of this number.
pub fn backoff(retry_count: u64) -> (seconds: u64)
    ensures
        seconds == backoff_seconds(retry_count as nat),
        seconds <= LONGEST_WAIT,
{
    if retry_count >= 8 {
        assert(retry_count * retry_count >= 60) by (nonlinear_arith)
            requires
                retry_count >= 8,
        ;
        LONGEST_WAIT
    } else {
        assert(retry_count * retry_count <= 49) by (nonlinear_arith)
            requires
                retry_count < 8,
        ;
        retry_count * retry_count
    }
}

/// Whose events a session emits.
#[derive(Debug)]
pub enum Scope {
    /// The account on this server.
    Account { server_id: i64 },
    /// This timeline, of this name, on this server.
    Timeline { server_id: i64, timeline_id: i64, name: String },
}

impl Clone for Scope {
    fn clone(&self) -> (copy: Scope)
        ensures
            copy == *self,
    {
        match self {
            Scope::Account { server_id } => Scope::Account { server_id: *server_id },
            Scope::Timeline { server_id, timeline_id, name } => Scope::Timeline {
                server_id: *server_id,
                timeline_id: *timeline_id,
                name: name.clone(),
            },
        }
    }
}

/// What is handed to the server's client when a session connects.
#[derive(Debug)]
pub struct ConnectPlan {
    /// The address of the server.
    pub url: String,
    /// The token of the account; none for a stream that anyone may read.
    pub access_token: Option<String>,
    /// The name under which the client introduces itself.
    pub user_agent: String,
    pub request: StreamRequest,
}

/// One supervised connection for one account or one timeline.
#[derive(Debug)]
pub struct Session {
    pub scope: Scope,
    /// The address of the server.
    pub url: String,
    /// The token of the account; none for a stream that anyone may read.
    pub access_token: Option<String>,
    pub request: StreamRequest,
    /// The name of the session in the log.
    pub label: String,
    pub progress: Progress,
}

impl Clone for Session {
    fn clone(&self) -> (copy: Session)
        ensures
            copy == *self,
    {
        Session {
            scope: self.scope.clone(),
            url: self.url.clone(),
            access_token: clone_opt(&self.access_token),
            request: self.request.clone(),
            label: self.label.clone(),
            progress: self.progress,
        }
    }
}

/// The address of the server of this domain.
pub open spec fn server_url(domain: Seq<char>) -> Seq<char> {
    "https://"@ + domain
}

/// The name of a session in the log: what it streams, whose account it
/// uses, if any, and the server's domain.
pub open spec fn session_label(what: Seq<char>, username: Option<Seq<char>>, domain: Seq<char>) -> Seq<
    char,
> {
    match username {
        Some(user) => what + " streaming of "@ + user + "@"@ + domain,
        None => what + " streaming of @"@ + domain,
    }
}

/// The stream that a timeline's session opens: the public, the local and
/// the direct stream for timelines of those kinds, the stream of its list
/// for a list timeline, that of the tag of its name for a tag timeline. A
/// list timeline without a list is refused, and so is every other kind.
pub open spec fn timeline_request(timeline: Timeline) -> Result<StreamRequest, SessionError> {
    match timeline.kind {
        Kind::Public => Ok(StreamRequest::Public),
        Kind::Local => Ok(StreamRequest::Local),
        Kind::Direct => Ok(StreamRequest::Direct),
        Kind::List => match timeline.list_id {
            Some(list_id) => Ok(StreamRequest::List { list_id }),
            None => Err(
                SessionError::Config(ConfigError::MissingListId { name: timeline.name }),
            ),
        },
        Kind::Tag => Ok(StreamRequest::Tag { tag: timeline.name }),
        _ => Err(SessionError::Config(ConfigError::NotStreamed { name: timeline.name })),
    }
}

/// The event that a session emits for a message: none unless it listens.
pub open spec fn emitted<S, N, C>(session: Session, message: Message<S, N, C>) -> Option<
    Event<S, N, C>,
> {
    if session.progress.phase == Phase::Listening {
        match session.scope {
            Scope::Account { server_id } => account_event(server_id, message),
            Scope::Timeline { server_id, timeline_id, name } => timeline_event(
                server_id,
                timeline_id,
                name,
                message,
            ),
        }
    } else {
        None
    }
}

/// The stream that a timeline's session opens.
pub fn request_for(timeline: &Timeline) -> (request: Result<StreamRequest, SessionError>)
    ensures
        request == timeline_request(*timeline),
{
    match timeline.kind {
        Kind::Public => Ok(StreamRequest::Public),
        Kind::Local => Ok(StreamRequest::Local),
        Kind::Direct => Ok(StreamRequest::Direct),
        Kind::List => match &timeline.list_id {
            Some(list_id) => Ok(StreamRequest::List { list_id: list_id.clone() }),
            None => Err(
                SessionError::Config(ConfigError::MissingListId { name: timeline.name.clone() }),
            ),
        },
        Kind::Tag => Ok(StreamRequest::Tag { tag: timeline.name.clone() }),
        _ => Err(SessionError::Config(ConfigError::NotStreamed { name: timeline.name.clone() })),
    }
}

/// The name of a session in the log.
pub fn label_for(what: &str, username: Option<&String>, domain: &String) -> (label: String)
    ensures
        label@ == session_label(
            what@,
            match username {
                Some(user) => Some(user@),
                None => None,
            },
            domain@,
        ),
{
    match username {
        Some(user) => what.to_owned().concat(" streaming of ").concat(user.as_str()).concat(
            "@",
        ).concat(domain.as_str()),
        None => what.to_owned().concat(" streaming of @").concat(domain.as_str()),
    }
}

impl Session {
    /// What is handed to the server's client each time this session connects.
    pub fn connect_plan(&self) -> (plan: ConnectPlan)
        ensures
            plan.url == self.url,
            plan.access_token == self.access_token,
            plan.user_agent@ == "fedistar"@,
            plan.request == self.request,
    {
        ConnectPlan {
            url: self.url.clone(),
            access_token: clone_opt(&self.access_token),
            user_agent: "fedistar".to_owned(),
            request: self.request.clone(),
        }
    }

    /// Takes in what happened to the connection and says what is to be done
    /// next. A stream that the server does not support ends the session for
    /// good. A failure before the stream was ever open ends it with the
    /// error. Any later failure, and the end of an open stream, sends it
    /// back to connecting after a wait that grows with the square of the
    /// number of retries, up to a minute. A session that is called off ends
    /// for good, wherever it stands.
    pub fn step(&mut self, outcome: Outcome) -> (action: Action)
        ensures
            final(self).progress == progress_after(old(self).progress, outcome),
            action == action_after(old(self).progress, outcome),
            final(self).scope == old(self).scope,
            final(self).url == old(self).url,
            final(self).access_token == old(self).access_token,
            final(self).request == old(self).request,
            final(self).label == old(self).label,
    {
        let progress = self.progress;
        match progress.phase {
            Phase::Stopped => Action::Finish,
            Phase::Connecting => match outcome {
                Outcome::Opened { supported } => {
                    if supported {
                        self.progress = Progress {
                            phase: Phase::Listening,
                            retry_count: progress.retry_count,
                            connected: true,
                        };
                        Action::Listen
                    } else {
                        self.stop()
                    }
                },
                Outcome::Disconnected => Action::Connect,
                Outcome::Cancelled => self.stop(),
                Outcome::DetectionFailed { reason } => {
                    if progress.connected {
                        self.retry()
                    } else {
                        self.progress = Progress {
                            phase: Phase::Stopped,
                            retry_count: progress.retry_count,
                            connected: progress.connected,
                        };
                        Action::Fail(SessionError::Detection { reason })
                    }
                },
                Outcome::ClientFailed { reason } => {
                    if progress.connected {
                        self.retry()
                    } else {
                        self.progress = Progress {
                            phase: Phase::Stopped,
                            retry_count: progress.retry_count,
                            connected: progress.connected,
                        };
                        Action::Fail(SessionError::Config(ConfigError::Client { reason }))
                    }
                },
            },
            Phase::Listening => match outcome {
                Outcome::Disconnected => self.retry(),
                Outcome::Cancelled => self.stop(),
                _ => Action::Listen,
            },
        }
    }

    /// Ends the session for good.
    fn stop(&mut self) -> (action: Action)
        ensures
            final(self).progress == (Progress { phase: Phase::Stopped, ..old(self).progress }),
            action == Action::Finish,
            final(self).scope == old(self).scope,
            final(self).url == old(self).url,
            final(self).access_token == old(self).access_token,
            final(self).request == old(self).request,
            final(self).label == old(self).label,
    {
        self.progress = Progress {
            phase: Phase::Stopped,
            retry_count: self.progress.retry_count,
            connected: self.progress.connected,
        };
        Action::Finish
    }

    /// Sends the session back to connecting and says how long to wait first.
    fn retry(&mut self) -> (action: Action)
        ensures
            final(self).progress == retrying(old(self).progress),
            action == (Action::RetryAfter {
                seconds: backoff_seconds(one_more(old(self).progress.retry_count) as nat) as u64,
            }),
            final(self).scope == old(self).scope,
            final(self).url == old(self).url,
            final(self).access_token == old(self).access_token,
            final(self).request == old(self).request,
            final(self).label == old(self).label,
    {
        let retry_count = if self.progress.retry_count < u64::MAX {
            self.progress.retry_count + 1
        } else {
            self.progress.retry_count
        };
        self.progress = Progress {
            phase: Phase::Connecting,
            retry_count,
            connected: self.progress.connected,
        };
        Action::RetryAfter { seconds: backoff(retry_count) }
    }

    /// The event to emit for a message that came in: none unless the session
    /// listens, and none for a message that stands for no event.
    pub fn receive<S, N, C>(&self, message: Message<S, N, C>) -> (event: Option<Event<S, N, C>>)
        ensures
            event == emitted(*self, message),
    {
        match self.progress.phase {
            Phase::Listening => match &self.scope {
                Scope::Account { server_id } => translate_account_message(*server_id, message),
                Scope::Timeline { server_id, timeline_id, name } => translate_timeline_message(
                    *server_id,
                    *timeline_id,
                    name,
                    message,
                ),
            },
            _ => None,
        }
    }
}

/// Where a session stands after it has been connected and cut off this
/// many times in a row.
pub open spec fn after_rounds(progress: Progress, rounds: nat) -> Progress
    decreases rounds,
{
    if rounds == 0 {
        progress
    } else {
        progress_after(
            progress_after(
                after_rounds(progress, (rounds - 1) as nat),
                Outcome::Opened { supported: true },
            ),
            Outcome::Disconnected,
        )
    }
}

/// A session that was connected and cut off `rounds` times is connecting
/// again and has counted `rounds` retries.
pub proof fn lemma_rounds_count(rounds: nat)
    requires
        1 <= rounds <= u64::MAX,
    ensures
        after_rounds(initial_progress(), rounds) == (Progress {
            phase: Phase::Connecting,
            retry_count: rounds as u64,
            connected: true,
        }),
    decreases rounds,
{
    let before = after_rounds(initial_progress(), (rounds - 1) as nat);
    if rounds > 1 {
        lemma_rounds_count((rounds - 1) as nat);
    } else {
        assert(before == initial_progress());
    }
    let listening = progress_after(before, Outcome::Opened { supported: true });
    assert(listening == (Progress {
        phase: Phase::Listening,
        retry_count: before.retry_count,
        connected: true,
    }));
    assert(after_rounds(initial_progress(), rounds) == progress_after(
        listening,
        Outcome::Disconnected,
    ));
}

/// When the stream of a session ends for the `n`-th time, the session goes
/// back to connecting and waits the lesser of `n` squared and 60 seconds.
pub proof fn lemma_nth_retry(n: nat)
    requires
        1 <= n <= u64::MAX,
    ensures
        ({
            let listening = progress_after(
                after_rounds(initial_progress(), (n - 1) as nat),
                Outcome::Opened { supported: true },
            );
            &&& listening.phase == Phase::Listening
            &&& progress_after(listening, Outcome::Disconnected).phase == Phase::Connecting
            &&& progress_after(listening, Outcome::Disconnected).retry_count == n
            &&& action_after(listening, Outcome::Disconnected) == (Action::RetryAfter {
                seconds: backoff_seconds(n) as u64,
            })
        }),
        backoff_seconds(n) == if n * n < 60 {
            n * n
        } else {
            60
        },
        backoff_seconds(n) <= 60,
{
    let before = after_rounds(initial_progress(), (n - 1) as nat);
    if n > 1 {
        lemma_rounds_count((n - 1) as nat);
    } else {
        assert(before == initial_progress());
    }
}

/// The waits never shrink from one retry to the next, and the count of
/// retries never falls.
pub proof fn lemma_waits_grow(earlier: nat, later: nat)
    requires
        earlier <= later,
    ensures
        backoff_seconds(earlier) <= backoff_seconds(later),
{
    assert(earlier * earlier <= later * later) by (nonlinear_arith)
        requires
            earlier <= later,
    ;
}

/// No outcome makes the count of retries fall.
pub proof fn lemma_retry_count_never_falls(progress: Progress, outcome: Outcome)
    ensures
        progress_after(progress, outcome).retry_count >= progress.retry_count,
{
}

/// A session whose server does not support the stream ends for good: it
/// does not retry, whatever happens later, and it emits nothing.
pub proof fn lemma_unsupported_stops<S, N, C>(
    session: Session,
    later: Outcome,
    message: Message<S, N, C>,
)
    requires
        session.progress.phase == Phase::Connecting,
    ensures
        ({
            let stopped = progress_after(session.progress, Outcome::Opened { supported: false });
            &&& stopped.phase == Phase::Stopped
            &&& stopped.retry_count == session.progress.retry_count
            &&& action_after(session.progress, Outcome::Opened { supported: false })
                == Action::Finish
            &&& progress_after(stopped, later) == stopped
            &&& action_after(stopped, later) == Action::Finish
            &&& emitted(Session { progress: stopped, ..session }, message) is None
        }),
        emitted(session, message) is None,
{
}

/// A timeline that follows a list but names none gets no session: it is
/// refused as wrongly set up before anything is opened.
pub proof fn lemma_list_needs_list_id(timeline: Timeline)
    requires
        timeline.kind == Kind::List,
        timeline.list_id is None,
    ensures
        timeline_request(timeline) == Err::<StreamRequest, SessionError>(
            SessionError::Config(ConfigError::MissingListId { name: timeline.name }),
        ),
{
}

/// A session that is called off ends for good, wherever it stands: it
/// keeps its count of retries, does not retry, and emits nothing afterwards.
pub proof fn lemma_cancel_stops<S, N, C>(session: Session, later: Outcome, message: Message<S, N, C>)
    ensures
        ({
            let stopped = progress_after(session.progress, Outcome::Cancelled);
            &&& stopped.phase == Phase::Stopped
            &&& stopped.retry_count == session.progress.retry_count
            &&& action_after(session.progress, Outcome::Cancelled) == Action::Finish
            &&& progress_after(stopped, later) == stopped
            &&& action_after(stopped, later) == Action::Finish
            &&& emitted(Session { progress: stopped, ..session }, message) is None
        }),
{
}

} // verus!
