//! The gateway: the persistent connection over which events arrive.
//!
//! The connection itself lives outside this module. What stands here is every
//! decision of the client: what a received frame changes, what is to be sent in
//! answer, when a lost connection is resumed and when the session is over. Each
//! operation takes what has happened and returns the actions to perform, in order.

pub mod data;
pub mod heartbeat;
pub mod laws;
pub mod payloads;

use crate::api::gateway::data::{
    frame_of, message_of, ready_of, ready_state, DispatchMessage, DispatchMessageView,
    DispatchReady, GatewayMessage,
};
use crate::api::gateway::payloads::{
    heartbeat_document, heartbeat_payload, identify_document, identify_payload, resume_document,
    resume_payload,
};
use crate::data::state::{State, StateView};
use crate::json::{parse, parsed, rendered, text_eq, text_opt, Json, JsonValue};
use vstd::prelude::*;
use vstd::string::StringExecFns;

verus! {

/// Where a connection stands in its life.
#[derive(Debug, Clone, Copy, PartialEq, Eq, Structural)]
pub enum GatewayState {
    Connecting,
    Open,
    Resuming,
    Closed,
}

/// What the consumer is told.
#[derive(Debug, Clone)]
pub enum GatewayEvent {
    /// The session is over and cannot be resumed: connect again with a fresh
    /// credential.
    ReconnectNeeded,
    /// A message was created or updated.
    Message(DispatchMessage),
}

/// Mathematical value of a [`GatewayEvent`].
pub ghost enum GatewayEventView {
    ReconnectNeeded,
    Message(DispatchMessageView),
}

impl View for GatewayEvent {
    type V = GatewayEventView;

    open spec fn view(&self) -> GatewayEventView {
        match self {
            GatewayEvent::ReconnectNeeded => GatewayEventView::ReconnectNeeded,
            GatewayEvent::Message(m) => GatewayEventView::Message(m@),
        }
    }
}

/// Why a connect did not end in a ready session.
#[derive(Debug, Clone, Copy, PartialEq, Eq, Structural)]
pub enum ConnectError {
    /// The socket failed before the session was ready.
    Network,
    /// The service closed the connection before the session was ready.
    ProtocolViolation,
    /// The client closed the gateway before the session was ready.
    SessionClosed,
}

/// Why a resume did not take place.
#[derive(Debug, Clone, Copy, PartialEq, Eq, Structural)]
pub enum ResumeError {
    /// The gateway was not in the state that the step needs.
    NotOpen,
    /// No session id or no resume address is known.
    MissingSession,
    /// The new socket could not be opened.
    Network,
}

/// Why a frame was skipped.
#[derive(Debug, Clone, Copy, PartialEq, Eq, Structural)]
pub enum ProtocolError {
    /// The text is not JSON, or not a frame.
    MalformedFrame,
    /// A dispatch came without the name of its event.
    MissingEventName,
    /// The payload of the frame lacks something that its kind requires.
    MalformedPayload,
    /// The event cannot occur in the state that the connection is in.
    UnexpectedEvent,
}

/// One thing to do on behalf of the gateway.
#[derive(Debug, Clone)]
pub enum GatewayAction {
    /// Write this text frame to the socket.
    Send(String),
    /// Write a close frame with the code for a normal closure and give up the write
    /// half; a failure to write is of no consequence.
    SendClose,
    /// Close the write half of the socket.
    CloseWriter,
    /// Open a new socket to this address and report how that went.
    Connect(String),
    /// Start a heartbeat task with this interval in milliseconds, for this
    /// connection number.
    StartHeartbeat(u64, u32),
    /// Answer the pending connect with the session's first state.
    Ready(State),
    /// Answer the pending connect with an error.
    Fail(ConnectError),
    /// Hand this event to the consumer.
    Emit(GatewayEvent),
    /// Take no more events; what is queued can still be read.
    CloseEvents,
}

/// Mathematical value of a [`GatewayAction`].
pub ghost enum ActionView {
    Send(Seq<char>),
    SendClose,
    CloseWriter,
    Connect(Seq<char>),
    StartHeartbeat(u64, u32),
    Ready(StateView),
    Fail(ConnectError),
    Emit(GatewayEventView),
    CloseEvents,
}

impl View for GatewayAction {
    type V = ActionView;

    open spec fn view(&self) -> ActionView {
        match self {
            GatewayAction::Send(text) => ActionView::Send(text@),
            GatewayAction::SendClose => ActionView::SendClose,
            GatewayAction::CloseWriter => ActionView::CloseWriter,
            GatewayAction::Connect(address) => ActionView::Connect(address@),
            GatewayAction::StartHeartbeat(interval, number) => ActionView::StartHeartbeat(
                *interval,
                *number,
            ),
            GatewayAction::Ready(state) => ActionView::Ready(state@),
            GatewayAction::Fail(error) => ActionView::Fail(*error),
            GatewayAction::Emit(event) => ActionView::Emit(event@),
            GatewayAction::CloseEvents => ActionView::CloseEvents,
        }
    }
}

/// The views of a list of actions.
pub open spec fn actions_view(actions: Seq<GatewayAction>) -> Seq<ActionView> {
    actions.map_values(|a: GatewayAction| a@)
}

/// What a gateway remembers of its session.
#[derive(Debug, Clone)]
pub struct GatewayInner {
    pub state: GatewayState,
    /// Counts the sockets of the session: one more with every resume.
    pub connection_number: u32,
    /// The highest sequence number seen; 0 while none was seen.
    pub sequence: u32,
    pub token: String,
    pub resume_url: Option<String>,
    pub session_id: Option<String>,
    /// Whether the connect that made this gateway still waits for its answer.
    pub ready_pending: bool,
    /// Whether a heartbeat task was started for the current connection number.
    pub heartbeat_started: bool,
}

/// Mathematical value of a [`GatewayInner`].
pub ghost struct GatewayView {
    pub state: GatewayState,
    pub connection_number: u32,
    pub sequence: u32,
    pub token: Seq<char>,
    pub resume_url: Option<Seq<char>>,
    pub session_id: Option<Seq<char>>,
    pub ready_pending: bool,
    pub heartbeat_started: bool,
}

impl View for GatewayInner {
    type V = GatewayView;

    open spec fn view(&self) -> GatewayView {
        GatewayView {
            state: self.state,
            connection_number: self.connection_number,
            sequence: self.sequence,
            token: self.token@,
            resume_url: text_opt(self.resume_url),
            session_id: text_opt(self.session_id),
            ready_pending: self.ready_pending,
            heartbeat_started: self.heartbeat_started,
        }
    }
}

/// The client's end of one session.
#[derive(Debug, Clone)]
pub struct Gateway {
    pub inner: GatewayInner,
}

impl View for Gateway {
    type V = GatewayView;

    open spec fn view(&self) -> GatewayView {
        self.inner@
    }
}

/// The query that selects the protocol's version and encoding.
pub open spec fn address_query() -> Seq<char> {
    "/?v=10&encoding=json"@
}

/// The address at which every session starts.
pub open spec fn gateway_address() -> Seq<char> {
    "wss://gateway.discord.gg"@ + address_query()
}

/// A gateway as a connect leaves it: connecting, nothing seen, the answer pending.
pub open spec fn fresh(token: Seq<char>) -> GatewayView {
    GatewayView {
        state: GatewayState::Connecting,
        connection_number: 0,
        sequence: 0,
        token,
        resume_url: None,
        session_id: None,
        ready_pending: true,
        heartbeat_started: false,
    }
}

/// The sequence number that a heartbeat carries: the highest seen, if any was.
pub open spec fn heartbeat_sequence(sequence: u32) -> Option<u32> {
    if sequence > 0 {
        Some(sequence)
    } else {
        None
    }
}

/// The gateway and the actions after it was shut down for good. A gateway that is
/// closed already sends no second close frame. `notify` says whether the consumer
/// is to hear that a reconnect is needed; a pending connect is answered with
/// `SessionClosed` in either case.
pub open spec fn shut_down(pre: GatewayView, notify: bool) -> (GatewayView, Seq<ActionView>) {
    let closing = if pre.state == GatewayState::Closed {
        Seq::<ActionView>::empty()
    } else {
        seq![ActionView::SendClose]
    };
    let notifying = if notify {
        closing.push(ActionView::Emit(GatewayEventView::ReconnectNeeded))
    } else {
        closing
    };
    let released = if pre.state == GatewayState::Closed {
        notifying
    } else {
        notifying.push(ActionView::CloseEvents)
    };
    let answered = if pre.ready_pending {
        released.push(ActionView::Fail(ConnectError::SessionClosed))
    } else {
        released
    };
    (GatewayView { state: GatewayState::Closed, ready_pending: false, ..pre }, answered)
}

/// The view of what an operation on a frame returns.
pub open spec fn outcome_view(outcome: Result<Vec<GatewayAction>, ProtocolError>) -> Result<
    Seq<ActionView>,
    ProtocolError,
> {
    match outcome {
        Ok(actions) => Ok(actions_view(actions@)),
        Err(e) => Err(e),
    }
}

/// The gateway and the actions after a dispatch of the event `kind` with the
/// payload `data`.
///
/// A closed gateway ignores every event. `READY` is read as the session's first
/// description. Where a session id or a resume address is stored already it is
/// refused, so that neither is ever replaced. Otherwise it opens the gateway, stores
/// how to resume, and leaves no connect waiting: a pending connect is answered with
/// the session's first state, and where none is pending nothing is delivered, which
/// is no error. `RESUMED` opens a resuming gateway and is nothing new to an open
/// one. A created or updated message is handed to the consumer. Any other event is
/// ignored.
pub open spec fn dispatched(pre: GatewayView, kind: Seq<char>, data: JsonValue) -> (
    GatewayView,
    Result<Seq<ActionView>, ProtocolError>,
) {
    if pre.state == GatewayState::Closed {
        (pre, Ok(Seq::empty()))
    } else if kind == "READY"@ {
        match ready_of(data) {
            None => (pre, Err(ProtocolError::MalformedPayload)),
            Some(ready) => if pre.resume_url is Some || pre.session_id is Some {
                (pre, Err(ProtocolError::UnexpectedEvent))
            } else {
                (
                    GatewayView {
                        state: GatewayState::Open,
                        resume_url: Some(ready.resume_gateway_url),
                        session_id: Some(ready.session_id),
                        ready_pending: false,
                        ..pre
                    },
                    Ok(
                        if pre.ready_pending {
                            seq![ActionView::Ready(ready_state(ready))]
                        } else {
                            Seq::empty()
                        },
                    ),
                )
            },
        }
    } else if kind == "RESUMED"@ {
        if pre.state == GatewayState::Resuming {
            (GatewayView { state: GatewayState::Open, ..pre }, Ok(Seq::empty()))
        } else if pre.state == GatewayState::Open {
            (pre, Ok(Seq::empty()))
        } else {
            (pre, Err(ProtocolError::UnexpectedEvent))
        }
    } else if kind == "MESSAGE_CREATE"@ || kind == "MESSAGE_UPDATE"@ {
        match message_of(data) {
            Some(message) => (
                pre,
                Ok(seq![ActionView::Emit(GatewayEventView::Message(message))]),
            ),
            None => (pre, Err(ProtocolError::MalformedPayload)),
        }
    } else {
        (pre, Ok(Seq::empty()))
    }
}

/// The larger of two sequence numbers.
pub open spec fn later(a: u32, b: u32) -> u32 {
    if a >= b {
        a
    } else {
        b
    }
}

/// The gateway and the actions after a frame.
///
/// A closed gateway ignores every frame. A dispatch (0) first raises the sequence
/// number to the frame's, if that is higher, and then goes by the event's name. A
/// heartbeat request (1) is answered with a heartbeat at once. A reconnect request
/// (7) closes the write half, so that the closure is seen where frames are read.
/// An invalid session (9) shuts the gateway down and tells the consumer. A hello
/// (10) starts the heartbeat task of the current connection, once, with the
/// interval it names, which must be a positive number. All else is ignored.
pub open spec fn frame_processed(pre: GatewayView, frame: data::GatewayMessageView) -> (
    GatewayView,
    Result<Seq<ActionView>, ProtocolError>,
) {
    if pre.state == GatewayState::Closed {
        (pre, Ok(Seq::empty()))
    } else if frame.op == 0 {
        let seen = GatewayView {
            sequence: match frame.sequence {
                Some(s) => later(pre.sequence, s),
                None => pre.sequence,
            },
            ..pre
        };
        match frame.kind {
            Some(kind) => dispatched(seen, kind, frame.data),
            None => (seen, Err(ProtocolError::MissingEventName)),
        }
    } else if frame.op == 1 {
        (
            pre,
            Ok(
                seq![
                    ActionView::Send(
                        rendered(heartbeat_document(heartbeat_sequence(pre.sequence))),
                    ),
                ],
            ),
        )
    } else if frame.op == 7 {
        (pre, Ok(seq![ActionView::CloseWriter]))
    } else if frame.op == 9 {
        (shut_down(pre, true).0, Ok(shut_down(pre, true).1))
    } else if frame.op == 10 {
        match frame.data.uint_at("heartbeat_interval"@, u64::MAX) {
            Some(interval) if interval > 0 => if pre.heartbeat_started {
                (pre, Ok(Seq::empty()))
            } else {
                (
                    GatewayView { heartbeat_started: true, ..pre },
                    Ok(seq![ActionView::StartHeartbeat(interval, pre.connection_number)]),
                )
            },
            _ => (pre, Err(ProtocolError::MalformedPayload)),
        }
    } else {
        (pre, Ok(Seq::empty()))
    }
}

/// The gateway and the actions after a text frame whose text denotes `document`.
/// Text that is no JSON, or no frame, is skipped and changes nothing.
pub open spec fn processed(pre: GatewayView, document: Option<JsonValue>) -> (
    GatewayView,
    Result<Seq<ActionView>, ProtocolError>,
) {
    if pre.state == GatewayState::Closed {
        (pre, Ok(Seq::empty()))
    } else {
        match document {
            Some(j) => match frame_of(j) {
                Some(frame) => frame_processed(pre, frame),
                None => (pre, Err(ProtocolError::MalformedFrame)),
            },
            None => (pre, Err(ProtocolError::MalformedFrame)),
        }
    }
}

/// What arrives where frames are read.
#[derive(Debug, Clone)]
pub enum Incoming {
    /// A text frame.
    Text(String),
    /// A close frame, with its code where it has one.
    Close(Option<u16>),
    /// A frame of a kind that the protocol does not use.
    Other,
    /// The socket failed, or ended without a close frame.
    Failed,
}

/// How a connection ended: with a close frame, which may carry a code, or by a
/// failure of the socket.
#[derive(Debug, Clone, Copy, PartialEq, Eq, Structural)]
pub enum Closure {
    Frame(Option<u16>),
    Failed,
}

/// Whether a close code says that the session is beyond resuming: 4004 and 4010 to
/// 4014.
pub open spec fn unrecoverable(code: Option<u16>) -> bool {
    match code {
        Some(c) => c == 4004 || (4010 <= c <= 4014),
        None => false,
    }
}

/// Whether a closure leaves the session resumable: every failure of the socket and
/// every close frame but those with an unrecoverable code.
pub open spec fn resumable(closure: Closure) -> bool {
    match closure {
        Closure::Frame(code) => !unrecoverable(code),
        Closure::Failed => true,
    }
}

/// The address at which a session with the resume address `url` is resumed.
pub open spec fn resume_address(url: Seq<char>) -> Seq<char> {
    url + address_query()
}

/// The gateway after the first step of a resume, and the socket to open.
///
/// Only an open gateway resumes. Without a stored session id and resume address
/// there is nothing to resume, and the gateway is closed.
pub open spec fn resume_begun(pre: GatewayView) -> (
    GatewayView,
    Result<Seq<ActionView>, ResumeError>,
) {
    if pre.state != GatewayState::Open {
        (pre, Err(ResumeError::NotOpen))
    } else {
        match (pre.resume_url, pre.session_id) {
            (Some(url), Some(_)) => (
                GatewayView { state: GatewayState::Resuming, ..pre },
                Ok(seq![ActionView::Connect(resume_address(url))]),
            ),
            _ => (GatewayView { state: GatewayState::Closed, ..pre }, Err(ResumeError::MissingSession)),
        }
    }
}

/// The connection number after one more socket; it starts over after the highest.
pub open spec fn next_connection(number: u32) -> u32 {
    if number == u32::MAX {
        0
    } else {
        (number + 1) as u32
    }
}

/// The gateway after the socket of a resume was opened, and the resume frame to
/// send over it. The new socket counts as a new connection, whose heartbeat task is
/// yet to be started. The gateway stays resuming until the service confirms.
pub open spec fn resume_connected(pre: GatewayView) -> (
    GatewayView,
    Result<Seq<ActionView>, ResumeError>,
) {
    if pre.state != GatewayState::Resuming {
        (pre, Err(ResumeError::NotOpen))
    } else {
        match pre.session_id {
            Some(id) => (
                GatewayView {
                    connection_number: next_connection(pre.connection_number),
                    heartbeat_started: false,
                    ..pre
                },
                Ok(
                    seq![
                        ActionView::Send(rendered(resume_document(pre.token, id, pre.sequence))),
                    ],
                ),
            ),
            None => (
                GatewayView { state: GatewayState::Closed, ..pre },
                Err(ResumeError::MissingSession),
            ),
        }
    }
}

/// The gateway after the socket of a resume could not be opened: closed, with no
/// further attempt.
pub open spec fn resume_failed(pre: GatewayView) -> GatewayView {
    if pre.state == GatewayState::Resuming {
        GatewayView { state: GatewayState::Closed, ..pre }
    } else {
        pre
    }
}

/// The gateway and the actions after its connection was lost.
///
/// An open gateway resumes where the closure allows it, and is otherwise shut down
/// with word to the consumer that a reconnect is needed. A resuming gateway has lost
/// the socket of its resume, whatever the closure: the session is over, and it is
/// shut down with the same word to the consumer. A gateway that was still
/// connecting is closed and answers its connect with an error: `Network` where the
/// socket failed, `ProtocolViolation` where the service closed it. A closed gateway
/// stays as it is.
///
/// The loss of a socket is to be reported once, and not after another socket has
/// taken its place.
pub open spec fn connection_lost(pre: GatewayView, closure: Closure) -> (
    GatewayView,
    Seq<ActionView>,
) {
    if pre.state == GatewayState::Open {
        if resumable(closure) {
            (
                resume_begun(pre).0,
                match resume_begun(pre).1 {
                    Ok(actions) => actions,
                    Err(_) => Seq::empty(),
                },
            )
        } else {
            shut_down(pre, true)
        }
    } else if pre.state == GatewayState::Connecting {
        (
            GatewayView { state: GatewayState::Closed, ready_pending: false, ..pre },
            if pre.ready_pending {
                seq![
                    ActionView::Fail(
                        if closure == Closure::Failed {
                            ConnectError::Network
                        } else {
                            ConnectError::ProtocolViolation
                        },
                    ),
                ]
            } else {
                Seq::empty()
            },
        )
    } else if pre.state == GatewayState::Resuming {
        shut_down(pre, true)
    } else {
        (pre, Seq::empty())
    }
}

/// The view of what arrived.
pub ghost enum IncomingView {
    Text(Seq<char>),
    Close(Option<u16>),
    Other,
    Failed,
}

impl View for Incoming {
    type V = IncomingView;

    open spec fn view(&self) -> IncomingView {
        match self {
            Incoming::Text(t) => IncomingView::Text(t@),
            Incoming::Close(code) => IncomingView::Close(*code),
            Incoming::Other => IncomingView::Other,
            Incoming::Failed => IncomingView::Failed,
        }
    }
}

/// The gateway and the actions after one arrival where frames are read. A text
/// frame is processed, and one that has to be skipped changes what `processed` says
/// and causes nothing; a close frame and a failure end the connection; anything
/// else is ignored.
pub open spec fn received(pre: GatewayView, incoming: IncomingView) -> (GatewayView, Seq<ActionView>) {
    match incoming {
        IncomingView::Text(text) => (
            processed(pre, parsed(text)).0,
            match processed(pre, parsed(text)).1 {
                Ok(actions) => actions,
                Err(_) => Seq::empty(),
            },
        ),
        IncomingView::Close(code) => connection_lost(pre, Closure::Frame(code)),
        IncomingView::Other => (pre, Seq::empty()),
        IncomingView::Failed => connection_lost(pre, Closure::Failed),
    }
}

impl Gateway {
    /// The address at which every session starts.
    pub fn address() -> (address: String)
        ensures
            address@ == gateway_address(),
    {
        String::from_str("wss://gateway.discord.gg").concat("/?v=10&encoding=json")
    }

    /// A gateway for a socket that was just opened, and the identify frame to send
    /// over it.
    pub fn new(token: String) -> (started: (Gateway, Vec<GatewayAction>))
        ensures
            started.0@ == fresh(token@),
            actions_view(started.1@) == seq![
                ActionView::Send(rendered(identify_document(token@))),
            ],
    {
        let identify = identify_payload(token.as_str());
        let gateway = Gateway {
            inner: GatewayInner {
                state: GatewayState::Connecting,
                connection_number: 0,
                sequence: 0,
                token,
                resume_url: None,
                session_id: None,
                ready_pending: true,
                heartbeat_started: false,
            },
        };
        let mut actions: Vec<GatewayAction> = Vec::new();
        actions.push(GatewayAction::Send(identify));
        assert(actions_view(actions@) =~= seq![
            ActionView::Send(rendered(identify_document(token@))),
        ]);
        (gateway, actions)
    }

    /// The state of the connection.
    pub fn get_state(&self) -> (state: GatewayState)
        ensures
            state == self@.state,
    {
        self.inner.state
    }

    fn shut_down(&mut self, notify: bool) -> (actions: Vec<GatewayAction>)
        ensures
            (final(self)@, actions_view(actions@)) == shut_down(old(self)@, notify),
    {
        let mut actions: Vec<GatewayAction> = Vec::new();
        let was_closed = self.inner.state == GatewayState::Closed;
        if !was_closed {
            actions.push(GatewayAction::SendClose);
        }
        if notify {
            actions.push(GatewayAction::Emit(GatewayEvent::ReconnectNeeded));
        }
        if !was_closed {
            actions.push(GatewayAction::CloseEvents);
        }
        if self.inner.ready_pending {
            actions.push(GatewayAction::Fail(ConnectError::SessionClosed));
        }
        self.inner.state = GatewayState::Closed;
        self.inner.ready_pending = false;
        assert(actions_view(actions@) =~= shut_down(old(self)@, notify).1);
        actions
    }

    /// Handles a dispatch of the event `kind` with the payload `data`.
    pub fn process_dispatch(&mut self, kind: &str, data: Json) -> (outcome: Result<
        Vec<GatewayAction>,
        ProtocolError,
    >)
        ensures
            (final(self)@, outcome_view(outcome)) == dispatched(old(self)@, kind@, data@),
    {
        let mut actions: Vec<GatewayAction> = Vec::new();
        assert(actions_view(actions@) =~= Seq::empty());
        if self.inner.state == GatewayState::Closed {
            return Ok(actions);
        }
        if text_eq(kind, "READY") {
            let ready = match DispatchReady::from_json(&data) {
                Some(ready) => ready,
                None => {
                    return Err(ProtocolError::MalformedPayload);
                },
            };
            if self.inner.resume_url.is_some() || self.inner.session_id.is_some() {
                return Err(ProtocolError::UnexpectedEvent);
            }
            self.inner.resume_url = Some(ready.resume_gateway_url.clone());
            self.inner.session_id = Some(ready.session_id.clone());
            self.inner.state = GatewayState::Open;
            if self.inner.ready_pending {
                self.inner.ready_pending = false;
                let ghost first = ready_state(ready@);
                actions.push(GatewayAction::Ready(ready.into_state()));
                assert(actions_view(actions@) =~= seq![ActionView::Ready(first)]);
            }
            Ok(actions)
        } else if text_eq(kind, "RESUMED") {
            if self.inner.state == GatewayState::Resuming {
                self.inner.state = GatewayState::Open;
                Ok(actions)
            } else if self.inner.state == GatewayState::Open {
                Ok(actions)
            } else {
                Err(ProtocolError::UnexpectedEvent)
            }
        } else if text_eq(kind, "MESSAGE_CREATE") || text_eq(kind, "MESSAGE_UPDATE") {
            match DispatchMessage::from_json(&data) {
                Some(message) => {
                    let ghost m = message@;
                    actions.push(GatewayAction::Emit(GatewayEvent::Message(message)));
                    assert(actions_view(actions@) =~= seq![
                        ActionView::Emit(GatewayEventView::Message(m)),
                    ]);
                    Ok(actions)
                },
                None => Err(ProtocolError::MalformedPayload),
            }
        } else {
            Ok(actions)
        }
    }

    /// Handles a frame.
    pub fn process_frame(&mut self, frame: GatewayMessage) -> (outcome: Result<
        Vec<GatewayAction>,
        ProtocolError,
    >)
        ensures
            (final(self)@, outcome_view(outcome)) == frame_processed(old(self)@, frame@),
    {
        let mut actions: Vec<GatewayAction> = Vec::new();
        assert(actions_view(actions@) =~= Seq::empty());
        if self.inner.state == GatewayState::Closed {
            return Ok(actions);
        }
        if frame.op == 0 {
            match frame.sequence {
                Some(s) => {
                    if s > self.inner.sequence {
                        self.inner.sequence = s;
                    }
                },
                None => {},
            }
            match frame.kind {
                Some(kind) => self.process_dispatch(kind.as_str(), frame.data),
                None => Err(ProtocolError::MissingEventName),
            }
        } else if frame.op == 1 {
            let beat = self.heartbeat();
            let ghost text = beat@;
            actions.push(GatewayAction::Send(beat));
            assert(actions_view(actions@) =~= seq![ActionView::Send(text)]);
            Ok(actions)
        } else if frame.op == 7 {
            actions.push(GatewayAction::CloseWriter);
            assert(actions_view(actions@) =~= seq![ActionView::CloseWriter]);
            Ok(actions)
        } else if frame.op == 9 {
            Ok(self.shut_down(true))
        } else if frame.op == 10 {
            match frame.data.uint_at("heartbeat_interval", u64::MAX) {
                Some(interval) => {
                    if interval == 0 {
                        Err(ProtocolError::MalformedPayload)
                    } else if self.inner.heartbeat_started {
                        Ok(actions)
                    } else {
                        self.inner.heartbeat_started = true;
                        actions.push(
                            GatewayAction::StartHeartbeat(interval, self.inner.connection_number),
                        );
                        assert(actions_view(actions@) =~= seq![
                            ActionView::StartHeartbeat(interval, self.inner.connection_number),
                        ]);
                        Ok(actions)
                    }
                },
                None => Err(ProtocolError::MalformedPayload),
            }
        } else {
            Ok(actions)
        }
    }

    /// The heartbeat frame for the sequence number that the gateway has seen.
    pub fn heartbeat(&self) -> (frame: String)
        ensures
            frame@ == rendered(heartbeat_document(heartbeat_sequence(self@.sequence))),
    {
        heartbeat_payload(
            if self.inner.sequence > 0 {
                Some(self.inner.sequence)
            } else {
                None
            },
        )
    }

    /// Handles the text of a received frame. An error says why the frame was
    /// skipped; the connection goes on.
    pub fn process_message(&mut self, message: &str) -> (outcome: Result<
        Vec<GatewayAction>,
        ProtocolError,
    >)
        ensures
            (final(self)@, outcome_view(outcome)) == processed(old(self)@, parsed(message@)),
    {
        if self.inner.state == GatewayState::Closed {
            let actions: Vec<GatewayAction> = Vec::new();
            assert(actions_view(actions@) =~= Seq::empty());
            return Ok(actions);
        }
        match parse(message) {
            Some(document) => match GatewayMessage::from_json(document) {
                Some(frame) => self.process_frame(frame),
                None => Err(ProtocolError::MalformedFrame),
            },
            None => Err(ProtocolError::MalformedFrame),
        }
    }

    /// Whether a close code says that the session is beyond resuming.
    pub fn is_unrecoverable(code: Option<u16>) -> (beyond: bool)
        ensures
            beyond == unrecoverable(code),
    {
        match code {
            Some(c) => c == 4004 || (c >= 4010 && c <= 4014),
            None => false,
        }
    }

    /// Begins a resume: names the socket to open. The caller opens it and reports
    /// with `resume_connected` or `resume_failed`.
    pub fn resume(&mut self) -> (outcome: Result<Vec<GatewayAction>, ResumeError>)
        ensures
            final(self)@ == resume_begun(old(self)@).0,
            match outcome {
                Ok(actions) => resume_begun(old(self)@).1 == Ok::<Seq<ActionView>, ResumeError>(
                    actions_view(actions@),
                ),
                Err(e) => resume_begun(old(self)@).1 == Err::<Seq<ActionView>, ResumeError>(e),
            },
    {
        if self.inner.state != GatewayState::Open {
            return Err(ResumeError::NotOpen);
        }
        let address = match (&self.inner.resume_url, &self.inner.session_id) {
            (Some(url), Some(_)) => Some(url.clone().concat("/?v=10&encoding=json")),
            _ => None,
        };
        match address {
            Some(address) => {
                self.inner.state = GatewayState::Resuming;
                let ghost a = address@;
                let mut actions: Vec<GatewayAction> = Vec::new();
                actions.push(GatewayAction::Connect(address));
                assert(actions_view(actions@) =~= seq![ActionView::Connect(a)]);
                Ok(actions)
            },
            None => {
                self.inner.state = GatewayState::Closed;
                Err(ResumeError::MissingSession)
            },
        }
    }

    /// Goes on with a resume after its socket was opened: counts the new
    /// connection and names the resume frame to send over it.
    pub fn resume_connected(&mut self) -> (outcome: Result<Vec<GatewayAction>, ResumeError>)
        ensures
            final(self)@ == resume_connected(old(self)@).0,
            match outcome {
                Ok(actions) => resume_connected(old(self)@).1 == Ok::<
                    Seq<ActionView>,
                    ResumeError,
                >(actions_view(actions@)),
                Err(e) => resume_connected(old(self)@).1 == Err::<Seq<ActionView>, ResumeError>(e),
            },
    {
        if self.inner.state != GatewayState::Resuming {
            return Err(ResumeError::NotOpen);
        }
        let frame = match &self.inner.session_id {
            Some(id) => Some(
                resume_payload(self.inner.token.as_str(), id.as_str(), self.inner.sequence),
            ),
            None => None,
        };
        match frame {
            Some(frame) => {
                self.inner.connection_number = if self.inner.connection_number == u32::MAX {
                    0
                } else {
                    self.inner.connection_number + 1
                };
                self.inner.heartbeat_started = false;
                let ghost text = frame@;
                let mut actions: Vec<GatewayAction> = Vec::new();
                actions.push(GatewayAction::Send(frame));
                assert(actions_view(actions@) =~= seq![ActionView::Send(text)]);
                Ok(actions)
            },
            None => {
                self.inner.state = GatewayState::Closed;
                Err(ResumeError::MissingSession)
            },
        }
    }

    /// Ends a resume whose socket could not be opened: the gateway is closed.
    pub fn resume_failed(&mut self) -> (error: ResumeError)
        ensures
            final(self)@ == resume_failed(old(self)@),
            error == ResumeError::Network,
    {
        if self.inner.state == GatewayState::Resuming {
            self.inner.state = GatewayState::Closed;
        }
        ResumeError::Network
    }

    /// Handles the loss of the connection.
    pub fn connection_lost(&mut self, closure: Closure) -> (actions: Vec<GatewayAction>)
        ensures
            (final(self)@, actions_view(actions@)) == connection_lost(old(self)@, closure),
    {
        let resumable = match closure {
            Closure::Frame(code) => !Gateway::is_unrecoverable(code),
            Closure::Failed => true,
        };
        if self.inner.state == GatewayState::Open {
            if resumable {
                match self.resume() {
                    Ok(actions) => actions,
                    Err(_) => {
                        let actions: Vec<GatewayAction> = Vec::new();
                        assert(actions_view(actions@) =~= Seq::empty());
                        actions
                    },
                }
            } else {
                self.shut_down(true)
            }
        } else if self.inner.state == GatewayState::Connecting {
            let mut actions: Vec<GatewayAction> = Vec::new();
            assert(actions_view(actions@) =~= Seq::empty());
            if self.inner.ready_pending {
                let error = match closure {
                    Closure::Failed => ConnectError::Network,
                    Closure::Frame(_) => ConnectError::ProtocolViolation,
                };
                actions.push(GatewayAction::Fail(error));
                assert(actions_view(actions@) =~= seq![ActionView::Fail(error)]);
            }
            self.inner.state = GatewayState::Closed;
            self.inner.ready_pending = false;
            actions
        } else if self.inner.state == GatewayState::Resuming {
            self.shut_down(true)
        } else {
            let actions: Vec<GatewayAction> = Vec::new();
            assert(actions_view(actions@) =~= Seq::empty());
            actions
        }
    }

    /// Handles one arrival where frames are read, and says what to do about it.
    pub fn receive(&mut self, incoming: Incoming) -> (actions: Vec<GatewayAction>)
        ensures
            (final(self)@, actions_view(actions@)) == received(old(self)@, incoming@),
    {
        match incoming {
            Incoming::Text(text) => match self.process_message(text.as_str()) {
                Ok(actions) => actions,
                Err(_) => {
                    let actions: Vec<GatewayAction> = Vec::new();
                    assert(actions_view(actions@) =~= Seq::empty());
                    actions
                },
            },
            Incoming::Close(code) => self.connection_lost(Closure::Frame(code)),
            Incoming::Other => {
                let actions: Vec<GatewayAction> = Vec::new();
                assert(actions_view(actions@) =~= Seq::empty());
                actions
            },
            Incoming::Failed => self.connection_lost(Closure::Failed),
        }
    }

    /// Closes the gateway for good. The first call sends a close frame and stops the
    /// stream of events; a connect that still waits is answered with
    /// `SessionClosed`. A gateway that is closed already stays as it is.
    pub fn close(&mut self) -> (actions: Vec<GatewayAction>)
        ensures
            (final(self)@, actions_view(actions@)) == shut_down(old(self)@, false),
    {
        self.shut_down(false)
    }
}

} // verus!
