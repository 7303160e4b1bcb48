//! What goes into the handler of a connection and what comes out of it.
//!
//! The handler itself performs nothing. It is told what happened on the
//! connection ([`ConnectionInput`]) and answers with what is to be done next
//! ([`ConnectionAction`]); whoever owns the socket does it and reports back.

use vstd::prelude::*;
use crate::event_bus::{Event, EventView};
use crate::json::{json_model, Json};
use crate::websocket::wire::{
    WebSocketError, WebSocketErrorView, WebSocketEvent, WebSocketEventView,
};

verus! {

/// How long the handshake may take, in milliseconds.
pub const HANDSHAKE_TIMEOUT_MS: u64 = 10_000;

/// After how long without traffic a connection is closed, in milliseconds,
/// unless another window is configured.
pub const DEFAULT_IDLE_TIMEOUT_MS: u64 = 300_000;

/// How many characters of a frame that could not be read are quoted back.
pub const QUOTED_CHARS: usize = 200;

/// How the handshake ended.
#[derive(Debug, PartialEq)]
pub enum HandshakeOutcome {
    Completed,
    Failed(String),
    TimedOut,
}

pub enum HandshakeOutcomeView {
    Completed,
    Failed(Seq<char>),
    TimedOut,
}

impl View for HandshakeOutcome {
    type V = HandshakeOutcomeView;

    open spec fn view(&self) -> HandshakeOutcomeView {
        match self {
            HandshakeOutcome::Completed => HandshakeOutcomeView::Completed,
            HandshakeOutcome::Failed(e) => HandshakeOutcomeView::Failed(e@),
            HandshakeOutcome::TimedOut => HandshakeOutcomeView::TimedOut,
        }
    }
}

/// Why a frame held no message.
#[derive(Debug, PartialEq)]
pub enum FrameFault {
    /// A text frame that is no message: the start of the text, and what is wrong
    /// with it.
    Text { raw: String, problem: String },
    /// A binary frame whose text is no message: the length of the text in bytes,
    /// and what is wrong with it.
    Binary { length: u64, problem: String },
    /// A binary frame that is no UTF-8.
    Utf8 { problem: String },
}

pub enum FrameFaultView {
    Text { raw: Seq<char>, problem: Seq<char> },
    Binary { length: u64, problem: Seq<char> },
    Utf8 { problem: Seq<char> },
}

impl View for FrameFault {
    type V = FrameFaultView;

    open spec fn view(&self) -> FrameFaultView {
        match self {
            FrameFault::Text { raw, problem } => FrameFaultView::Text { raw: raw@, problem: problem@ },
            FrameFault::Binary { length, problem } => FrameFaultView::Binary {
                length: *length,
                problem: problem@,
            },
            FrameFault::Utf8 { problem } => FrameFaultView::Utf8 { problem: problem@ },
        }
    }
}

/// What the command executor answered.
#[derive(Debug, PartialEq)]
pub enum ExecutorReply {
    /// The result of a command that the executor knows.
    Replied(serde_json::Value),
    /// The executor does not know the name.
    Unrecognized,
    /// The executor could not be reached; the reason.
    Unavailable(String),
}

pub enum ExecutorReplyView {
    Replied(Json),
    Unrecognized,
    Unavailable(Seq<char>),
}

impl View for ExecutorReply {
    type V = ExecutorReplyView;

    open spec fn view(&self) -> ExecutorReplyView {
        match self {
            ExecutorReply::Replied(value) => ExecutorReplyView::Replied(json_model(*value)),
            ExecutorReply::Unrecognized => ExecutorReplyView::Unrecognized,
            ExecutorReply::Unavailable(reason) => ExecutorReplyView::Unavailable(reason@),
        }
    }
}

/// How a write ended.
#[derive(Debug, PartialEq)]
pub enum SendReport {
    /// The frame was written; its length in bytes.
    Delivered { bytes: u64 },
    /// The message could not be turned into a frame.
    EncodeFailed(String),
    /// The socket refused the frame; its length in bytes, and the failure.
    TransportFailed { bytes: u64, message: String },
}

pub enum SendReportView {
    Delivered { bytes: u64 },
    EncodeFailed(Seq<char>),
    TransportFailed { bytes: u64, message: Seq<char> },
}

impl View for SendReport {
    type V = SendReportView;

    open spec fn view(&self) -> SendReportView {
        match self {
            SendReport::Delivered { bytes } => SendReportView::Delivered { bytes: *bytes },
            SendReport::EncodeFailed(e) => SendReportView::EncodeFailed(e@),
            SendReport::TransportFailed { bytes, message } => SendReportView::TransportFailed {
                bytes: *bytes,
                message: message@,
            },
        }
    }
}

/// The outcome of setting an option on the socket.
pub open spec fn outcome_view(outcome: Result<(), String>) -> Result<(), Seq<char>> {
    match outcome {
        Ok(_) => Ok(()),
        Err(e) => Err(e@),
    }
}

/// What happened on a connection.
#[derive(Debug, PartialEq)]
pub enum ConnectionInput {
    /// The TCP connection was accepted.
    Accepted,
    /// Setting `TCP_NODELAY` ended.
    NoDelay(Result<(), String>),
    /// The handshake ended.
    Handshake(HandshakeOutcome),
    /// A text or binary frame that held a message; the length of the frame.
    Request { message: WebSocketEvent, binary: bool, size: u64 },
    /// A text or binary frame that held none; the length of the frame.
    Malformed { fault: FrameFault, size: u64 },
    /// A ping with its data.
    Ping { data: Vec<u8> },
    /// A pong; the length of the frame.
    Pong { size: u64 },
    /// A close frame.
    Close,
    /// A raw frame; its length.
    Raw { size: u64 },
    /// The transport failed while reading.
    TransportFailed(String),
    /// The peer is gone.
    StreamEnded,
    /// An event arrived on the connection's own subscription to the bus.
    Relay(Event),
    /// That subscription has ended.
    RelayClosed,
    /// The idle timer fired.
    IdleTimer,
    /// The command executor answered.
    Executed(ExecutorReply),
    /// The write that the handler asked for ended.
    Sent(SendReport),
}

pub enum ConnectionInputView {
    Accepted,
    NoDelay(Result<(), Seq<char>>),
    Handshake(HandshakeOutcomeView),
    Request { message: WebSocketEventView, binary: bool, size: u64 },
    Malformed { fault: FrameFaultView, size: u64 },
    Ping { data: Seq<u8> },
    Pong { size: u64 },
    Close,
    Raw { size: u64 },
    TransportFailed(Seq<char>),
    StreamEnded,
    Relay(EventView),
    RelayClosed,
    IdleTimer,
    Executed(ExecutorReplyView),
    Sent(SendReportView),
}

impl View for ConnectionInput {
    type V = ConnectionInputView;

    open spec fn view(&self) -> ConnectionInputView {
        match self {
            ConnectionInput::Accepted => ConnectionInputView::Accepted,
            ConnectionInput::NoDelay(outcome) => ConnectionInputView::NoDelay(outcome_view(*outcome)),
            ConnectionInput::Handshake(outcome) => ConnectionInputView::Handshake(outcome@),
            ConnectionInput::Request { message, binary, size } => ConnectionInputView::Request {
                message: message@,
                binary: *binary,
                size: *size,
            },
            ConnectionInput::Malformed { fault, size } => ConnectionInputView::Malformed {
                fault: fault@,
                size: *size,
            },
            ConnectionInput::Ping { data } => ConnectionInputView::Ping { data: data@ },
            ConnectionInput::Pong { size } => ConnectionInputView::Pong { size: *size },
            ConnectionInput::Close => ConnectionInputView::Close,
            ConnectionInput::Raw { size } => ConnectionInputView::Raw { size: *size },
            ConnectionInput::TransportFailed(e) => ConnectionInputView::TransportFailed(e@),
            ConnectionInput::StreamEnded => ConnectionInputView::StreamEnded,
            ConnectionInput::Relay(event) => ConnectionInputView::Relay(event@),
            ConnectionInput::RelayClosed => ConnectionInputView::RelayClosed,
            ConnectionInput::IdleTimer => ConnectionInputView::IdleTimer,
            ConnectionInput::Executed(reply) => ConnectionInputView::Executed(reply@),
            ConnectionInput::Sent(report) => ConnectionInputView::Sent(report@),
        }
    }
}

/// What is to be done on a connection.
#[derive(Debug, PartialEq)]
pub enum ConnectionAction {
    /// Set `TCP_NODELAY`, then report with [`ConnectionInput::NoDelay`].
    SetNoDelay,
    /// Run the handshake within the time given, then report with
    /// [`ConnectionInput::Handshake`].
    AcceptHandshake { timeout_ms: u64 },
    /// Subscribe the connection to the bus.
    OpenRelay,
    /// Call the command executor, then report with [`ConnectionInput::Executed`].
    Execute { name: String, payload: serde_json::Value },
    /// Write a message, then report with [`ConnectionInput::Sent`].
    SendMessage(WebSocketEvent),
    /// Write an error, then report with [`ConnectionInput::Sent`].
    SendError(WebSocketError),
    /// Write a pong with this data, then report with [`ConnectionInput::Sent`].
    SendPong(Vec<u8>),
    /// Publish on the bus what a frontend sent, as a new event.
    Publish { name: String, payload: serde_json::Value, source: String },
    /// Send a close frame, and do not mind whether it arrives.
    SendClose,
    /// End the connection's subscription to the bus.
    CancelRelay,
    /// Tell whoever waits for it that the connection is over.
    NotifyClosed,
}

pub enum ConnectionActionView {
    SetNoDelay,
    AcceptHandshake { timeout_ms: u64 },
    OpenRelay,
    Execute { name: Seq<char>, payload: Json },
    SendMessage(WebSocketEventView),
    SendError(WebSocketErrorView),
    SendPong(Seq<u8>),
    Publish { name: Seq<char>, payload: Json, source: Seq<char> },
    SendClose,
    CancelRelay,
    NotifyClosed,
}

impl ConnectionActionView {
    /// Whether the action writes a frame other than the close frame.
    pub open spec fn is_write(self) -> bool {
        self is SendMessage || self is SendError || self is SendPong
    }
}

impl View for ConnectionAction {
    type V = ConnectionActionView;

    open spec fn view(&self) -> ConnectionActionView {
        match self {
            ConnectionAction::SetNoDelay => ConnectionActionView::SetNoDelay,
            ConnectionAction::AcceptHandshake { timeout_ms } => ConnectionActionView::AcceptHandshake {
                timeout_ms: *timeout_ms,
            },
            ConnectionAction::OpenRelay => ConnectionActionView::OpenRelay,
            ConnectionAction::Execute { name, payload } => ConnectionActionView::Execute {
                name: name@,
                payload: json_model(*payload),
            },
            ConnectionAction::SendMessage(message) => ConnectionActionView::SendMessage(message@),
            ConnectionAction::SendError(error) => ConnectionActionView::SendError(error@),
            ConnectionAction::SendPong(data) => ConnectionActionView::SendPong(data@),
            ConnectionAction::Publish { name, payload, source } => ConnectionActionView::Publish {
                name: name@,
                payload: json_model(*payload),
                source: source@,
            },
            ConnectionAction::SendClose => ConnectionActionView::SendClose,
            ConnectionAction::CancelRelay => ConnectionActionView::CancelRelay,
            ConnectionAction::NotifyClosed => ConnectionActionView::NotifyClosed,
        }
    }
}

/// The view of each action of a sequence.
pub open spec fn action_views(actions: Seq<ConnectionAction>) -> Seq<ConnectionActionView> {
    actions.map_values(|a: ConnectionAction| a@)
}

/// What the handler of a connection is waiting for.
#[derive(Debug, PartialEq)]
pub enum Pending {
    /// The connection to be accepted.
    Accept,
    /// The outcome of setting `TCP_NODELAY`.
    NoDelay,
    /// The outcome of the handshake.
    Handshake,
    /// Whatever comes first: a frame, an event from the bus, or the idle timer.
    Input,
    /// The executor's answer to a request.
    Executor { request: WebSocketEvent, binary: bool },
    /// The outcome of writing the reply to a request.
    ReplySent { request: WebSocketEvent, binary: bool },
    /// The outcome of writing a pong.
    PongSent,
    /// The outcome of writing an event from the bus.
    RelaySent,
    /// The outcome of writing an error; the connection goes on either way.
    NoticeSent,
    /// The outcome of writing an error; the connection ends either way.
    LastNoticeSent,
    /// Nothing: the connection is over.
    Nothing,
}

pub enum PendingView {
    Accept,
    NoDelay,
    Handshake,
    Input,
    Executor { request: WebSocketEventView, binary: bool },
    ReplySent { request: WebSocketEventView, binary: bool },
    PongSent,
    RelaySent,
    NoticeSent,
    LastNoticeSent,
    Nothing,
}

impl View for Pending {
    type V = PendingView;

    open spec fn view(&self) -> PendingView {
        match self {
            Pending::Accept => PendingView::Accept,
            Pending::NoDelay => PendingView::NoDelay,
            Pending::Handshake => PendingView::Handshake,
            Pending::Input => PendingView::Input,
            Pending::Executor { request, binary } => PendingView::Executor {
                request: request@,
                binary: *binary,
            },
            Pending::ReplySent { request, binary } => PendingView::ReplySent {
                request: request@,
                binary: *binary,
            },
            Pending::PongSent => PendingView::PongSent,
            Pending::RelaySent => PendingView::RelaySent,
            Pending::NoticeSent => PendingView::NoticeSent,
            Pending::LastNoticeSent => PendingView::LastNoticeSent,
            Pending::Nothing => PendingView::Nothing,
        }
    }
}

impl Clone for Pending {
    fn clone(&self) -> (copy: Self)
        ensures
            copy@ == self@,
    {
        match self {
            Pending::Accept => Pending::Accept,
            Pending::NoDelay => Pending::NoDelay,
            Pending::Handshake => Pending::Handshake,
            Pending::Input => Pending::Input,
            Pending::Executor { request, binary } => Pending::Executor {
                request: request.clone(),
                binary: *binary,
            },
            Pending::ReplySent { request, binary } => Pending::ReplySent {
                request: request.clone(),
                binary: *binary,
            },
            Pending::PongSent => Pending::PongSent,
            Pending::RelaySent => Pending::RelaySent,
            Pending::NoticeSent => Pending::NoticeSent,
            Pending::LastNoticeSent => Pending::LastNoticeSent,
            Pending::Nothing => Pending::Nothing,
        }
    }
}

} // verus!
