//! The handler of one connection as a state machine over mathematical values.
//!
//! [`HandlerView::step`] says, for every state of a handler and everything that
//! can happen on its connection, what the handler becomes and what it asks for.
//! The laws at the end of the file are proved of that function; the executable
//! handler is proved to compute it.

use vstd::prelude::*;
use crate::event_bus::EventView;
use crate::websocket::commands::reply_payload;
use crate::websocket::notice::{fault_notice, protocol_notice};
use crate::websocket::protocol::{
    ConnectionActionView, ConnectionInputView, ExecutorReplyView, FrameFaultView,
    HandshakeOutcomeView, PendingView, SendReportView, HANDSHAKE_TIMEOUT_MS,
};
use crate::websocket::types::{ConnectionErrorView, ConnectionStateView, ConnectionStatsView};
use crate::websocket::wire::WebSocketEventView;

verus! {

/// The later of two times.
pub open spec fn later(a: u64, b: u64) -> u64 {
    if a < b {
        b
    } else {
        a
    }
}

/// A counter after one more: it stays at its largest value once there.
pub open spec fn bump(n: u64) -> u64 {
    if n == u64::MAX {
        n
    } else {
        (n + 1) as u64
    }
}

/// A counter after `by` more: it stays at its largest value once there.
pub open spec fn grown(n: u64, by: u64) -> u64 {
    if n + by > u64::MAX {
        u64::MAX
    } else {
        (n + by) as u64
    }
}

/// The time between two readings, none where the second is the earlier.
pub open spec fn elapsed(from: u64, to: u64) -> u64 {
    if to < from {
        0
    } else {
        (to - from) as u64
    }
}

/// The reason logged when a frame with a message, or with none, is taken up.
pub open spec fn processing_reason(binary: bool) -> Seq<char> {
    if binary {
        "Processing binary message"@
    } else {
        "Processing text message"@
    }
}

/// The reason logged when the reply to a request is about to be written.
pub open spec fn sending_reason(binary: bool) -> Seq<char> {
    if binary {
        "Sending binary response"@
    } else {
        "Sending response"@
    }
}

/// The reason logged when the reply to a request has been written.
pub open spec fn replied_reason(binary: bool) -> Seq<char> {
    if binary {
        "Binary response sent"@
    } else {
        "Response sent, ready"@
    }
}

/// The handler of one connection.
pub struct HandlerView {
    pub state: ConnectionStateView,
    pub stats: ConnectionStatsView,
    pub pending: PendingView,
    /// When the connection last read or wrote.
    pub last_activity: u64,
    /// The latest time that the handler was told.
    pub clock: u64,
    /// After how long without traffic the connection is closed.
    pub idle_timeout: u64,
    /// The origin of what this connection's peer sends; events of that origin
    /// are not relayed to it.
    pub transport_class: Seq<char>,
}

impl HandlerView {
    /// The handler of a connection that is about to be accepted.
    pub open spec fn fresh(now: u64, idle_timeout: u64, transport_class: Seq<char>) -> HandlerView {
        HandlerView {
            state: ConnectionStateView::Initialized,
            stats: ConnectionStatsView::fresh(now),
            pending: PendingView::Accept,
            last_activity: now,
            clock: now,
            idle_timeout,
            transport_class,
        }
    }

    /// The validity of a handler: its log is in the order of time and not ahead
    /// of its clock, it waits for input only when ready, it reports a failure of
    /// the transport only when it has failed, and it is over only in a state
    /// that ends a connection.
    pub open spec fn wf(self) -> bool {
        &&& self.stats.time_ordered()
        &&& self.stats.latest() <= self.clock
        &&& self.last_activity <= self.clock
        &&& (self.pending is Input ==> self.state is Ready)
        &&& (self.pending is LastNoticeSent ==> self.state is Error)
        &&& (self.pending is Nothing ==> self.state is Closed || self.state is Terminated || self.state is Error)
    }

    /// Whether the connection is over.
    pub open spec fn is_over(self) -> bool {
        self.pending is Nothing
    }

    /// The handler, told the time.
    pub open spec fn at(self, now: u64) -> HandlerView {
        HandlerView { clock: later(self.clock, now), ..self }
    }

    /// The handler in a new state, the change logged with its reason.
    pub open spec fn moved(self, to: ConnectionStateView, reason: Seq<char>) -> HandlerView {
        HandlerView { state: to, stats: self.stats.record(self.state, to, Some(reason), self.clock), ..self }
    }

    /// The handler with one more error counted.
    pub open spec fn erred(self) -> HandlerView {
        HandlerView {
            stats: ConnectionStatsView { errors_count: bump(self.stats.errors_count), ..self.stats },
            ..self
        }
    }

    /// The handler in the state of a failure, counted and logged.
    pub open spec fn failed(self, error: ConnectionErrorView, reason: Seq<char>) -> HandlerView {
        self.erred().moved(ConnectionStateView::Error(error), reason)
    }

    /// The handler after traffic: the idle window starts anew.
    pub open spec fn touched(self) -> HandlerView {
        HandlerView { last_activity: self.clock, ..self }
    }

    /// The handler after an attempt to write: a frame that was written is
    /// traffic.
    pub open spec fn written(self, report: SendReportView) -> HandlerView {
        if report is Delivered {
            self.touched()
        } else {
            self
        }
    }

    /// The handler, waiting for something else.
    pub open spec fn awaiting(self, pending: PendingView) -> HandlerView {
        HandlerView { pending, ..self }
    }

    /// The handler with one more frame received, of the given length.
    pub open spec fn received(self, size: u64) -> HandlerView {
        HandlerView {
            stats: ConnectionStatsView {
                messages_received: bump(self.stats.messages_received),
                bytes_received: grown(self.stats.bytes_received, size),
                ..self.stats
            },
            ..self
        }
    }

    /// The handler with one more message sent.
    pub open spec fn sent_message(self) -> HandlerView {
        HandlerView {
            stats: ConnectionStatsView { messages_sent: bump(self.stats.messages_sent), ..self.stats },
            ..self
        }
    }

    /// The handler with more bytes sent.
    pub open spec fn sent_bytes(self, bytes: u64) -> HandlerView {
        HandlerView {
            stats: ConnectionStatsView { bytes_sent: grown(self.stats.bytes_sent, bytes), ..self.stats },
            ..self
        }
    }

    /// The handler with a frame taken up: traffic, counted, and logged.
    pub open spec fn taken_up(self, size: u64, now: u64) -> HandlerView {
        self.at(now).touched().received(size).moved(ConnectionStateView::Receiving, "Receiving message"@)
    }

    /// Nothing happens: the input came out of turn.
    pub open spec fn ignored(self) -> (HandlerView, Seq<ConnectionActionView>) {
        (self, Seq::empty())
    }

    /// The end of the connection. A close frame is attempted unless the
    /// connection has failed; the subscription to the bus is cancelled; and the
    /// final state is recorded: `Terminated` after a failure, `Closed` after
    /// `Closing`.
    pub open spec fn finished(self) -> (HandlerView, Seq<ConnectionActionView>) {
        let farewell = if self.state is Error {
            Seq::<ConnectionActionView>::empty()
        } else {
            seq![ConnectionActionView::SendClose]
        };
        let ended = match self.state {
            ConnectionStateView::Error(_) => self.moved(
                ConnectionStateView::Terminated,
                "Connection terminated due to error"@,
            ),
            ConnectionStateView::Closing => self.moved(
                ConnectionStateView::Closed,
                "Connection closed gracefully"@,
            ),
            _ => self,
        };
        (
            ended.awaiting(PendingView::Nothing),
            farewell + seq![ConnectionActionView::CancelRelay, ConnectionActionView::NotifyClosed],
        )
    }

    pub open spec fn on_accepted(self, now: u64) -> (HandlerView, Seq<ConnectionActionView>) {
        if self.pending is Accept {
            (
                self.at(now).moved(ConnectionStateView::TcpConnecting, "TCP connection started"@).awaiting(
                    PendingView::NoDelay,
                ),
                seq![ConnectionActionView::SetNoDelay],
            )
        } else {
            self.ignored()
        }
    }

    pub open spec fn on_no_delay(self, outcome: Result<(), Seq<char>>, now: u64) -> (
        HandlerView,
        Seq<ConnectionActionView>,
    ) {
        if self.pending is NoDelay {
            match outcome {
                Ok(_) => (
                    self.at(now).moved(ConnectionStateView::TcpConnected, "TCP connected"@).moved(
                        ConnectionStateView::HandshakeInitiated,
                        "WebSocket handshake started"@,
                    ).awaiting(PendingView::Handshake),
                    seq![ConnectionActionView::AcceptHandshake { timeout_ms: HANDSHAKE_TIMEOUT_MS }],
                ),
                Err(e) => (
                    self.at(now).failed(ConnectionErrorView::TcpSetNodelayFailed(e), e).awaiting(
                        PendingView::Nothing,
                    ),
                    Seq::empty(),
                ),
            }
        } else {
            self.ignored()
        }
    }

    pub open spec fn on_handshake(self, outcome: HandshakeOutcomeView, now: u64) -> (
        HandlerView,
        Seq<ConnectionActionView>,
    ) {
        if self.pending is Handshake {
            match outcome {
                HandshakeOutcomeView::Completed => (
                    self.at(now).moved(ConnectionStateView::HandshakeCompleted, "Handshake completed"@).moved(
                        ConnectionStateView::Authenticated,
                        "Connection authenticated"@,
                    ).moved(ConnectionStateView::Ready, "Connection ready"@).touched().awaiting(
                        PendingView::Input,
                    ),
                    seq![ConnectionActionView::OpenRelay],
                ),
                HandshakeOutcomeView::Failed(e) => (
                    self.at(now).failed(ConnectionErrorView::HandshakeFailed(e), e).awaiting(
                        PendingView::Nothing,
                    ),
                    Seq::empty(),
                ),
                HandshakeOutcomeView::TimedOut => (
                    self.at(now).failed(ConnectionErrorView::HandshakeTimeout, "Handshake timeout"@).awaiting(
                        PendingView::Nothing,
                    ),
                    Seq::empty(),
                ),
            }
        } else {
            self.ignored()
        }
    }

    pub open spec fn on_request(self, message: WebSocketEventView, binary: bool, size: u64, now: u64) -> (
        HandlerView,
        Seq<ConnectionActionView>,
    ) {
        if self.pending is Input {
            (
                self.taken_up(size, now).moved(ConnectionStateView::Processing, processing_reason(binary)).awaiting(
                    PendingView::Executor { request: message, binary },
                ),
                seq![ConnectionActionView::Execute { name: message.name, payload: message.payload }],
            )
        } else {
            self.ignored()
        }
    }

    pub open spec fn on_malformed(self, fault: FrameFaultView, size: u64, now: u64) -> (
        HandlerView,
        Seq<ConnectionActionView>,
    ) {
        if self.pending is Input {
            let after = self.taken_up(size, now).moved(
                ConnectionStateView::Processing,
                processing_reason(!(fault is Text)),
            ).erred().awaiting(PendingView::NoticeSent);
            (after, seq![ConnectionActionView::SendError(fault_notice(fault, after.clock))])
        } else {
            self.ignored()
        }
    }

    pub open spec fn on_ping(self, data: Seq<u8>, now: u64) -> (HandlerView, Seq<ConnectionActionView>) {
        if self.pending is Input {
            (
                self.taken_up(frame_size(data.len()), now).moved(
                    ConnectionStateView::PingSent,
                    "Received ping"@,
                ).moved(ConnectionStateView::Sending, "Sending pong"@).awaiting(PendingView::PongSent),
                seq![ConnectionActionView::SendPong(data)],
            )
        } else {
            self.ignored()
        }
    }

    pub open spec fn on_pong(self, size: u64, now: u64) -> (HandlerView, Seq<ConnectionActionView>) {
        if self.pending is Input {
            (
                self.taken_up(size, now).moved(ConnectionStateView::PongReceived, "Received pong"@).moved(
                    ConnectionStateView::Ready,
                    "Ready after pong"@,
                ),
                Seq::empty(),
            )
        } else {
            self.ignored()
        }
    }

    pub open spec fn on_close(self, now: u64) -> (HandlerView, Seq<ConnectionActionView>) {
        if self.pending is Input {
            self.taken_up(0, now).moved(ConnectionStateView::Closing, "Close frame received"@).finished()
        } else {
            self.ignored()
        }
    }

    pub open spec fn on_raw(self, size: u64, now: u64) -> (HandlerView, Seq<ConnectionActionView>) {
        if self.pending is Input {
            (
                self.taken_up(size, now).moved(ConnectionStateView::Processing, "Processing raw frame"@).moved(
                    ConnectionStateView::Ready,
                    "Raw frame ignored"@,
                ),
                Seq::empty(),
            )
        } else {
            self.ignored()
        }
    }

    pub open spec fn on_transport_failed(self, error: Seq<char>, now: u64) -> (
        HandlerView,
        Seq<ConnectionActionView>,
    ) {
        if self.pending is Input {
            let after = self.at(now).touched().failed(ConnectionErrorView::ProtocolError(error), error).awaiting(
                PendingView::LastNoticeSent,
            );
            (after, seq![ConnectionActionView::SendError(protocol_notice(error, after.clock))])
        } else {
            self.ignored()
        }
    }

    pub open spec fn on_stream_ended(self, now: u64) -> (HandlerView, Seq<ConnectionActionView>) {
        if self.pending is Input {
            self.at(now).touched().moved(ConnectionStateView::Closed, "Stream ended"@).finished()
        } else {
            self.ignored()
        }
    }

    /// An event from the bus is written to the connection unless it comes from
    /// the connection's own side.
    pub open spec fn on_relay(self, event: EventView, now: u64) -> (HandlerView, Seq<ConnectionActionView>) {
        if self.pending is Input && event.source != self.transport_class {
            let after = self.at(now).touched().moved(ConnectionStateView::Sending, "Forwarding event"@).awaiting(
                PendingView::RelaySent,
            );
            (
                after,
                seq![
                    ConnectionActionView::SendMessage(
                        WebSocketEventView {
                            id: event.id,
                            name: event.name,
                            payload: event.payload,
                            timestamp: after.clock,
                            source: event.source,
                        },
                    ),
                ],
            )
        } else {
            self.ignored()
        }
    }

    pub open spec fn on_relay_closed(self, now: u64) -> (HandlerView, Seq<ConnectionActionView>) {
        if self.pending is Input {
            (
                self.at(now).moved(
                    ConnectionStateView::Error(ConnectionErrorView::ChannelClosed),
                    "Event channel closed"@,
                ).moved(ConnectionStateView::Ready, "Continuing without relay"@),
                Seq::empty(),
            )
        } else {
            self.ignored()
        }
    }

    /// Whether the connection has been idle for its whole window at `now`.
    pub open spec fn idle_at(self, now: u64) -> bool {
        elapsed(self.last_activity, later(self.clock, now)) >= self.idle_timeout
    }

    pub open spec fn on_idle_timer(self, now: u64) -> (HandlerView, Seq<ConnectionActionView>) {
        if self.pending is Input && self.idle_at(now) {
            self.at(now).erred().moved(ConnectionStateView::Closing, "Idle timeout"@).finished()
        } else {
            self.ignored()
        }
    }

    pub open spec fn on_executed(self, reply: ExecutorReplyView, now: u64) -> (
        HandlerView,
        Seq<ConnectionActionView>,
    ) {
        match self.pending {
            PendingView::Executor { request, binary } => {
                let after = self.at(now).moved(ConnectionStateView::Sending, sending_reason(binary)).awaiting(
                    PendingView::ReplySent { request, binary },
                );
                (
                    after,
                    seq![
                        ConnectionActionView::SendMessage(
                            WebSocketEventView {
                                id: request.id,
                                name: request.name,
                                payload: reply_payload(request.name, reply),
                                timestamp: after.clock,
                                source: "backend"@,
                            },
                        ),
                    ],
                )
            },
            _ => self.ignored(),
        }
    }

    pub open spec fn on_reply_sent(self, request: WebSocketEventView, binary: bool, report: SendReportView, now: u64) -> (
        HandlerView,
        Seq<ConnectionActionView>,
    ) {
        match report {
            SendReportView::Delivered { bytes } => (
                self.at(now).touched().sent_bytes(bytes).sent_message().moved(
                    ConnectionStateView::Ready,
                    replied_reason(binary),
                ).awaiting(PendingView::Input),
                seq![
                    ConnectionActionView::Publish {
                        name: request.name,
                        payload: request.payload,
                        source: request.source,
                    },
                ],
            ),
            SendReportView::EncodeFailed(e) => self.at(now).failed(
                ConnectionErrorView::SerializationError(e),
                e,
            ).finished(),
            SendReportView::TransportFailed { bytes, message } => self.at(now).sent_bytes(bytes).failed(
                ConnectionErrorView::SendError(message),
                message,
            ).finished(),
        }
    }

    pub open spec fn on_pong_sent(self, report: SendReportView, now: u64) -> (
        HandlerView,
        Seq<ConnectionActionView>,
    ) {
        match report {
            SendReportView::Delivered { bytes } => (
                self.at(now).touched().sent_message().moved(ConnectionStateView::PongReceived, "Pong sent"@).moved(
                    ConnectionStateView::Ready,
                    "Ready after pong"@,
                ).awaiting(PendingView::Input),
                Seq::empty(),
            ),
            SendReportView::EncodeFailed(e) => self.at(now).failed(
                ConnectionErrorView::SerializationError(e),
                e,
            ).finished(),
            SendReportView::TransportFailed { bytes, message } => self.at(now).failed(
                ConnectionErrorView::SendError(message),
                message,
            ).finished(),
        }
    }

    pub open spec fn on_relay_sent(self, report: SendReportView, now: u64) -> (
        HandlerView,
        Seq<ConnectionActionView>,
    ) {
        match report {
            SendReportView::Delivered { bytes } => (
                self.at(now).touched().sent_message().moved(ConnectionStateView::Ready, "Event sent"@).awaiting(
                    PendingView::Input,
                ),
                Seq::empty(),
            ),
            SendReportView::EncodeFailed(e) => self.at(now).failed(
                ConnectionErrorView::SerializationError(e),
                e,
            ).finished(),
            SendReportView::TransportFailed { bytes, message } => self.at(now).failed(
                ConnectionErrorView::SendError(message),
                message,
            ).finished(),
        }
    }

    pub open spec fn on_sent(self, report: SendReportView, now: u64) -> (HandlerView, Seq<ConnectionActionView>) {
        match self.pending {
            PendingView::ReplySent { request, binary } => self.on_reply_sent(request, binary, report, now),
            PendingView::PongSent => self.on_pong_sent(report, now),
            PendingView::RelaySent => self.on_relay_sent(report, now),
            PendingView::NoticeSent => (
                self.at(now).written(report).moved(ConnectionStateView::Ready, "Error reported"@).awaiting(
                    PendingView::Input,
                ),
                Seq::empty(),
            ),
            PendingView::LastNoticeSent => self.at(now).finished(),
            _ => self.ignored(),
        }
    }

    /// What the handler becomes, and what it asks for, when `input` happens at
    /// the time `now`. An input that the handler is not waiting for changes
    /// nothing and asks for nothing.
    pub open spec fn step(self, input: ConnectionInputView, now: u64) -> (HandlerView, Seq<ConnectionActionView>) {
        match input {
            ConnectionInputView::Accepted => self.on_accepted(now),
            ConnectionInputView::NoDelay(outcome) => self.on_no_delay(outcome, now),
            ConnectionInputView::Handshake(outcome) => self.on_handshake(outcome, now),
            ConnectionInputView::Request { message, binary, size } => self.on_request(message, binary, size, now),
            ConnectionInputView::Malformed { fault, size } => self.on_malformed(fault, size, now),
            ConnectionInputView::Ping { data } => self.on_ping(data, now),
            ConnectionInputView::Pong { size } => self.on_pong(size, now),
            ConnectionInputView::Close => self.on_close(now),
            ConnectionInputView::Raw { size } => self.on_raw(size, now),
            ConnectionInputView::TransportFailed(error) => self.on_transport_failed(error, now),
            ConnectionInputView::StreamEnded => self.on_stream_ended(now),
            ConnectionInputView::Relay(event) => self.on_relay(event, now),
            ConnectionInputView::RelayClosed => self.on_relay_closed(now),
            ConnectionInputView::IdleTimer => self.on_idle_timer(now),
            ConnectionInputView::Executed(reply) => self.on_executed(reply, now),
            ConnectionInputView::Sent(report) => self.on_sent(report, now),
        }
    }
}

/// The length of a frame as a counter takes it.
pub open spec fn frame_size(len: nat) -> u64 {
    if len > u64::MAX {
        u64::MAX
    } else {
        len as u64
    }
}

} // verus!
