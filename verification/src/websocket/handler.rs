//! The handler of one connection.
//!
//! A [`WebSocketHandler`] holds the state of a connection and decides. It is
//! told what happened ([`WebSocketHandler::handle_connection`]) and answers
//! with what to do; it reads and writes nothing itself.

use vstd::prelude::*;
use vstd::string::*;
use crate::event_bus::Event;
use crate::json::clone_value;
use crate::stamp::{is_clock_time, now_millis};
use crate::text::text_eq;
use crate::json::json_model;
use crate::websocket::commands::{
    called_json, effect_of, execute, reply_for, unknown_function_reply, BackendData, CommandEffect,
};
use crate::websocket::laws::lemma_step_keeps_valid;
use crate::websocket::model::{bump, elapsed, frame_size, grown, later, HandlerView};
use crate::websocket::protocol::{
    action_views, outcome_view, ConnectionAction, ConnectionActionView, ConnectionInput,
    ExecutorReply, FrameFault, HandshakeOutcome, Pending, SendReport, DEFAULT_IDLE_TIMEOUT_MS,
    HANDSHAKE_TIMEOUT_MS,
};
use crate::websocket::types::{
    reason_view, ConnectionError, ConnectionState, ConnectionStats, StateTransition,
};
use crate::websocket::wire::{WebSocketError, WebSocketEvent};

verus! {

/// The handler of one connection: its lifecycle state, its counters and log,
/// and what it is waiting for.
pub struct WebSocketHandler {
    state: ConnectionState,
    stats: ConnectionStats,
    pending: Pending,
    last_activity: u64,
    clock: u64,
    idle_timeout: u64,
    transport_class: String,
}

impl View for WebSocketHandler {
    type V = HandlerView;

    closed spec fn view(&self) -> HandlerView {
        HandlerView {
            state: self.state@,
            stats: self.stats@,
            pending: self.pending@,
            last_activity: self.last_activity,
            clock: self.clock,
            idle_timeout: self.idle_timeout,
            transport_class: self.transport_class@,
        }
    }
}

fn no_actions() -> (actions: Vec<ConnectionAction>)
    ensures
        action_views(actions@) == Seq::<ConnectionActionView>::empty(),
{
    let actions: Vec<ConnectionAction> = Vec::new();
    assert(action_views(actions@) =~= Seq::<ConnectionActionView>::empty());
    actions
}

fn one_action(action: ConnectionAction) -> (actions: Vec<ConnectionAction>)
    ensures
        action_views(actions@) == seq![action@],
{
    let mut actions: Vec<ConnectionAction> = Vec::new();
    actions.push(action);
    assert(action_views(actions@) =~= seq![action@]);
    actions
}

fn one_more(n: u64) -> (m: u64)
    ensures
        m == bump(n),
{
    if n == u64::MAX {
        n
    } else {
        n + 1
    }
}

fn more(n: u64, by: u64) -> (m: u64)
    ensures
        m == grown(n, by),
{
    if by > u64::MAX - n {
        u64::MAX
    } else {
        n + by
    }
}

impl WebSocketHandler {
    /// The handler of a connection that is about to be accepted now, of a
    /// frontend, with the default idle window.
    pub fn new() -> (handler: Self)
        ensures
            exists|now: u64|
                is_clock_time(now) && handler@ == #[trigger] HandlerView::fresh(
                    now,
                    DEFAULT_IDLE_TIMEOUT_MS,
                    "frontend"@,
                ),
            handler@.wf(),
    {
        WebSocketHandler::starting_at(now_millis(), DEFAULT_IDLE_TIMEOUT_MS, "frontend")
    }

    /// The handler of a connection that is about to be accepted at `now`. The
    /// connection is closed after `idle_timeout` milliseconds without traffic,
    /// and events whose source is `transport_class` are not relayed to it.
    pub fn starting_at(now: u64, idle_timeout: u64, transport_class: &str) -> (handler: Self)
        ensures
            handler@ == HandlerView::fresh(now, idle_timeout, transport_class@),
            handler@.wf(),
    {
        WebSocketHandler {
            state: ConnectionState::Initialized,
            stats: ConnectionStats::starting_at(now),
            pending: Pending::Accept,
            last_activity: now,
            clock: now,
            idle_timeout,
            transport_class: transport_class.to_owned(),
        }
    }

    /// The lifecycle state of the connection.
    pub fn state(&self) -> (state: &ConnectionState)
        ensures
            state@ == self@.state,
    {
        &self.state
    }

    /// The counters of the connection and its log.
    pub fn stats(&self) -> (stats: &ConnectionStats)
        ensures
            stats@ == self@.stats,
    {
        &self.stats
    }

    /// What the handler is waiting for.
    pub fn pending(&self) -> (pending: &Pending)
        ensures
            pending@ == self@.pending,
    {
        &self.pending
    }

    /// Whether the connection is over.
    pub fn is_over(&self) -> (over: bool)
        ensures
            over == self@.is_over(),
    {
        match self.pending {
            Pending::Nothing => true,
            _ => false,
        }
    }

    /// Whether the handler waits for a frame, an event or the idle timer.
    pub fn awaits_input(&self) -> (yes: bool)
        ensures
            yes == (self@.pending is Input),
    {
        match self.pending {
            Pending::Input => true,
            _ => false,
        }
    }

    /// How long until the idle window ends, in milliseconds from `now`.
    pub fn idle_remaining(&self, now: u64) -> (left: u64)
        ensures
            left == elapsed(elapsed(self@.last_activity, later(self@.clock, now)), self@.idle_timeout),
            left == 0 <==> self@.idle_at(now),
    {
        let time = if self.clock < now { now } else { self.clock };
        let idle = if time < self.last_activity { 0 } else { time - self.last_activity };
        if self.idle_timeout < idle {
            0
        } else {
            self.idle_timeout - idle
        }
    }

    /// Records a change of state: `state` becomes `new_state`, and the log of
    /// `stats` gets one more entry, stamped `now` or, where that would be
    /// earlier than the entry before, with that entry's time.
    pub fn transition_state(state: &mut ConnectionState, new_state: ConnectionState, stats: &mut ConnectionStats, reason: Option<String>, now: u64)
        ensures
            final(state)@ == new_state@,
            final(stats)@ == old(stats)@.record(old(state)@, new_state@, reason_view(reason), now),
    {
        let from = state.clone();
        let to = new_state.clone();
        let latest = stats.latest();
        let timestamp = if now < latest { latest } else { now };
        *state = new_state;
        let entry = StateTransition { from, to, timestamp, reason };
        stats.state_history.push(entry);
        assert(stats@.state_history =~= old(stats)@.state_history.push(entry@));
    }

    fn tell(&mut self, now: u64)
        ensures
            final(self)@ == old(self)@.at(now),
    {
        if self.clock < now {
            self.clock = now;
        }
    }

    fn advance(&mut self, to: ConnectionState, reason: &str)
        ensures
            final(self)@ == old(self)@.moved(to@, reason@),
    {
        let clock = self.clock;
        WebSocketHandler::transition_state(&mut self.state, to, &mut self.stats, Some(reason.to_owned()), clock);
    }

    fn count_error(&mut self)
        ensures
            final(self)@ == old(self)@.erred(),
    {
        self.stats.errors_count = one_more(self.stats.errors_count);
    }

    fn fail(&mut self, error: ConnectionError, reason: &str)
        ensures
            final(self)@ == old(self)@.failed(error@, reason@),
    {
        self.count_error();
        self.advance(ConnectionState::Error(error), reason);
    }

    fn touch(&mut self)
        ensures
            final(self)@ == old(self)@.touched(),
    {
        self.last_activity = self.clock;
    }

    fn wait_for(&mut self, pending: Pending)
        ensures
            final(self)@ == old(self)@.awaiting(pending@),
    {
        self.pending = pending;
    }

    fn count_received(&mut self, size: u64)
        ensures
            final(self)@ == old(self)@.received(size),
    {
        self.stats.messages_received = one_more(self.stats.messages_received);
        self.stats.bytes_received = more(self.stats.bytes_received, size);
    }

    fn count_sent(&mut self)
        ensures
            final(self)@ == old(self)@.sent_message(),
    {
        self.stats.messages_sent = one_more(self.stats.messages_sent);
    }

    fn count_sent_bytes(&mut self, bytes: u64)
        ensures
            final(self)@ == old(self)@.sent_bytes(bytes),
    {
        self.stats.bytes_sent = more(self.stats.bytes_sent, bytes);
    }

    fn take_up(&mut self, size: u64, now: u64)
        ensures
            final(self)@ == old(self)@.taken_up(size, now),
    {
        self.tell(now);
        self.touch();
        self.count_received(size);
        self.advance(ConnectionState::Receiving, "Receiving message");
    }

    fn finish(&mut self) -> (actions: Vec<ConnectionAction>)
        ensures
            final(self)@ == old(self)@.finished().0,
            action_views(actions@) == old(self)@.finished().1,
    {
        let mut actions: Vec<ConnectionAction> = Vec::new();
        if !self.state.is_error() {
            actions.push(ConnectionAction::SendClose);
        }
        actions.push(ConnectionAction::CancelRelay);
        actions.push(ConnectionAction::NotifyClosed);
        assert(action_views(actions@) =~= old(self)@.finished().1);
        let closing = match self.state {
            ConnectionState::Closing => true,
            _ => false,
        };
        if self.state.is_error() {
            self.advance(ConnectionState::Terminated, "Connection terminated due to error");
        } else if closing {
            self.advance(ConnectionState::Closed, "Connection closed gracefully");
        }
        self.wait_for(Pending::Nothing);
        actions
    }

    fn on_accepted(&mut self, now: u64) -> (actions: Vec<ConnectionAction>)
        ensures
            final(self)@ == old(self)@.on_accepted(now).0,
            action_views(actions@) == old(self)@.on_accepted(now).1,
    {
        match self.pending {
            Pending::Accept => {
                self.tell(now);
                self.advance(ConnectionState::TcpConnecting, "TCP connection started");
                self.wait_for(Pending::NoDelay);
                one_action(ConnectionAction::SetNoDelay)
            },
            _ => no_actions(),
        }
    }

    fn on_no_delay(&mut self, outcome: Result<(), String>, now: u64) -> (actions: Vec<ConnectionAction>)
        ensures
            final(self)@ == old(self)@.on_no_delay(outcome_view(outcome), now).0,
            action_views(actions@) == old(self)@.on_no_delay(outcome_view(outcome), now).1,
    {
        match self.pending {
            Pending::NoDelay => {
                self.tell(now);
                match outcome {
                    Ok(_) => {
                        self.advance(ConnectionState::TcpConnected, "TCP connected");
                        self.advance(ConnectionState::HandshakeInitiated, "WebSocket handshake started");
                        self.wait_for(Pending::Handshake);
                        one_action(ConnectionAction::AcceptHandshake { timeout_ms: HANDSHAKE_TIMEOUT_MS })
                    },
                    Err(e) => {
                        self.fail(ConnectionError::TcpSetNodelayFailed(e.clone()), e.as_str());
                        self.wait_for(Pending::Nothing);
                        no_actions()
                    },
                }
            },
            _ => no_actions(),
        }
    }

    fn on_handshake(&mut self, outcome: HandshakeOutcome, now: u64) -> (actions: Vec<ConnectionAction>)
        ensures
            final(self)@ == old(self)@.on_handshake(outcome@, now).0,
            action_views(actions@) == old(self)@.on_handshake(outcome@, now).1,
    {
        match self.pending {
            Pending::Handshake => {
                self.tell(now);
                match outcome {
                    HandshakeOutcome::Completed => {
                        self.advance(ConnectionState::HandshakeCompleted, "Handshake completed");
                        self.advance(ConnectionState::Authenticated, "Connection authenticated");
                        self.advance(ConnectionState::Ready, "Connection ready");
                        self.touch();
                        self.wait_for(Pending::Input);
                        one_action(ConnectionAction::OpenRelay)
                    },
                    HandshakeOutcome::Failed(e) => {
                        self.fail(ConnectionError::HandshakeFailed(e.clone()), e.as_str());
                        self.wait_for(Pending::Nothing);
                        no_actions()
                    },
                    HandshakeOutcome::TimedOut => {
                        self.fail(ConnectionError::HandshakeTimeout, "Handshake timeout");
                        self.wait_for(Pending::Nothing);
                        no_actions()
                    },
                }
            },
            _ => no_actions(),
        }
    }

    fn on_request(&mut self, message: WebSocketEvent, binary: bool, size: u64, now: u64) -> (actions: Vec<ConnectionAction>)
        ensures
            final(self)@ == old(self)@.on_request(message@, binary, size, now).0,
            action_views(actions@) == old(self)@.on_request(message@, binary, size, now).1,
    {
        match self.pending {
            Pending::Input => {
                self.take_up(size, now);
                let reason = if binary { "Processing binary message" } else { "Processing text message" };
                self.advance(ConnectionState::Processing, reason);
                let call = ConnectionAction::Execute {
                    name: message.name.clone(),
                    payload: clone_value(&message.payload),
                };
                self.wait_for(Pending::Executor { request: message, binary });
                one_action(call)
            },
            _ => no_actions(),
        }
    }

    fn on_malformed(&mut self, fault: FrameFault, size: u64, now: u64) -> (actions: Vec<ConnectionAction>)
        ensures
            final(self)@ == old(self)@.on_malformed(fault@, size, now).0,
            action_views(actions@) == old(self)@.on_malformed(fault@, size, now).1,
    {
        match self.pending {
            Pending::Input => {
                self.take_up(size, now);
                let text = match fault {
                    FrameFault::Text { .. } => true,
                    _ => false,
                };
                let reason = if text { "Processing text message" } else { "Processing binary message" };
                self.advance(ConnectionState::Processing, reason);
                self.count_error();
                self.wait_for(Pending::NoticeSent);
                one_action(ConnectionAction::SendError(WebSocketError::for_fault(fault, self.clock)))
            },
            _ => no_actions(),
        }
    }

    fn on_ping(&mut self, data: Vec<u8>, now: u64) -> (actions: Vec<ConnectionAction>)
        ensures
            final(self)@ == old(self)@.on_ping(data@, now).0,
            action_views(actions@) == old(self)@.on_ping(data@, now).1,
    {
        match self.pending {
            Pending::Input => {
                self.take_up(size_of_frame(data.len()), now);
                self.advance(ConnectionState::PingSent, "Received ping");
                self.advance(ConnectionState::Sending, "Sending pong");
                self.wait_for(Pending::PongSent);
                one_action(ConnectionAction::SendPong(data))
            },
            _ => no_actions(),
        }
    }

    fn on_pong(&mut self, size: u64, now: u64) -> (actions: Vec<ConnectionAction>)
        ensures
            final(self)@ == old(self)@.on_pong(size, now).0,
            action_views(actions@) == old(self)@.on_pong(size, now).1,
    {
        match self.pending {
            Pending::Input => {
                self.take_up(size, now);
                self.advance(ConnectionState::PongReceived, "Received pong");
                self.advance(ConnectionState::Ready, "Ready after pong");
                no_actions()
            },
            _ => no_actions(),
        }
    }

    fn on_close(&mut self, now: u64) -> (actions: Vec<ConnectionAction>)
        ensures
            final(self)@ == old(self)@.on_close(now).0,
            action_views(actions@) == old(self)@.on_close(now).1,
    {
        match self.pending {
            Pending::Input => {
                self.take_up(0, now);
                self.advance(ConnectionState::Closing, "Close frame received");
                self.finish()
            },
            _ => no_actions(),
        }
    }

    fn on_raw(&mut self, size: u64, now: u64) -> (actions: Vec<ConnectionAction>)
        ensures
            final(self)@ == old(self)@.on_raw(size, now).0,
            action_views(actions@) == old(self)@.on_raw(size, now).1,
    {
        match self.pending {
            Pending::Input => {
                self.take_up(size, now);
                self.advance(ConnectionState::Processing, "Processing raw frame");
                self.advance(ConnectionState::Ready, "Raw frame ignored");
                no_actions()
            },
            _ => no_actions(),
        }
    }

    fn on_transport_failed(&mut self, error: String, now: u64) -> (actions: Vec<ConnectionAction>)
        ensures
            final(self)@ == old(self)@.on_transport_failed(error@, now).0,
            action_views(actions@) == old(self)@.on_transport_failed(error@, now).1,
    {
        match self.pending {
            Pending::Input => {
                self.tell(now);
                self.touch();
                self.fail(ConnectionError::ProtocolError(error.clone()), error.as_str());
                self.wait_for(Pending::LastNoticeSent);
                one_action(
                    ConnectionAction::SendError(WebSocketError::for_protocol_failure(error.as_str(), self.clock)),
                )
            },
            _ => no_actions(),
        }
    }

    fn on_stream_ended(&mut self, now: u64) -> (actions: Vec<ConnectionAction>)
        ensures
            final(self)@ == old(self)@.on_stream_ended(now).0,
            action_views(actions@) == old(self)@.on_stream_ended(now).1,
    {
        match self.pending {
            Pending::Input => {
                self.tell(now);
                self.touch();
                self.advance(ConnectionState::Closed, "Stream ended");
                self.finish()
            },
            _ => no_actions(),
        }
    }

    fn on_relay(&mut self, event: Event, now: u64) -> (actions: Vec<ConnectionAction>)
        ensures
            final(self)@ == old(self)@.on_relay(event@, now).0,
            action_views(actions@) == old(self)@.on_relay(event@, now).1,
    {
        let waiting = self.awaits_input();
        if waiting && !text_eq(event.source.as_str(), self.transport_class.as_str()) {
            self.tell(now);
            self.touch();
            self.advance(ConnectionState::Sending, "Forwarding event");
            self.wait_for(Pending::RelaySent);
            one_action(
                ConnectionAction::SendMessage(
                    WebSocketEvent {
                        id: event.id,
                        name: event.name,
                        payload: event.payload,
                        timestamp: self.clock,
                        source: event.source,
                    },
                ),
            )
        } else {
            no_actions()
        }
    }

    fn on_relay_closed(&mut self, now: u64) -> (actions: Vec<ConnectionAction>)
        ensures
            final(self)@ == old(self)@.on_relay_closed(now).0,
            action_views(actions@) == old(self)@.on_relay_closed(now).1,
    {
        match self.pending {
            Pending::Input => {
                self.tell(now);
                self.advance(ConnectionState::Error(ConnectionError::ChannelClosed), "Event channel closed");
                self.advance(ConnectionState::Ready, "Continuing without relay");
                no_actions()
            },
            _ => no_actions(),
        }
    }

    fn on_idle_timer(&mut self, now: u64) -> (actions: Vec<ConnectionAction>)
        ensures
            final(self)@ == old(self)@.on_idle_timer(now).0,
            action_views(actions@) == old(self)@.on_idle_timer(now).1,
    {
        let waiting = self.awaits_input();
        if waiting && self.idle_remaining(now) == 0 {
            self.tell(now);
            self.count_error();
            self.advance(ConnectionState::Closing, "Idle timeout");
            self.finish()
        } else {
            no_actions()
        }
    }

    fn on_executed(&mut self, reply: ExecutorReply, now: u64) -> (actions: Vec<ConnectionAction>)
        ensures
            final(self)@ == old(self)@.on_executed(reply@, now).0,
            action_views(actions@) == old(self)@.on_executed(reply@, now).1,
    {
        let pending = self.pending.clone();
        match pending {
            Pending::Executor { request, binary } => {
                self.tell(now);
                let reason = if binary { "Sending binary response" } else { "Sending response" };
                self.advance(ConnectionState::Sending, reason);
                let message = WebSocketEvent {
                    id: request.id.clone(),
                    name: request.name.clone(),
                    payload: reply_for(request.name.as_str(), reply),
                    timestamp: self.clock,
                    source: "backend".to_owned(),
                };
                self.wait_for(Pending::ReplySent { request, binary });
                one_action(ConnectionAction::SendMessage(message))
            },
            _ => no_actions(),
        }
    }

    fn on_reply_sent(&mut self, request: WebSocketEvent, binary: bool, report: SendReport, now: u64) -> (actions: Vec<ConnectionAction>)
        ensures
            final(self)@ == old(self)@.on_reply_sent(request@, binary, report@, now).0,
            action_views(actions@) == old(self)@.on_reply_sent(request@, binary, report@, now).1,
    {
        self.tell(now);
        match report {
            SendReport::Delivered { bytes } => {
                self.touch();
                self.count_sent_bytes(bytes);
                self.count_sent();
                let reason = if binary { "Binary response sent" } else { "Response sent, ready" };
                self.advance(ConnectionState::Ready, reason);
                self.wait_for(Pending::Input);
                one_action(
                    ConnectionAction::Publish {
                        name: request.name,
                        payload: request.payload,
                        source: request.source,
                    },
                )
            },
            SendReport::EncodeFailed(e) => {
                self.fail(ConnectionError::SerializationError(e.clone()), e.as_str());
                self.finish()
            },
            SendReport::TransportFailed { bytes, message } => {
                self.count_sent_bytes(bytes);
                self.fail(ConnectionError::SendError(message.clone()), message.as_str());
                self.finish()
            },
        }
    }

    fn on_pong_sent(&mut self, report: SendReport, now: u64) -> (actions: Vec<ConnectionAction>)
        ensures
            final(self)@ == old(self)@.on_pong_sent(report@, now).0,
            action_views(actions@) == old(self)@.on_pong_sent(report@, now).1,
    {
        self.tell(now);
        match report {
            SendReport::Delivered { bytes } => {
                self.touch();
                self.count_sent();
                self.advance(ConnectionState::PongReceived, "Pong sent");
                self.advance(ConnectionState::Ready, "Ready after pong");
                self.wait_for(Pending::Input);
                no_actions()
            },
            SendReport::EncodeFailed(e) => {
                self.fail(ConnectionError::SerializationError(e.clone()), e.as_str());
                self.finish()
            },
            SendReport::TransportFailed { bytes, message } => {
                self.fail(ConnectionError::SendError(message.clone()), message.as_str());
                self.finish()
            },
        }
    }

    fn on_relay_sent(&mut self, report: SendReport, now: u64) -> (actions: Vec<ConnectionAction>)
        ensures
            final(self)@ == old(self)@.on_relay_sent(report@, now).0,
            action_views(actions@) == old(self)@.on_relay_sent(report@, now).1,
    {
        self.tell(now);
        match report {
            SendReport::Delivered { bytes } => {
                self.touch();
                self.count_sent();
                self.advance(ConnectionState::Ready, "Event sent");
                self.wait_for(Pending::Input);
                no_actions()
            },
            SendReport::EncodeFailed(e) => {
                self.fail(ConnectionError::SerializationError(e.clone()), e.as_str());
                self.finish()
            },
            SendReport::TransportFailed { bytes, message } => {
                self.fail(ConnectionError::SendError(message.clone()), message.as_str());
                self.finish()
            },
        }
    }

    fn on_sent(&mut self, report: SendReport, now: u64) -> (actions: Vec<ConnectionAction>)
        ensures
            final(self)@ == old(self)@.on_sent(report@, now).0,
            action_views(actions@) == old(self)@.on_sent(report@, now).1,
    {
        let pending = self.pending.clone();
        match pending {
            Pending::ReplySent { request, binary } => self.on_reply_sent(request, binary, report, now),
            Pending::PongSent => self.on_pong_sent(report, now),
            Pending::RelaySent => self.on_relay_sent(report, now),
            Pending::NoticeSent => {
                self.tell(now);
                match report {
                    SendReport::Delivered { .. } => self.touch(),
                    _ => {},
                }
                self.advance(ConnectionState::Ready, "Error reported");
                self.wait_for(Pending::Input);
                no_actions()
            },
            Pending::LastNoticeSent => {
                self.tell(now);
                self.finish()
            },
            _ => no_actions(),
        }
    }

    /// Answers a call of the function `name`: the reply of the command that the
    /// name stands for, given what was read from the data store, or a failure
    /// that names the function where it stands for none; and what is to be done
    /// beyond the reply. There is always a reply.
    pub fn handle_function_call(name: &str, payload: &serde_json::Value, data: BackendData) -> (r: (Option<serde_json::Value>, CommandEffect))
        ensures
            r.0 matches Some(reply) && json_model(reply) == called_json(name@, data@),
            r.1@ == effect_of(name@, json_model(*payload)),
    {
        let (reply, effect) = execute(name, payload, data);
        match reply {
            Some(reply) => (Some(reply), effect),
            None => (Some(unknown_function_reply(name)), effect),
        }
    }

    /// Takes one step of the connection: told what happened at the time `now`,
    /// the handler changes as [`HandlerView::step`] says and returns, in the
    /// order in which they are to be done, the actions that it says. A valid
    /// handler stays valid.
    pub fn handle_connection(&mut self, input: ConnectionInput, now: u64) -> (actions: Vec<ConnectionAction>)
        ensures
            final(self)@ == old(self)@.step(input@, now).0,
            action_views(actions@) == old(self)@.step(input@, now).1,
            old(self)@.wf() ==> final(self)@.wf(),
    {
        proof {
            if self@.wf() {
                lemma_step_keeps_valid(self@, input@, now);
            }
        }
        match input {
            ConnectionInput::Accepted => self.on_accepted(now),
            ConnectionInput::NoDelay(outcome) => self.on_no_delay(outcome, now),
            ConnectionInput::Handshake(outcome) => self.on_handshake(outcome, now),
            ConnectionInput::Request { message, binary, size } => self.on_request(message, binary, size, now),
            ConnectionInput::Malformed { fault, size } => self.on_malformed(fault, size, now),
            ConnectionInput::Ping { data } => self.on_ping(data, now),
            ConnectionInput::Pong { size } => self.on_pong(size, now),
            ConnectionInput::Close => self.on_close(now),
            ConnectionInput::Raw { size } => self.on_raw(size, now),
            ConnectionInput::TransportFailed(error) => self.on_transport_failed(error, now),
            ConnectionInput::StreamEnded => self.on_stream_ended(now),
            ConnectionInput::Relay(event) => self.on_relay(event, now),
            ConnectionInput::RelayClosed => self.on_relay_closed(now),
            ConnectionInput::IdleTimer => self.on_idle_timer(now),
            ConnectionInput::Executed(reply) => self.on_executed(reply, now),
            ConnectionInput::Sent(report) => self.on_sent(report, now),
        }
    }
}

/// The length of a frame as a counter takes it.
pub fn size_of_frame(len: usize) -> (size: u64)
    ensures
        size == frame_size(len as nat),
{
    len as u64
}

} // verus!
