//! The data of one connection: wire messages, lifecycle states, the failure
//! taxonomy, and the per-connection counters with their transition log.

use vstd::prelude::*;
use vstd::string::*;

use crate::stamp::{is_clock_time, now_millis};
use crate::text::join;

verus! {

/// Why a connection failed. Each kind carries a description where one exists.
#[derive(Debug, PartialEq)]
pub enum ConnectionError {
    TcpBindFailed(String),
    TcpAcceptFailed(String),
    TcpSetNodelayFailed(String),
    HandshakeTimeout,
    HandshakeFailed(String),
    AuthenticationFailed(String),
    InvalidMessage(String),
    MessageParseError(String),
    SerializationError(String),
    SendError(String),
    ReceiveError(String),
    ProtocolError(String),
    ChannelClosed,
    IdleTimeout,
    Unknown(String),
}

/// A [`ConnectionError`] with its description as a sequence of characters.
pub enum ConnectionErrorView {
    TcpBindFailed(Seq<char>),
    TcpAcceptFailed(Seq<char>),
    TcpSetNodelayFailed(Seq<char>),
    HandshakeTimeout,
    HandshakeFailed(Seq<char>),
    AuthenticationFailed(Seq<char>),
    InvalidMessage(Seq<char>),
    MessageParseError(Seq<char>),
    SerializationError(Seq<char>),
    SendError(Seq<char>),
    ReceiveError(Seq<char>),
    ProtocolError(Seq<char>),
    ChannelClosed,
    IdleTimeout,
    Unknown(Seq<char>),
}

impl ConnectionErrorView {
    /// The sentence that describes the failure.
    pub open spec fn message(self) -> Seq<char> {
        match self {
            ConnectionErrorView::TcpBindFailed(s) => "TCP bind failed: "@ + s,
            ConnectionErrorView::TcpAcceptFailed(s) => "TCP accept failed: "@ + s,
            ConnectionErrorView::TcpSetNodelayFailed(s) => "TCP set nodelay failed: "@ + s,
            ConnectionErrorView::HandshakeTimeout => "WebSocket handshake timed out"@,
            ConnectionErrorView::HandshakeFailed(s) => "WebSocket handshake failed: "@ + s,
            ConnectionErrorView::AuthenticationFailed(s) => "Authentication failed: "@ + s,
            ConnectionErrorView::InvalidMessage(s) => "Invalid message: "@ + s,
            ConnectionErrorView::MessageParseError(s) => "Message parse error: "@ + s,
            ConnectionErrorView::SerializationError(s) => "Serialization error: "@ + s,
            ConnectionErrorView::SendError(s) => "Send error: "@ + s,
            ConnectionErrorView::ReceiveError(s) => "Receive error: "@ + s,
            ConnectionErrorView::ProtocolError(s) => "Protocol error: "@ + s,
            ConnectionErrorView::ChannelClosed => "Channel closed"@,
            ConnectionErrorView::IdleTimeout => "Connection idle timeout"@,
            ConnectionErrorView::Unknown(s) => "Unknown error: "@ + s,
        }
    }
}

impl View for ConnectionError {
    type V = ConnectionErrorView;

    open spec fn view(&self) -> ConnectionErrorView {
        match self {
            ConnectionError::TcpBindFailed(s) => ConnectionErrorView::TcpBindFailed(s@),
            ConnectionError::TcpAcceptFailed(s) => ConnectionErrorView::TcpAcceptFailed(s@),
            ConnectionError::TcpSetNodelayFailed(s) => ConnectionErrorView::TcpSetNodelayFailed(s@),
            ConnectionError::HandshakeTimeout => ConnectionErrorView::HandshakeTimeout,
            ConnectionError::HandshakeFailed(s) => ConnectionErrorView::HandshakeFailed(s@),
            ConnectionError::AuthenticationFailed(s) => ConnectionErrorView::AuthenticationFailed(s@),
            ConnectionError::InvalidMessage(s) => ConnectionErrorView::InvalidMessage(s@),
            ConnectionError::MessageParseError(s) => ConnectionErrorView::MessageParseError(s@),
            ConnectionError::SerializationError(s) => ConnectionErrorView::SerializationError(s@),
            ConnectionError::SendError(s) => ConnectionErrorView::SendError(s@),
            ConnectionError::ReceiveError(s) => ConnectionErrorView::ReceiveError(s@),
            ConnectionError::ProtocolError(s) => ConnectionErrorView::ProtocolError(s@),
            ConnectionError::ChannelClosed => ConnectionErrorView::ChannelClosed,
            ConnectionError::IdleTimeout => ConnectionErrorView::IdleTimeout,
            ConnectionError::Unknown(s) => ConnectionErrorView::Unknown(s@),
        }
    }
}

impl Clone for ConnectionError {
    fn clone(&self) -> (copy: Self)
        ensures
            copy@ == self@,
    {
        match self {
            ConnectionError::TcpBindFailed(s) => ConnectionError::TcpBindFailed(s.clone()),
            ConnectionError::TcpAcceptFailed(s) => ConnectionError::TcpAcceptFailed(s.clone()),
            ConnectionError::TcpSetNodelayFailed(s) => ConnectionError::TcpSetNodelayFailed(s.clone()),
            ConnectionError::HandshakeTimeout => ConnectionError::HandshakeTimeout,
            ConnectionError::HandshakeFailed(s) => ConnectionError::HandshakeFailed(s.clone()),
            ConnectionError::AuthenticationFailed(s) => ConnectionError::AuthenticationFailed(s.clone()),
            ConnectionError::InvalidMessage(s) => ConnectionError::InvalidMessage(s.clone()),
            ConnectionError::MessageParseError(s) => ConnectionError::MessageParseError(s.clone()),
            ConnectionError::SerializationError(s) => ConnectionError::SerializationError(s.clone()),
            ConnectionError::SendError(s) => ConnectionError::SendError(s.clone()),
            ConnectionError::ReceiveError(s) => ConnectionError::ReceiveError(s.clone()),
            ConnectionError::ProtocolError(s) => ConnectionError::ProtocolError(s.clone()),
            ConnectionError::ChannelClosed => ConnectionError::ChannelClosed,
            ConnectionError::IdleTimeout => ConnectionError::IdleTimeout,
            ConnectionError::Unknown(s) => ConnectionError::Unknown(s.clone()),
        }
    }
}

impl ConnectionError {
    /// The sentence that describes the failure.
    pub fn to_string(&self) -> (text: String)
        ensures
            text@ == self@.message(),
    {
        match self {
            ConnectionError::TcpBindFailed(s) => join("TCP bind failed: ", s.as_str()),
            ConnectionError::TcpAcceptFailed(s) => join("TCP accept failed: ", s.as_str()),
            ConnectionError::TcpSetNodelayFailed(s) => join("TCP set nodelay failed: ", s.as_str()),
            ConnectionError::HandshakeTimeout => "WebSocket handshake timed out".to_owned(),
            ConnectionError::HandshakeFailed(s) => join("WebSocket handshake failed: ", s.as_str()),
            ConnectionError::AuthenticationFailed(s) => join("Authentication failed: ", s.as_str()),
            ConnectionError::InvalidMessage(s) => join("Invalid message: ", s.as_str()),
            ConnectionError::MessageParseError(s) => join("Message parse error: ", s.as_str()),
            ConnectionError::SerializationError(s) => join("Serialization error: ", s.as_str()),
            ConnectionError::SendError(s) => join("Send error: ", s.as_str()),
            ConnectionError::ReceiveError(s) => join("Receive error: ", s.as_str()),
            ConnectionError::ProtocolError(s) => join("Protocol error: ", s.as_str()),
            ConnectionError::ChannelClosed => "Channel closed".to_owned(),
            ConnectionError::IdleTimeout => "Connection idle timeout".to_owned(),
            ConnectionError::Unknown(s) => join("Unknown error: ", s.as_str()),
        }
    }
}

/// The lifecycle state of one connection.
#[derive(Debug, PartialEq)]
pub enum ConnectionState {
    Initialized,
    TcpConnecting,
    TcpConnected,
    HandshakeInitiated,
    HandshakeCompleted,
    Authenticating,
    Authenticated,
    Ready,
    Processing,
    Sending,
    Receiving,
    PingSent,
    PongReceived,
    Idle,
    Closing,
    Closed,
    Error(ConnectionError),
    Terminated,
}

/// A [`ConnectionState`] whose error, if any, is a [`ConnectionErrorView`].
pub enum ConnectionStateView {
    Initialized,
    TcpConnecting,
    TcpConnected,
    HandshakeInitiated,
    HandshakeCompleted,
    Authenticating,
    Authenticated,
    Ready,
    Processing,
    Sending,
    Receiving,
    PingSent,
    PongReceived,
    Idle,
    Closing,
    Closed,
    Error(ConnectionErrorView),
    Terminated,
}

impl View for ConnectionState {
    type V = ConnectionStateView;

    open spec fn view(&self) -> ConnectionStateView {
        match self {
            ConnectionState::Initialized => ConnectionStateView::Initialized,
            ConnectionState::TcpConnecting => ConnectionStateView::TcpConnecting,
            ConnectionState::TcpConnected => ConnectionStateView::TcpConnected,
            ConnectionState::HandshakeInitiated => ConnectionStateView::HandshakeInitiated,
            ConnectionState::HandshakeCompleted => ConnectionStateView::HandshakeCompleted,
            ConnectionState::Authenticating => ConnectionStateView::Authenticating,
            ConnectionState::Authenticated => ConnectionStateView::Authenticated,
            ConnectionState::Ready => ConnectionStateView::Ready,
            ConnectionState::Processing => ConnectionStateView::Processing,
            ConnectionState::Sending => ConnectionStateView::Sending,
            ConnectionState::Receiving => ConnectionStateView::Receiving,
            ConnectionState::PingSent => ConnectionStateView::PingSent,
            ConnectionState::PongReceived => ConnectionStateView::PongReceived,
            ConnectionState::Idle => ConnectionStateView::Idle,
            ConnectionState::Closing => ConnectionStateView::Closing,
            ConnectionState::Closed => ConnectionStateView::Closed,
            ConnectionState::Error(e) => ConnectionStateView::Error(e@),
            ConnectionState::Terminated => ConnectionStateView::Terminated,
        }
    }
}

impl Clone for ConnectionState {
    fn clone(&self) -> (copy: Self)
        ensures
            copy@ == self@,
    {
        match self {
            ConnectionState::Initialized => ConnectionState::Initialized,
            ConnectionState::TcpConnecting => ConnectionState::TcpConnecting,
            ConnectionState::TcpConnected => ConnectionState::TcpConnected,
            ConnectionState::HandshakeInitiated => ConnectionState::HandshakeInitiated,
            ConnectionState::HandshakeCompleted => ConnectionState::HandshakeCompleted,
            ConnectionState::Authenticating => ConnectionState::Authenticating,
            ConnectionState::Authenticated => ConnectionState::Authenticated,
            ConnectionState::Ready => ConnectionState::Ready,
            ConnectionState::Processing => ConnectionState::Processing,
            ConnectionState::Sending => ConnectionState::Sending,
            ConnectionState::Receiving => ConnectionState::Receiving,
            ConnectionState::PingSent => ConnectionState::PingSent,
            ConnectionState::PongReceived => ConnectionState::PongReceived,
            ConnectionState::Idle => ConnectionState::Idle,
            ConnectionState::Closing => ConnectionState::Closing,
            ConnectionState::Closed => ConnectionState::Closed,
            ConnectionState::Error(e) => ConnectionState::Error(e.clone()),
            ConnectionState::Terminated => ConnectionState::Terminated,
        }
    }
}

impl ConnectionState {
    /// Whether the connection has failed.
    pub fn is_error(&self) -> (yes: bool)
        ensures
            yes == (self@ is Error),
    {
        match self {
            ConnectionState::Error(_) => true,
            _ => false,
        }
    }
}

/// The text of an optional description.
pub open spec fn reason_view(reason: Option<String>) -> Option<Seq<char>> {
    match reason {
        Some(text) => Some(text@),
        None => None,
    }
}

/// One entry of the transition log.
#[derive(Debug, PartialEq)]
pub struct StateTransition {
    pub from: ConnectionState,
    pub to: ConnectionState,
    /// When the transition was recorded, in milliseconds.
    pub timestamp: u64,
    pub reason: Option<String>,
}

pub struct StateTransitionView {
    pub from: ConnectionStateView,
    pub to: ConnectionStateView,
    pub timestamp: u64,
    pub reason: Option<Seq<char>>,
}

impl View for StateTransition {
    type V = StateTransitionView;

    open spec fn view(&self) -> StateTransitionView {
        StateTransitionView {
            from: self.from@,
            to: self.to@,
            timestamp: self.timestamp,
            reason: reason_view(self.reason),
        }
    }
}

impl Clone for StateTransition {
    fn clone(&self) -> (copy: Self)
        ensures
            copy@ == self@,
    {
        let reason = match &self.reason {
            Some(text) => Some(text.clone()),
            None => None,
        };
        StateTransition { from: self.from.clone(), to: self.to.clone(), timestamp: self.timestamp, reason }
    }
}

/// The counters of one connection and its transition log.
#[derive(Debug, PartialEq)]
pub struct ConnectionStats {
    pub messages_sent: u64,
    pub messages_received: u64,
    pub bytes_sent: u64,
    pub bytes_received: u64,
    pub errors_count: u64,
    pub reconnects: u64,
    pub state_history: Vec<StateTransition>,
    /// When the connection was accepted, in milliseconds.
    pub created_at: u64,
}

pub struct ConnectionStatsView {
    pub messages_sent: u64,
    pub messages_received: u64,
    pub bytes_sent: u64,
    pub bytes_received: u64,
    pub errors_count: u64,
    pub reconnects: u64,
    pub state_history: Seq<StateTransitionView>,
    pub created_at: u64,
}

impl ConnectionStatsView {
    /// Counters at zero and an empty log, for a connection accepted at `now`.
    pub open spec fn fresh(now: u64) -> ConnectionStatsView {
        ConnectionStatsView {
            messages_sent: 0,
            messages_received: 0,
            bytes_sent: 0,
            bytes_received: 0,
            errors_count: 0,
            reconnects: 0,
            state_history: Seq::empty(),
            created_at: now,
        }
    }

    /// The time of the latest entry of the log, or of the accept where the log
    /// is empty.
    pub open spec fn latest(self) -> u64 {
        if self.state_history.len() == 0 {
            self.created_at
        } else {
            self.state_history.last().timestamp
        }
    }

    /// The log is in the order of time, and starts no earlier than the accept.
    pub open spec fn time_ordered(self) -> bool {
        &&& forall|i: int|
            0 <= i < self.state_history.len() ==> self.created_at <= (
            #[trigger] self.state_history[i]).timestamp
        &&& forall|i: int, j: int|
            0 <= i <= j < self.state_history.len() ==> (#[trigger] self.state_history[i]).timestamp
                <= (#[trigger] self.state_history[j]).timestamp
    }

    /// The log with one more entry, stamped no earlier than the entry before.
    pub open spec fn record(
        self,
        from: ConnectionStateView,
        to: ConnectionStateView,
        reason: Option<Seq<char>>,
        now: u64,
    ) -> ConnectionStatsView {
        let timestamp = if now < self.latest() {
            self.latest()
        } else {
            now
        };
        ConnectionStatsView {
            state_history: self.state_history.push(StateTransitionView { from, to, timestamp, reason }),
            ..self
        }
    }
}

impl View for ConnectionStats {
    type V = ConnectionStatsView;

    open spec fn view(&self) -> ConnectionStatsView {
        ConnectionStatsView {
            messages_sent: self.messages_sent,
            messages_received: self.messages_received,
            bytes_sent: self.bytes_sent,
            bytes_received: self.bytes_received,
            errors_count: self.errors_count,
            reconnects: self.reconnects,
            state_history: self.state_history@.map_values(|t: StateTransition| t@),
            created_at: self.created_at,
        }
    }
}

impl Default for ConnectionStats {
    /// The counters of a connection accepted now.
    fn default() -> (stats: Self)
        ensures
            exists|now: u64| is_clock_time(now) && stats@ == #[trigger] ConnectionStatsView::fresh(now),
    {
        ConnectionStats::starting_at(now_millis())
    }
}

impl ConnectionStats {
    /// The counters of a connection accepted at `now`.
    pub fn starting_at(now: u64) -> (stats: Self)
        ensures
            stats@ == ConnectionStatsView::fresh(now),
    {
        let stats = ConnectionStats {
            messages_sent: 0,
            messages_received: 0,
            bytes_sent: 0,
            bytes_received: 0,
            errors_count: 0,
            reconnects: 0,
            state_history: Vec::new(),
            created_at: now,
        };
        assert(stats@.state_history =~= Seq::empty());
        stats
    }

    /// The time of the latest entry of the log.
    pub fn latest(&self) -> (t: u64)
        ensures
            t == self@.latest(),
    {
        let n = self.state_history.len();
        if n == 0 {
            self.created_at
        } else {
            self.state_history[n - 1].timestamp
        }
    }
}

/// A recorded log stays in the order of time.
pub proof fn lemma_record_keeps_order(
    stats: ConnectionStatsView,
    from: ConnectionStateView,
    to: ConnectionStateView,
    reason: Option<Seq<char>>,
    now: u64,
)
    requires
        stats.time_ordered(),
    ensures
        stats.record(from, to, reason, now).time_ordered(),
        stats.record(from, to, reason, now).latest() >= stats.latest(),
        stats.record(from, to, reason, now).latest() >= now,
{
    let after = stats.record(from, to, reason, now);
    let n = stats.state_history.len() as int;
    assert(after.state_history.len() == n + 1);
    assert forall|i: int| 0 <= i < after.state_history.len() implies stats.created_at <= (
    #[trigger] after.state_history[i]).timestamp by {
        if i < n {
            assert(after.state_history[i] == stats.state_history[i]);
        } else if n > 0 {
            assert(stats.state_history[n - 1].timestamp >= stats.created_at);
        }
    }
    assert forall|i: int, j: int| 0 <= i <= j < after.state_history.len() implies (
    #[trigger] after.state_history[i]).timestamp <= (#[trigger] after.state_history[j]).timestamp by {
        if j < n {
            assert(after.state_history[i] == stats.state_history[i]);
            assert(after.state_history[j] == stats.state_history[j]);
        } else if i < n {
            assert(after.state_history[i] == stats.state_history[i]);
            assert(stats.state_history[i].timestamp <= stats.state_history[n - 1].timestamp);
        }
    }
}

} // verus!
