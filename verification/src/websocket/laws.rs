//! What holds of every connection, proved of [`HandlerView::step`].

use vstd::prelude::*;
use crate::event_bus::EventView;
use crate::websocket::commands::reply_payload;
use crate::websocket::model::HandlerView;
use crate::websocket::notice::fault_notice;
use crate::websocket::protocol::{
    ConnectionActionView, ConnectionInputView, ExecutorReplyView, FrameFaultView, PendingView,
    SendReportView,
};
use crate::websocket::types::{
    lemma_record_keeps_order, ConnectionErrorView, ConnectionStateView, StateTransitionView,
};
use crate::websocket::wire::WebSocketEventView;

verus! {

/// The part of a handler's validity that concerns time.
#[verifier::opaque]
pub open spec fn in_time(h: HandlerView) -> bool {
    &&& h.stats.time_ordered()
    &&& h.stats.latest() <= h.clock
    &&& h.last_activity <= h.clock
}

proof fn lemma_in_time_is_kept()
    ensures
        forall|h: HandlerView, to: ConnectionStateView, reason: Seq<char>|
            in_time(h) ==> in_time(#[trigger] h.moved(to, reason)),
        forall|h: HandlerView, now: u64| in_time(h) ==> in_time(#[trigger] h.at(now)),
        forall|h: HandlerView| in_time(h) ==> in_time(#[trigger] h.touched()),
        forall|h: HandlerView| in_time(h) ==> in_time(#[trigger] h.erred()),
        forall|h: HandlerView| in_time(h) ==> in_time(#[trigger] h.sent_message()),
        forall|h: HandlerView, n: u64| in_time(h) ==> in_time(#[trigger] h.received(n)),
        forall|h: HandlerView, n: u64| in_time(h) ==> in_time(#[trigger] h.sent_bytes(n)),
        forall|h: HandlerView, p: PendingView| in_time(h) ==> in_time(#[trigger] h.awaiting(p)),
        forall|h: HandlerView, r: SendReportView| in_time(h) ==> in_time(#[trigger] h.written(r)),
{
    reveal(in_time);
    assert forall|h: HandlerView, to: ConnectionStateView, reason: Seq<char>| in_time(h) implies in_time(
        #[trigger] h.moved(to, reason),
    ) by {
        lemma_record_keeps_order(h.stats, h.state, to, Some(reason), h.clock);
    }
}

proof fn lemma_finished_in_time(h: HandlerView)
    requires
        in_time(h),
    ensures
        in_time(h.finished().0),
{
    lemma_in_time_is_kept();
}

proof fn lemma_sent_in_time(h: HandlerView, report: SendReportView, now: u64)
    requires
        in_time(h),
    ensures
        in_time(h.on_sent(report, now).0),
{
    lemma_in_time_is_kept();
    let t = h.at(now);
    match h.pending {
        PendingView::ReplySent { request, binary } => {
            match report {
                SendReportView::Delivered { bytes } => {},
                SendReportView::EncodeFailed(e) => {
                    lemma_finished_in_time(t.failed(ConnectionErrorView::SerializationError(e), e));
                },
                SendReportView::TransportFailed { bytes, message } => {
                    lemma_finished_in_time(
                        t.sent_bytes(bytes).failed(ConnectionErrorView::SendError(message), message),
                    );
                },
            }
        },
        PendingView::PongSent => {
            match report {
                SendReportView::Delivered { bytes } => {},
                SendReportView::EncodeFailed(e) => {
                    lemma_finished_in_time(t.failed(ConnectionErrorView::SerializationError(e), e));
                },
                SendReportView::TransportFailed { bytes, message } => {
                    lemma_finished_in_time(t.failed(ConnectionErrorView::SendError(message), message));
                },
            }
        },
        PendingView::RelaySent => {
            match report {
                SendReportView::Delivered { bytes } => {},
                SendReportView::EncodeFailed(e) => {
                    lemma_finished_in_time(t.failed(ConnectionErrorView::SerializationError(e), e));
                },
                SendReportView::TransportFailed { bytes, message } => {
                    lemma_finished_in_time(t.failed(ConnectionErrorView::SendError(message), message));
                },
            }
        },
        PendingView::LastNoticeSent => {
            lemma_finished_in_time(t);
        },
        _ => {},
    }
}

proof fn lemma_step_in_time(h: HandlerView, input: ConnectionInputView, now: u64)
    requires
        in_time(h),
    ensures
        in_time(h.step(input, now).0),
{
    lemma_in_time_is_kept();
    match input {
        ConnectionInputView::Close => {
            lemma_finished_in_time(
                h.taken_up(0, now).moved(ConnectionStateView::Closing, "Close frame received"@),
            );
        },
        ConnectionInputView::StreamEnded => {
            lemma_finished_in_time(h.at(now).touched().moved(ConnectionStateView::Closed, "Stream ended"@));
        },
        ConnectionInputView::IdleTimer => {
            lemma_finished_in_time(h.at(now).erred().moved(ConnectionStateView::Closing, "Idle timeout"@));
        },
        ConnectionInputView::Sent(report) => {
            lemma_sent_in_time(h, report, now);
        },
        _ => {},
    }
}

/// A fresh handler is valid.
pub proof fn lemma_fresh_is_valid(now: u64, idle_timeout: u64, transport_class: Seq<char>)
    ensures
        HandlerView::fresh(now, idle_timeout, transport_class).wf(),
{
}

/// A step keeps a valid handler valid: the log stays in the order of time, the
/// handler waits for input only when ready, and it is over only in a state
/// that ends a connection.
pub proof fn lemma_step_keeps_valid(h: HandlerView, input: ConnectionInputView, now: u64)
    requires
        h.wf(),
    ensures
        h.step(input, now).0.wf(),
{
    assert(in_time(h)) by {
        reveal(in_time);
    }
    lemma_step_in_time(h, input, now);
    let after = h.step(input, now).0;
    assert(after.stats.time_ordered() && after.stats.latest() <= after.clock && after.last_activity
        <= after.clock) by {
        reveal(in_time);
    }
    assert(after.pending is Input ==> after.state is Ready);
    assert(after.pending is LastNoticeSent ==> after.state is Error);
    assert(after.pending is Nothing ==> after.state is Closed || after.state is Terminated || after.state
        is Error);
}

/// Whether `after` holds everything that `before` holds, in the same places.
pub open spec fn extends(before: Seq<StateTransitionView>, after: Seq<StateTransitionView>) -> bool {
    before.len() <= after.len() && forall|i: int| 0 <= i < before.len() ==> after[i] == before[i]
}

proof fn lemma_finished_extends(log: Seq<StateTransitionView>, h: HandlerView)
    requires
        extends(log, h.stats.state_history),
    ensures
        extends(log, h.finished().0.stats.state_history),
{
}

proof fn lemma_sent_extends(h: HandlerView, report: SendReportView, now: u64)
    ensures
        extends(h.stats.state_history, h.on_sent(report, now).0.stats.state_history),
{
    let log = h.stats.state_history;
    let t = h.at(now);
    match h.pending {
        PendingView::ReplySent { request, binary } => {
            match report {
                SendReportView::Delivered { bytes } => {},
                SendReportView::EncodeFailed(e) => {
                    lemma_finished_extends(log, t.failed(ConnectionErrorView::SerializationError(e), e));
                },
                SendReportView::TransportFailed { bytes, message } => {
                    lemma_finished_extends(
                        log,
                        t.sent_bytes(bytes).failed(ConnectionErrorView::SendError(message), message),
                    );
                },
            }
        },
        PendingView::PongSent => {
            match report {
                SendReportView::Delivered { bytes } => {},
                SendReportView::EncodeFailed(e) => {
                    lemma_finished_extends(log, t.failed(ConnectionErrorView::SerializationError(e), e));
                },
                SendReportView::TransportFailed { bytes, message } => {
                    lemma_finished_extends(log, t.failed(ConnectionErrorView::SendError(message), message));
                },
            }
        },
        PendingView::RelaySent => {
            match report {
                SendReportView::Delivered { bytes } => {},
                SendReportView::EncodeFailed(e) => {
                    lemma_finished_extends(log, t.failed(ConnectionErrorView::SerializationError(e), e));
                },
                SendReportView::TransportFailed { bytes, message } => {
                    lemma_finished_extends(log, t.failed(ConnectionErrorView::SendError(message), message));
                },
            }
        },
        PendingView::LastNoticeSent => {
            lemma_finished_extends(log, t);
        },
        _ => {},
    }
}

/// The log only grows: what was logged before a step is still there after it,
/// in the same places.
pub proof fn lemma_log_is_append_only(h: HandlerView, input: ConnectionInputView, now: u64)
    ensures
        extends(h.stats.state_history, h.step(input, now).0.stats.state_history),
{
    let log = h.stats.state_history;
    match input {
        ConnectionInputView::Close => {
            lemma_finished_extends(
                log,
                h.taken_up(0, now).moved(ConnectionStateView::Closing, "Close frame received"@),
            );
        },
        ConnectionInputView::StreamEnded => {
            lemma_finished_extends(log, h.at(now).touched().moved(ConnectionStateView::Closed, "Stream ended"@));
        },
        ConnectionInputView::IdleTimer => {
            lemma_finished_extends(log, h.at(now).erred().moved(ConnectionStateView::Closing, "Idle timeout"@));
        },
        ConnectionInputView::Sent(report) => {
            lemma_sent_extends(h, report, now);
        },
        _ => {},
    }
}

/// The time that a message carries, if the action writes one.
pub open spec fn stamp_of(action: ConnectionActionView) -> Option<u64> {
    match action {
        ConnectionActionView::SendMessage(message) => Some(message.timestamp),
        ConnectionActionView::SendError(error) => Some(error.timestamp),
        _ => None,
    }
}

/// The clock of a handler never goes back, and whatever a step writes carries
/// the clock's time after the step: the times of the messages sent on a
/// connection never decrease.
pub proof fn lemma_stamps_never_decrease(h: HandlerView, input: ConnectionInputView, now: u64)
    ensures
        h.clock <= h.step(input, now).0.clock,
        forall|i: int|
            0 <= i < h.step(input, now).1.len() ==> (stamp_of(#[trigger] h.step(input, now).1[i]) matches Some(
                t,
            ) ==> t == h.step(input, now).0.clock),
{
}

/// A step changes neither the idle window nor the origin that the connection
/// is not relayed.
pub proof fn lemma_settings_are_kept(h: HandlerView, input: ConnectionInputView, now: u64)
    ensures
        h.step(input, now).0.idle_timeout == h.idle_timeout,
        h.step(input, now).0.transport_class == h.transport_class,
{
}

/// A request is answered once, under its own identifier. A handler that waits
/// for input takes a message up by calling the executor; whatever the executor
/// answers, the handler then writes exactly one message, which carries the
/// identifier and the name of the request and comes from the backend; and once
/// that message is written the handler is ready again and publishes the
/// request on the bus, under the source it came with.
pub proof fn lemma_request_is_answered_once(
    h: HandlerView,
    request: WebSocketEventView,
    binary: bool,
    size: u64,
    reply: ExecutorReplyView,
    bytes: u64,
    t1: u64,
    t2: u64,
    t3: u64,
)
    requires
        h.pending is Input,
    ensures
        ({
            let (h1, a1) = h.step(ConnectionInputView::Request { message: request, binary, size }, t1);
            let (h2, a2) = h1.step(ConnectionInputView::Executed(reply), t2);
            let (h3, a3) = h2.step(ConnectionInputView::Sent(SendReportView::Delivered { bytes }), t3);
            &&& a1 == seq![ConnectionActionView::Execute { name: request.name, payload: request.payload }]
            &&& a2 == seq![
                ConnectionActionView::SendMessage(
                    WebSocketEventView {
                        id: request.id,
                        name: request.name,
                        payload: reply_payload(request.name, reply),
                        timestamp: h2.clock,
                        source: "backend"@,
                    },
                ),
            ]
            &&& a3 == seq![
                ConnectionActionView::Publish {
                    name: request.name,
                    payload: request.payload,
                    source: request.source,
                },
            ]
            &&& h3.state is Ready
            &&& h3.pending is Input
        }),
{
}

/// A frame that holds no message does not end the connection. The handler
/// answers it with one error and nothing else; whether or not that error can be
/// written, the handler is ready again afterwards, and the next request is
/// taken up as any other.
pub proof fn lemma_malformed_frame_is_survived(
    h: HandlerView,
    fault: FrameFaultView,
    size: u64,
    report: SendReportView,
    next: WebSocketEventView,
    t1: u64,
    t2: u64,
    t3: u64,
)
    requires
        h.pending is Input,
    ensures
        ({
            let (h1, a1) = h.step(ConnectionInputView::Malformed { fault, size }, t1);
            let (h2, a2) = h1.step(ConnectionInputView::Sent(report), t2);
            let (h3, a3) = h2.step(ConnectionInputView::Request { message: next, binary: false, size }, t3);
            &&& a1 == seq![ConnectionActionView::SendError(fault_notice(fault, h1.clock))]
            &&& a2.len() == 0
            &&& h2.state is Ready
            &&& h2.pending is Input
            &&& a3 == seq![ConnectionActionView::Execute { name: next.name, payload: next.payload }]
        }),
{
}

/// Loop prevention: an event whose source is the connection's own side is
/// never written to the connection. It changes nothing and causes nothing,
/// whatever the handler is doing.
pub proof fn lemma_own_events_are_not_relayed(h: HandlerView, event: EventView, now: u64)
    requires
        event.source == h.transport_class,
    ensures
        h.step(ConnectionInputView::Relay(event), now) == (h, Seq::<ConnectionActionView>::empty()),
{
}

/// An event from elsewhere is written to a connection that waits for input,
/// with its identifier, name, payload and source.
pub proof fn lemma_other_events_are_relayed(h: HandlerView, event: EventView, now: u64)
    requires
        h.pending is Input,
        event.source != h.transport_class,
    ensures
        h.step(ConnectionInputView::Relay(event), now).1 == seq![
            ConnectionActionView::SendMessage(
                WebSocketEventView {
                    id: event.id,
                    name: event.name,
                    payload: event.payload,
                    timestamp: h.step(ConnectionInputView::Relay(event), now).0.clock,
                    source: event.source,
                },
            ),
        ],
{
}

/// A connection that has been idle for its whole window is closed when the
/// timer fires: it passes through `Closing` to `Closed`, both logged, asks for
/// no write, and is over.
pub proof fn lemma_idle_connection_is_closed(h: HandlerView, now: u64)
    requires
        h.wf(),
        h.pending is Input,
        h.idle_at(now),
    ensures
        ({
            let (after, actions) = h.step(ConnectionInputView::IdleTimer, now);
            let log = after.stats.state_history;
            &&& after.state is Closed
            &&& after.is_over()
            &&& log.len() == h.stats.state_history.len() + 2
            &&& log[log.len() - 2].from is Ready
            &&& log[log.len() - 2].to is Closing
            &&& log[log.len() - 1].from is Closing
            &&& log[log.len() - 1].to is Closed
            &&& forall|i: int| 0 <= i < actions.len() ==> !(#[trigger] actions[i]).is_write()
        }),
{
    let ready = h.at(now).erred();
    assert(ready.stats.latest() <= ready.clock);
    lemma_record_keeps_order(ready.stats, ready.state, ConnectionStateView::Closing, Some("Idle timeout"@), ready.clock);
}

/// The idle timer does nothing to a connection that has had traffic within its
/// window.
pub proof fn lemma_busy_connection_stays_open(h: HandlerView, now: u64)
    requires
        !h.idle_at(now),
    ensures
        h.step(ConnectionInputView::IdleTimer, now) == (h, Seq::<ConnectionActionView>::empty()),
{
}

/// A failure of the transport ends the connection. The handler records the
/// failure by its kind, tells the client of it once, and, whether or not that
/// can be written, ends as `Terminated` without a close frame.
pub proof fn lemma_transport_failure_is_terminal(
    h: HandlerView,
    error: Seq<char>,
    report: SendReportView,
    t1: u64,
    t2: u64,
)
    requires
        h.pending is Input,
    ensures
        ({
            let (h1, a1) = h.step(ConnectionInputView::TransportFailed(error), t1);
            let (h2, a2) = h1.step(ConnectionInputView::Sent(report), t2);
            &&& h1.state == ConnectionStateView::Error(ConnectionErrorView::ProtocolError(error))
            &&& a1.len() == 1
            &&& a1[0] is SendError
            &&& h2.state is Terminated
            &&& h2.is_over()
            &&& a2 == seq![ConnectionActionView::CancelRelay, ConnectionActionView::NotifyClosed]
        }),
{
    let (h1, a1) = h.step(ConnectionInputView::TransportFailed(error), t1);
    let (h2, a2) = h1.step(ConnectionInputView::Sent(report), t2);
    assert(a2 =~= seq![ConnectionActionView::CancelRelay, ConnectionActionView::NotifyClosed]);
}

/// A reply that cannot be written ends the connection too, and the request is
/// not published: a failure to encode is recorded as a serialization error, a
/// refusal of the socket as a send error.
pub proof fn lemma_unwritten_reply_is_terminal(
    h: HandlerView,
    request: WebSocketEventView,
    binary: bool,
    report: SendReportView,
    now: u64,
)
    requires
        h.pending == (PendingView::ReplySent { request, binary }),
        !(report is Delivered),
    ensures
        ({
            let (after, actions) = h.step(ConnectionInputView::Sent(report), now);
            &&& after.state is Terminated
            &&& after.is_over()
            &&& actions == seq![ConnectionActionView::CancelRelay, ConnectionActionView::NotifyClosed]
            &&& after.stats.errors_count == crate::websocket::model::bump(h.stats.errors_count)
        }),
{
    let (after, actions) = h.step(ConnectionInputView::Sent(report), now);
    assert(actions =~= seq![ConnectionActionView::CancelRelay, ConnectionActionView::NotifyClosed]);
}

/// A connection that is over stays as it is and asks for nothing more,
/// whatever happens: nothing is written after the end.
pub proof fn lemma_over_is_silent(h: HandlerView, input: ConnectionInputView, now: u64)
    requires
        h.is_over(),
    ensures
        h.step(input, now) == (h, Seq::<ConnectionActionView>::empty()),
{
}

/// A connection ends in one step only by closing or by failing, and then it
/// has asked for its subscription to the bus to be cancelled, unless it never
/// had one.
pub proof fn lemma_end_cancels_the_relay(h: HandlerView, input: ConnectionInputView, now: u64)
    requires
        h.wf(),
        !h.is_over(),
        h.step(input, now).0.is_over(),
        !(h.pending is NoDelay),
        !(h.pending is Handshake),
    ensures
        h.step(input, now).1.contains(ConnectionActionView::CancelRelay),
        h.step(input, now).0.state is Closed || h.step(input, now).0.state is Terminated,
{
    let actions = h.step(input, now).1;
    assert(actions[actions.len() - 2] == ConnectionActionView::CancelRelay);
}

} // verus!
