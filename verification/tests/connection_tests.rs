use rustwebui_app::event_bus::{Event, EventBus, EventHandler};
use rustwebui_app::websocket::commands::{execute, BackendData, CommandEffect};
use rustwebui_app::websocket::frame::{read_frame, Frame};
use rustwebui_app::websocket::handler::WebSocketHandler;
use rustwebui_app::websocket::protocol::{
    ConnectionAction, ConnectionInput, ExecutorReply, FrameFault, HandshakeOutcome, Pending,
    SendReport, DEFAULT_IDLE_TIMEOUT_MS, HANDSHAKE_TIMEOUT_MS,
};
use rustwebui_app::websocket::types::{
    ConnectionError, ConnectionState, ConnectionStats, StateTransition,
};
use rustwebui_app::websocket::wire::{WebSocketError, WebSocketEvent};

struct Silent;

impl EventHandler for Silent {
    fn handle(&self, _event: &Event) -> Result<(), String> {
        Ok(())
    }
}

fn parse(text: &str) -> serde_json::Value {
    serde_json::from_str(text).unwrap()
}

fn ready_at(now: u64) -> WebSocketHandler {
    let mut handler = WebSocketHandler::starting_at(now, 1_000, "frontend");
    assert_eq!(handler.handle_connection(ConnectionInput::Accepted, now), vec![ConnectionAction::SetNoDelay]);
    assert_eq!(
        handler.handle_connection(ConnectionInput::NoDelay(Ok(())), now),
        vec![ConnectionAction::AcceptHandshake { timeout_ms: 10_000 }]
    );
    assert_eq!(
        handler.handle_connection(ConnectionInput::Handshake(HandshakeOutcome::Completed), now),
        vec![ConnectionAction::OpenRelay]
    );
    handler
}

fn states(handler: &WebSocketHandler) -> Vec<ConnectionState> {
    handler.stats().state_history.iter().map(|t| t.to.clone()).collect()
}

fn reasons(handler: &WebSocketHandler) -> Vec<String> {
    handler.stats().state_history.iter().map(|t| t.reason.clone().unwrap()).collect()
}

#[test]
fn a_connection_comes_up_through_the_handshake() {
    let handler = ready_at(50);
    assert_eq!(handler.state(), &ConnectionState::Ready);
    assert_eq!(handler.pending(), &Pending::Input);
    assert!(handler.awaits_input());
    assert!(!handler.is_over());
    assert_eq!(
        states(&handler),
        vec![
            ConnectionState::TcpConnecting,
            ConnectionState::TcpConnected,
            ConnectionState::HandshakeInitiated,
            ConnectionState::HandshakeCompleted,
            ConnectionState::Authenticated,
            ConnectionState::Ready,
        ]
    );
    assert_eq!(
        reasons(&handler),
        vec![
            "TCP connection started",
            "TCP connected",
            "WebSocket handshake started",
            "Handshake completed",
            "Connection authenticated",
            "Connection ready",
        ]
    );
    assert_eq!(handler.stats().state_history[0].from, ConnectionState::Initialized);
    assert_eq!(handler.stats().state_history[5].from, ConnectionState::Authenticated);
    assert_eq!(handler.stats().created_at, 50);
    assert_eq!(HANDSHAKE_TIMEOUT_MS, 10_000);
    assert_eq!(DEFAULT_IDLE_TIMEOUT_MS, 300_000);
}

#[test]
fn a_new_handler_waits_to_be_accepted() {
    let handler = WebSocketHandler::new();
    assert_eq!(handler.state(), &ConnectionState::Initialized);
    assert_eq!(handler.pending(), &Pending::Accept);
    assert_eq!(handler.stats().state_history.len(), 0);
    assert_eq!(handler.stats().messages_sent, 0);
    assert_eq!(handler.stats().errors_count, 0);
}

#[test]
fn a_failed_handshake_ends_the_connection() {
    let mut handler = WebSocketHandler::starting_at(0, 1_000, "frontend");
    handler.handle_connection(ConnectionInput::Accepted, 1);
    handler.handle_connection(ConnectionInput::NoDelay(Ok(())), 2);
    let actions =
        handler.handle_connection(ConnectionInput::Handshake(HandshakeOutcome::Failed("bad upgrade".to_string())), 3);
    assert_eq!(actions, vec![]);
    assert_eq!(
        handler.state(),
        &ConnectionState::Error(ConnectionError::HandshakeFailed("bad upgrade".to_string()))
    );
    assert!(handler.is_over());
    assert_eq!(handler.stats().errors_count, 1);
    assert_eq!(handler.stats().state_history.last().unwrap().reason, Some("bad upgrade".to_string()));

    let mut late = WebSocketHandler::starting_at(0, 1_000, "frontend");
    late.handle_connection(ConnectionInput::Accepted, 1);
    late.handle_connection(ConnectionInput::NoDelay(Ok(())), 2);
    assert_eq!(late.handle_connection(ConnectionInput::Handshake(HandshakeOutcome::TimedOut), 10_002), vec![]);
    assert_eq!(late.state(), &ConnectionState::Error(ConnectionError::HandshakeTimeout));
    assert_eq!(late.stats().state_history.last().unwrap().reason, Some("Handshake timeout".to_string()));
    assert!(late.is_over());

    let mut refused = WebSocketHandler::starting_at(0, 1_000, "frontend");
    refused.handle_connection(ConnectionInput::Accepted, 1);
    assert_eq!(refused.handle_connection(ConnectionInput::NoDelay(Err("no socket".to_string())), 2), vec![]);
    assert_eq!(
        refused.state(),
        &ConnectionState::Error(ConnectionError::TcpSetNodelayFailed("no socket".to_string()))
    );
    assert!(refused.is_over());
}

#[test]
fn a_request_for_users_is_answered_and_republished() {
    let mut handler = ready_at(100);
    let text = "{\"id\":\"1\",\"name\":\"get_users\",\"payload\":{},\"timestamp\":1700000000000,\"source\":\"frontend\"}";
    let input = read_frame(Frame::Text(text.to_string()));
    let request = WebSocketEvent {
        id: "1".to_string(),
        name: "get_users".to_string(),
        payload: parse("{}"),
        timestamp: 1_700_000_000_000,
        source: "frontend".to_string(),
    };
    assert_eq!(
        input,
        ConnectionInput::Request { message: request.clone(), binary: false, size: text.len() as u64 }
    );

    let actions = handler.handle_connection(input, 110);
    assert_eq!(actions, vec![ConnectionAction::Execute { name: "get_users".to_string(), payload: parse("{}") }]);
    assert_eq!(handler.state(), &ConnectionState::Processing);
    assert_eq!(handler.stats().messages_received, 1);
    assert_eq!(handler.stats().bytes_received, text.len() as u64);

    let users = vec![parse("{\"id\":1,\"name\":\"John Doe\",\"email\":\"john@example.com\",\"role\":\"admin\"}")];
    let (reply, effect) = execute("get_users", &parse("{}"), BackendData::Users(users));
    assert_eq!(effect, CommandEffect::Nothing);
    let reply = reply.unwrap();
    assert_eq!(
        reply,
        parse("{\"success\":true,\"data\":[{\"id\":1,\"name\":\"John Doe\",\"email\":\"john@example.com\",\"role\":\"admin\"}]}")
    );

    let actions = handler.handle_connection(ConnectionInput::Executed(ExecutorReply::Replied(reply.clone())), 120);
    let answer = WebSocketEvent {
        id: "1".to_string(),
        name: "get_users".to_string(),
        payload: reply,
        timestamp: 120,
        source: "backend".to_string(),
    };
    assert_eq!(actions, vec![ConnectionAction::SendMessage(answer.clone())]);
    assert_eq!(handler.state(), &ConnectionState::Sending);
    let written = answer.encode().unwrap();
    assert_eq!(
        written,
        "{\"id\":\"1\",\"name\":\"get_users\",\"payload\":{\"data\":[{\"email\":\"john@example.com\",\"id\":1,\"name\":\"John Doe\",\"role\":\"admin\"}],\"success\":true},\"source\":\"backend\",\"timestamp\":120}"
    );

    let actions = handler.handle_connection(
        ConnectionInput::Sent(SendReport::Delivered { bytes: written.len() as u64 }),
        130,
    );
    assert_eq!(
        actions,
        vec![ConnectionAction::Publish {
            name: "get_users".to_string(),
            payload: parse("{}"),
            source: "frontend".to_string(),
        }]
    );
    assert_eq!(handler.state(), &ConnectionState::Ready);
    assert!(handler.awaits_input());
    assert_eq!(handler.stats().messages_sent, 1);
    assert_eq!(handler.stats().bytes_sent, written.len() as u64);
    assert_eq!(handler.stats().errors_count, 0);
    assert_eq!(
        states(&handler)[6..].to_vec(),
        vec![
            ConnectionState::Receiving,
            ConnectionState::Processing,
            ConnectionState::Sending,
            ConnectionState::Ready,
        ]
    );
    assert_eq!(
        reasons(&handler)[6..].to_vec(),
        vec!["Receiving message", "Processing text message", "Sending response", "Response sent, ready"]
    );

    let mut bus: EventBus<Silent> = EventBus::new();
    let listener = bus.listen();
    match &actions[0] {
        ConnectionAction::Publish { name, payload, source } => {
            let event = Event::new(name.clone(), payload.clone(), source.clone());
            assert_eq!(event.id.len(), 36);
            bus.emit(event).unwrap();
        }
        _ => unreachable!(),
    }
    let seen = bus.receive(listener).unwrap();
    assert_eq!(seen.name, "get_users");
    assert_eq!(seen.source, "frontend");
    assert_eq!(seen.payload, parse("{}"));
}

#[test]
fn text_that_is_no_json_gets_an_error_and_the_connection_goes_on() {
    let mut handler = ready_at(100);
    let input = read_frame(Frame::Text("not json".to_string()));
    let (raw, problem) = match &input {
        ConnectionInput::Malformed { fault: FrameFault::Text { raw, problem }, size } => {
            assert_eq!(*size, 8);
            (raw.clone(), problem.clone())
        }
        other => panic!("read as {:?}", other),
    };
    assert_eq!(raw, "not json");
    assert_eq!(problem, "expected ident at line 1 column 2");

    let actions = handler.handle_connection(input, 105);
    assert_eq!(actions.len(), 1);
    let notice = match &actions[0] {
        ConnectionAction::SendError(error) => error.clone(),
        other => panic!("asked for {:?}", other),
    };
    assert_eq!(notice.id, "parse_error");
    assert_eq!(notice.error_type, "JSON_PARSE_ERROR");
    assert_eq!(notice.message, "Invalid JSON format");
    assert_eq!(notice.timestamp, 105);
    assert_eq!(
        notice.details,
        Some(parse("{\"raw_message\":\"not json\",\"parse_error\":\"expected ident at line 1 column 2\"}"))
    );
    assert_eq!(
        notice.encode().unwrap(),
        "{\"details\":{\"parse_error\":\"expected ident at line 1 column 2\",\"raw_message\":\"not json\"},\"error_type\":\"JSON_PARSE_ERROR\",\"id\":\"parse_error\",\"message\":\"Invalid JSON format\",\"timestamp\":105}"
    );
    assert_eq!(handler.stats().errors_count, 1);
    assert_eq!(handler.stats().messages_received, 1);
    assert_eq!(handler.pending(), &Pending::NoticeSent);

    let after = handler.handle_connection(
        ConnectionInput::Sent(SendReport::TransportFailed { bytes: 0, message: "gone".to_string() }),
        106,
    );
    assert_eq!(after, vec![]);
    assert_eq!(handler.state(), &ConnectionState::Ready);
    assert!(handler.awaits_input());
    assert!(!handler.is_over());
    assert_eq!(handler.stats().errors_count, 1);
    assert_eq!(handler.stats().messages_sent, 0);
    assert_eq!(handler.idle_remaining(106), 999);

    let next = read_frame(Frame::Text(
        "{\"id\":\"2\",\"name\":\"ui.ready\",\"payload\":null,\"timestamp\":7,\"source\":\"frontend\"}".to_string(),
    ));
    assert_eq!(
        handler.handle_connection(next, 107),
        vec![ConnectionAction::Execute { name: "ui.ready".to_string(), payload: serde_json::Value::Null }]
    );
    let (reply, _) = execute("ui.ready", &serde_json::Value::Null, BackendData::Missing);
    let sent = handler.handle_connection(ConnectionInput::Executed(ExecutorReply::Replied(reply.unwrap())), 108);
    match &sent[0] {
        ConnectionAction::SendMessage(message) => {
            assert_eq!(message.id, "2");
            assert_eq!(message.source, "backend");
            assert_eq!(
                message.payload,
                parse("{\"success\":true,\"message\":\"UI ready event processed, backend connected\"}")
            );
        }
        other => panic!("asked for {:?}", other),
    }
}

#[test]
fn long_text_is_quoted_by_its_first_two_hundred_characters() {
    let text = "é".repeat(250);
    let input = read_frame(Frame::Text(text.clone()));
    match input {
        ConnectionInput::Malformed { fault: FrameFault::Text { raw, .. }, size } => {
            assert_eq!(raw, "é".repeat(200));
            assert_eq!(size, 500);
        }
        other => panic!("read as {:?}", other),
    }
}

#[test]
fn json_that_is_no_message_names_the_field_at_fault() {
    let cases = [
        ("{}", "id"),
        ("[1,2]", "id"),
        ("{\"id\":1}", "id"),
        ("{\"id\":\"1\"}", "name"),
        ("{\"id\":\"1\",\"name\":\"n\"}", "payload"),
        ("{\"id\":\"1\",\"name\":\"n\",\"payload\":{}}", "timestamp"),
        ("{\"id\":\"1\",\"name\":\"n\",\"payload\":{},\"timestamp\":-1}", "timestamp"),
        ("{\"id\":\"1\",\"name\":\"n\",\"payload\":{},\"timestamp\":1.5}", "timestamp"),
        ("{\"id\":\"1\",\"name\":\"n\",\"payload\":{},\"timestamp\":\"1\"}", "timestamp"),
        ("{\"id\":\"1\",\"name\":\"n\",\"payload\":{},\"timestamp\":1}", "source"),
        ("{\"id\":\"1\",\"name\":\"n\",\"payload\":{},\"timestamp\":1,\"source\":null}", "source"),
    ];
    for (text, field) in cases {
        assert_eq!(
            WebSocketEvent::decode(text),
            Err(format!("missing or invalid field `{}`", field)),
            "{}",
            text
        );
    }
    let most = WebSocketEvent::decode(
        "{\"id\":\"\",\"name\":\"\",\"payload\":null,\"timestamp\":18446744073709551615,\"source\":\"\",\"more\":1}",
    )
    .unwrap();
    assert_eq!(most.timestamp, u64::MAX);
    assert_eq!(most.payload, serde_json::Value::Null);
    assert_eq!(most.id, "");
}

#[test]
fn binary_frames_are_read_as_text() {
    let text = "{\"id\":\"b\",\"name\":\"window.state.change\",\"payload\":{\"id\":\"w\"},\"timestamp\":3,\"source\":\"frontend\"}";
    let mut handler = ready_at(0);
    let input = read_frame(Frame::Binary(text.as_bytes().to_vec()));
    match &input {
        ConnectionInput::Request { message, binary, size } => {
            assert_eq!(message.id, "b");
            assert!(*binary);
            assert_eq!(*size, text.len() as u64);
        }
        other => panic!("read as {:?}", other),
    }
    handler.handle_connection(input, 1);
    let (reply, effect) = execute("window.state.change", &parse("{\"id\":\"w\"}"), BackendData::Missing);
    assert_eq!(effect, CommandEffect::LogWindowState(parse("{\"id\":\"w\"}")));
    handler.handle_connection(ConnectionInput::Executed(ExecutorReply::Replied(reply.unwrap())), 2);
    handler.handle_connection(ConnectionInput::Sent(SendReport::Delivered { bytes: 10 }), 3);
    assert_eq!(
        reasons(&handler)[6..].to_vec(),
        vec!["Receiving message", "Processing binary message", "Sending binary response", "Binary response sent"]
    );

    let broken = read_frame(Frame::Binary(b"{\"id\":".to_vec()));
    match &broken {
        ConnectionInput::Malformed { fault: FrameFault::Binary { length, problem }, size } => {
            assert_eq!(*length, 6);
            assert_eq!(*size, 6);
            assert_eq!(problem, "EOF while parsing a value at line 1 column 6");
        }
        other => panic!("read as {:?}", other),
    }
    let actions = handler.handle_connection(broken, 4);
    match &actions[0] {
        ConnectionAction::SendError(error) => {
            assert_eq!(error.id, "binary_parse_error");
            assert_eq!(error.error_type, "BINARY_PARSE_ERROR");
            assert_eq!(error.message, "Invalid binary data format");
            assert_eq!(
                error.details,
                Some(parse("{\"binary_length\":6,\"parse_error\":\"EOF while parsing a value at line 1 column 6\"}"))
            );
        }
        other => panic!("asked for {:?}", other),
    }
    handler.handle_connection(ConnectionInput::Sent(SendReport::Delivered { bytes: 1 }), 5);
    assert_eq!(handler.state(), &ConnectionState::Ready);

    let no_text = read_frame(Frame::Binary(vec![0xff, 0xfe, 0xfd]));
    match &no_text {
        ConnectionInput::Malformed { fault: FrameFault::Utf8 { problem }, size } => {
            assert_eq!(*size, 3);
            assert_eq!(problem, "invalid utf-8 sequence of 1 bytes from index 0");
        }
        other => panic!("read as {:?}", other),
    }
    let actions = handler.handle_connection(no_text, 6);
    match &actions[0] {
        ConnectionAction::SendError(error) => {
            assert_eq!(error.id, "utf8_error");
            assert_eq!(error.error_type, "UTF8_DECODE_ERROR");
            assert_eq!(error.message, "Binary data is not valid UTF-8");
            assert_eq!(
                error.details,
                Some(parse("{\"decode_error\":\"invalid utf-8 sequence of 1 bytes from index 0\"}"))
            );
        }
        other => panic!("asked for {:?}", other),
    }
    assert_eq!(handler.stats().errors_count, 2);
    assert_eq!(reasons(&handler).last().unwrap(), "Processing binary message");
}

#[test]
fn other_frames_are_read_as_what_they_are() {
    assert_eq!(read_frame(Frame::Ping(vec![1, 2])), ConnectionInput::Ping { data: vec![1, 2] });
    assert_eq!(read_frame(Frame::Pong(vec![1, 2, 3])), ConnectionInput::Pong { size: 3 });
    assert_eq!(read_frame(Frame::Close), ConnectionInput::Close);
    assert_eq!(read_frame(Frame::Raw(9)), ConnectionInput::Raw { size: 9 });
}

#[test]
fn an_unknown_function_gets_a_soft_failure() {
    let mut handler = ready_at(0);
    let request = WebSocketEvent {
        id: "u".to_string(),
        name: "fly".to_string(),
        payload: serde_json::Value::Null,
        timestamp: 1,
        source: "frontend".to_string(),
    };
    handler.handle_connection(ConnectionInput::Request { message: request, binary: false, size: 4 }, 1);
    let (reply, effect) = execute("fly", &serde_json::Value::Null, BackendData::Missing);
    assert_eq!(reply, None);
    assert_eq!(effect, CommandEffect::Nothing);
    let actions = handler.handle_connection(ConnectionInput::Executed(ExecutorReply::Unrecognized), 2);
    match &actions[0] {
        ConnectionAction::SendMessage(message) => {
            assert_eq!(message.id, "u");
            assert_eq!(message.name, "fly");
            assert_eq!(
                message.payload,
                parse("{\"success\":false,\"error\":\"Unknown function: fly\",\"function\":\"fly\"}")
            );
        }
        other => panic!("asked for {:?}", other),
    }
}

#[test]
fn an_executor_that_cannot_be_reached_gets_a_soft_failure_of_the_same_shape() {
    for (name, expected) in [
        ("get_users", "{\"success\":false,\"data\":[],\"error\":\"busy\"}"),
        ("get_db_stats", "{\"success\":false,\"stats\":{\"users\":0,\"tables\":[]},\"error\":\"busy\"}"),
        ("ui.ready", "{\"success\":false,\"error\":\"busy\"}"),
        ("fly", "{\"success\":false,\"error\":\"busy\"}"),
    ] {
        let mut handler = ready_at(0);
        let request = WebSocketEvent {
            id: "u".to_string(),
            name: name.to_string(),
            payload: serde_json::Value::Null,
            timestamp: 1,
            source: "frontend".to_string(),
        };
        handler.handle_connection(ConnectionInput::Request { message: request, binary: false, size: 4 }, 1);
        let actions =
            handler.handle_connection(ConnectionInput::Executed(ExecutorReply::Unavailable("busy".to_string())), 2);
        match &actions[0] {
            ConnectionAction::SendMessage(message) => assert_eq!(message.payload, parse(expected)),
            other => panic!("asked for {:?}", other),
        }
    }
}

#[test]
fn a_reply_that_cannot_be_written_ends_the_connection() {
    let request = WebSocketEvent {
        id: "u".to_string(),
        name: "get_users".to_string(),
        payload: serde_json::Value::Null,
        timestamp: 1,
        source: "frontend".to_string(),
    };
    let mut handler = ready_at(0);
    handler.handle_connection(ConnectionInput::Request { message: request.clone(), binary: false, size: 4 }, 1);
    handler.handle_connection(ConnectionInput::Executed(ExecutorReply::Unrecognized), 2);
    let actions = handler.handle_connection(
        ConnectionInput::Sent(SendReport::TransportFailed { bytes: 12, message: "broken pipe".to_string() }),
        3,
    );
    assert_eq!(actions, vec![ConnectionAction::CancelRelay, ConnectionAction::NotifyClosed]);
    assert_eq!(handler.state(), &ConnectionState::Terminated);
    assert!(handler.is_over());
    assert_eq!(handler.stats().errors_count, 1);
    assert_eq!(handler.stats().bytes_sent, 12);
    assert_eq!(handler.stats().messages_sent, 0);
    let log = &handler.stats().state_history;
    assert_eq!(
        log[log.len() - 2].to,
        ConnectionState::Error(ConnectionError::SendError("broken pipe".to_string()))
    );
    assert_eq!(log[log.len() - 1].reason, Some("Connection terminated due to error".to_string()));

    let mut other = ready_at(0);
    other.handle_connection(ConnectionInput::Request { message: request, binary: false, size: 4 }, 1);
    other.handle_connection(ConnectionInput::Executed(ExecutorReply::Unrecognized), 2);
    let actions =
        other.handle_connection(ConnectionInput::Sent(SendReport::EncodeFailed("no".to_string())), 3);
    assert_eq!(actions, vec![ConnectionAction::CancelRelay, ConnectionAction::NotifyClosed]);
    let log = &other.stats().state_history;
    assert_eq!(
        log[log.len() - 2].to,
        ConnectionState::Error(ConnectionError::SerializationError("no".to_string()))
    );
    assert_eq!(other.state(), &ConnectionState::Terminated);
}

#[test]
fn a_ping_is_answered_with_a_pong_and_kept_off_the_bus() {
    let mut handler = ready_at(0);
    let actions = handler.handle_connection(read_frame(Frame::Ping(vec![7, 8, 9])), 1);
    assert_eq!(actions, vec![ConnectionAction::SendPong(vec![7, 8, 9])]);
    assert_eq!(handler.stats().bytes_received, 3);
    let after = handler.handle_connection(ConnectionInput::Sent(SendReport::Delivered { bytes: 3 }), 2);
    assert_eq!(after, vec![]);
    assert_eq!(handler.state(), &ConnectionState::Ready);
    assert_eq!(handler.stats().messages_sent, 1);
    assert_eq!(
        states(&handler)[6..].to_vec(),
        vec![
            ConnectionState::Receiving,
            ConnectionState::PingSent,
            ConnectionState::Sending,
            ConnectionState::PongReceived,
            ConnectionState::Ready,
        ]
    );
    assert_eq!(handler.handle_connection(read_frame(Frame::Pong(vec![])), 3), vec![]);
    assert_eq!(handler.state(), &ConnectionState::Ready);
    assert_eq!(handler.handle_connection(read_frame(Frame::Raw(5)), 4), vec![]);
    assert_eq!(handler.state(), &ConnectionState::Ready);
    assert_eq!(handler.stats().messages_received, 3);
    assert_eq!(handler.stats().bytes_received, 8);

    let mut failing = ready_at(0);
    failing.handle_connection(read_frame(Frame::Ping(vec![])), 1);
    let actions = failing.handle_connection(
        ConnectionInput::Sent(SendReport::TransportFailed { bytes: 0, message: "reset".to_string() }),
        2,
    );
    assert_eq!(actions, vec![ConnectionAction::CancelRelay, ConnectionAction::NotifyClosed]);
    assert_eq!(failing.state(), &ConnectionState::Terminated);
}

#[test]
fn an_event_of_the_backend_reaches_an_idle_client() {
    let mut bus: EventBus<Silent> = EventBus::new();
    let listener = bus.listen();
    let mut handler = ready_at(10);
    let event = Event::stamped(
        "e-1".to_string(),
        "data.changed".to_string(),
        parse("{\"table\":\"users\"}"),
        5,
        "backend".to_string(),
    );
    bus.emit(event).unwrap();
    let relayed = bus.receive(listener).unwrap();
    let actions = handler.handle_connection(ConnectionInput::Relay(relayed), 20);
    let message = WebSocketEvent {
        id: "e-1".to_string(),
        name: "data.changed".to_string(),
        payload: parse("{\"table\":\"users\"}"),
        timestamp: 20,
        source: "backend".to_string(),
    };
    assert_eq!(actions, vec![ConnectionAction::SendMessage(message.clone())]);
    assert_eq!(WebSocketEvent::decode(&message.encode().unwrap()), Ok(message));
    assert_eq!(handler.pending(), &Pending::RelaySent);
    assert_eq!(handler.handle_connection(ConnectionInput::Sent(SendReport::Delivered { bytes: 80 }), 21), vec![]);
    assert_eq!(handler.state(), &ConnectionState::Ready);
    assert_eq!(handler.stats().messages_sent, 1);
    assert_eq!(handler.stats().messages_received, 0);
    assert_eq!(reasons(&handler)[6..].to_vec(), vec!["Forwarding event", "Event sent"]);
}

#[test]
fn an_event_of_a_frontend_is_not_relayed_to_a_frontend() {
    let mut handler = ready_at(10);
    let before = handler.stats().state_history.len();
    let event = Event::stamped(
        "e-2".to_string(),
        "get_users".to_string(),
        serde_json::Value::Null,
        5,
        "frontend".to_string(),
    );
    assert_eq!(handler.handle_connection(ConnectionInput::Relay(event), 20), vec![]);
    assert_eq!(handler.state(), &ConnectionState::Ready);
    assert!(handler.awaits_input());
    assert_eq!(handler.stats().state_history.len(), before);
    assert_eq!(handler.stats().messages_sent, 0);
    assert_eq!(handler.idle_remaining(20), 990);

    let mut other = WebSocketHandler::starting_at(0, 1_000, "backend");
    other.handle_connection(ConnectionInput::Accepted, 0);
    other.handle_connection(ConnectionInput::NoDelay(Ok(())), 0);
    other.handle_connection(ConnectionInput::Handshake(HandshakeOutcome::Completed), 0);
    let event = Event::stamped("e".to_string(), "n".to_string(), serde_json::Value::Null, 5, "backend".to_string());
    assert_eq!(other.handle_connection(ConnectionInput::Relay(event), 1), vec![]);
}

#[test]
fn a_relay_that_fails_ends_the_connection() {
    let event = Event::stamped("e".to_string(), "n".to_string(), serde_json::Value::Null, 5, "backend".to_string());
    let mut unwritten = ready_at(0);
    unwritten.handle_connection(ConnectionInput::Relay(event.clone()), 1);
    assert_eq!(
        unwritten.handle_connection(ConnectionInput::Sent(SendReport::EncodeFailed("x".to_string())), 2),
        vec![ConnectionAction::CancelRelay, ConnectionAction::NotifyClosed]
    );
    assert_eq!(unwritten.state(), &ConnectionState::Terminated);
    assert_eq!(unwritten.stats().errors_count, 1);
    let log = &unwritten.stats().state_history;
    assert_eq!(
        log[log.len() - 2].to,
        ConnectionState::Error(ConnectionError::SerializationError("x".to_string()))
    );
    let mut handler = ready_at(0);
    handler.handle_connection(ConnectionInput::Relay(event), 3);
    let actions = handler.handle_connection(
        ConnectionInput::Sent(SendReport::TransportFailed { bytes: 1, message: "x".to_string() }),
        4,
    );
    assert_eq!(actions, vec![ConnectionAction::CancelRelay, ConnectionAction::NotifyClosed]);
    assert_eq!(handler.state(), &ConnectionState::Terminated);
}

#[test]
fn an_idle_connection_is_closed() {
    let mut handler = ready_at(100);
    assert_eq!(handler.idle_remaining(100), 1_000);
    assert_eq!(handler.idle_remaining(600), 500);
    assert_eq!(handler.handle_connection(ConnectionInput::IdleTimer, 1_099), vec![]);
    assert_eq!(handler.state(), &ConnectionState::Ready);
    assert_eq!(handler.stats().state_history.len(), 6);
    assert_eq!(handler.idle_remaining(1_100), 0);

    let actions = handler.handle_connection(ConnectionInput::IdleTimer, 1_100);
    assert_eq!(
        actions,
        vec![ConnectionAction::SendClose, ConnectionAction::CancelRelay, ConnectionAction::NotifyClosed]
    );
    assert_eq!(handler.state(), &ConnectionState::Closed);
    assert!(handler.is_over());
    assert_eq!(handler.stats().errors_count, 1);
    assert_eq!(states(&handler)[6..].to_vec(), vec![ConnectionState::Closing, ConnectionState::Closed]);
    assert_eq!(reasons(&handler)[6..].to_vec(), vec!["Idle timeout", "Connection closed gracefully"]);

    let event = Event::stamped("e".to_string(), "n".to_string(), serde_json::Value::Null, 5, "backend".to_string());
    assert_eq!(handler.handle_connection(ConnectionInput::Relay(event), 1_200), vec![]);
    assert_eq!(handler.handle_connection(read_frame(Frame::Ping(vec![])), 1_201), vec![]);
    assert_eq!(handler.handle_connection(ConnectionInput::IdleTimer, 9_000), vec![]);
    assert_eq!(handler.stats().state_history.len(), 8);
    assert_eq!(handler.state(), &ConnectionState::Closed);
}

#[test]
fn traffic_starts_the_idle_window_anew() {
    let mut handler = ready_at(0);
    handler.handle_connection(read_frame(Frame::Pong(vec![])), 900);
    assert_eq!(handler.handle_connection(ConnectionInput::IdleTimer, 1_000), vec![]);
    assert_eq!(handler.idle_remaining(1_000), 900);
    assert!(!handler.is_over());
    assert_eq!(handler.handle_connection(ConnectionInput::IdleTimer, 1_900).len(), 3);
    assert!(handler.is_over());
}

#[test]
fn a_close_frame_and_the_end_of_the_stream_close_the_connection() {
    let mut handler = ready_at(0);
    let actions = handler.handle_connection(read_frame(Frame::Close), 1);
    assert_eq!(
        actions,
        vec![ConnectionAction::SendClose, ConnectionAction::CancelRelay, ConnectionAction::NotifyClosed]
    );
    assert_eq!(handler.state(), &ConnectionState::Closed);
    assert_eq!(
        reasons(&handler)[6..].to_vec(),
        vec!["Receiving message", "Close frame received", "Connection closed gracefully"]
    );
    assert_eq!(handler.stats().errors_count, 0);

    let mut gone = ready_at(0);
    let actions = gone.handle_connection(ConnectionInput::StreamEnded, 1);
    assert_eq!(
        actions,
        vec![ConnectionAction::SendClose, ConnectionAction::CancelRelay, ConnectionAction::NotifyClosed]
    );
    assert_eq!(gone.state(), &ConnectionState::Closed);
    assert_eq!(reasons(&gone)[6..].to_vec(), vec!["Stream ended"]);
}

#[test]
fn a_failure_of_the_transport_is_reported_and_ends_the_connection() {
    let mut handler = ready_at(0);
    let actions = handler.handle_connection(ConnectionInput::TransportFailed("bad frame".to_string()), 4);
    assert_eq!(
        actions,
        vec![ConnectionAction::SendError(WebSocketError {
            id: "protocol_error".to_string(),
            error_type: "PROTOCOL_ERROR".to_string(),
            message: "WebSocket protocol error".to_string(),
            details: Some(parse("{\"error\":\"bad frame\"}")),
            timestamp: 4,
        })]
    );
    assert_eq!(
        handler.state(),
        &ConnectionState::Error(ConnectionError::ProtocolError("bad frame".to_string()))
    );
    assert!(!handler.is_over());
    let last = handler.handle_connection(ConnectionInput::Sent(SendReport::Delivered { bytes: 9 }), 5);
    assert_eq!(last, vec![ConnectionAction::CancelRelay, ConnectionAction::NotifyClosed]);
    assert_eq!(handler.state(), &ConnectionState::Terminated);
    assert!(handler.is_over());
    assert_eq!(handler.stats().errors_count, 1);
    assert_eq!(handler.stats().messages_sent, 0);
}

#[test]
fn a_closed_relay_is_noted_and_the_connection_goes_on() {
    let mut handler = ready_at(0);
    assert_eq!(handler.handle_connection(ConnectionInput::RelayClosed, 1), vec![]);
    assert_eq!(handler.state(), &ConnectionState::Ready);
    assert_eq!(
        states(&handler)[6..].to_vec(),
        vec![ConnectionState::Error(ConnectionError::ChannelClosed), ConnectionState::Ready]
    );
    assert_eq!(handler.stats().errors_count, 0);
}

#[test]
fn what_comes_out_of_turn_is_ignored() {
    let mut handler = WebSocketHandler::starting_at(0, 1_000, "frontend");
    assert_eq!(handler.handle_connection(ConnectionInput::Sent(SendReport::Delivered { bytes: 1 }), 1), vec![]);
    assert_eq!(handler.handle_connection(ConnectionInput::Executed(ExecutorReply::Unrecognized), 1), vec![]);
    assert_eq!(handler.handle_connection(read_frame(Frame::Close), 1), vec![]);
    assert_eq!(handler.handle_connection(ConnectionInput::IdleTimer, 5_000), vec![]);
    assert_eq!(handler.handle_connection(ConnectionInput::NoDelay(Ok(())), 1), vec![]);
    assert_eq!(handler.state(), &ConnectionState::Initialized);
    assert_eq!(handler.pending(), &Pending::Accept);
    assert_eq!(handler.stats().state_history.len(), 0);
    let mut ready = ready_at(0);
    assert_eq!(ready.handle_connection(ConnectionInput::Accepted, 1), vec![]);
    assert_eq!(ready.handle_connection(ConnectionInput::Sent(SendReport::Delivered { bytes: 1 }), 1), vec![]);
    assert_eq!(ready.stats().state_history.len(), 6);
}

#[test]
fn the_log_and_the_messages_never_go_back_in_time() {
    let mut handler = ready_at(1_000);
    handler.handle_connection(read_frame(Frame::Pong(vec![])), 500);
    let event = Event::stamped("e".to_string(), "n".to_string(), serde_json::Value::Null, 5, "backend".to_string());
    let actions = handler.handle_connection(ConnectionInput::Relay(event), 700);
    match &actions[0] {
        ConnectionAction::SendMessage(message) => assert_eq!(message.timestamp, 1_000),
        other => panic!("asked for {:?}", other),
    }
    let times: Vec<u64> = handler.stats().state_history.iter().map(|t| t.timestamp).collect();
    assert!(times.windows(2).all(|w| w[0] <= w[1]));
    assert_eq!(*times.last().unwrap(), 1_000);
}

#[test]
fn transitions_are_recorded_with_their_reason() {
    let mut state = ConnectionState::Ready;
    let mut stats = ConnectionStats::starting_at(10);
    WebSocketHandler::transition_state(&mut state, ConnectionState::Sending, &mut stats, Some("why".to_string()), 20);
    WebSocketHandler::transition_state(&mut state, ConnectionState::Ready, &mut stats, None, 15);
    assert_eq!(state, ConnectionState::Ready);
    assert_eq!(
        stats.state_history,
        vec![
            StateTransition {
                from: ConnectionState::Ready,
                to: ConnectionState::Sending,
                timestamp: 20,
                reason: Some("why".to_string()),
            },
            StateTransition {
                from: ConnectionState::Sending,
                to: ConnectionState::Ready,
                timestamp: 20,
                reason: None,
            },
        ]
    );
    assert_eq!(stats.latest(), 20);
    assert_eq!(ConnectionStats::starting_at(10).latest(), 10);
    assert!(ConnectionState::Error(ConnectionError::IdleTimeout).is_error());
    assert!(!ConnectionState::Closed.is_error());
}

#[test]
fn connection_errors_describe_themselves() {
    let s = || "x".to_string();
    assert_eq!(ConnectionError::TcpBindFailed(s()).to_string(), "TCP bind failed: x");
    assert_eq!(ConnectionError::TcpAcceptFailed(s()).to_string(), "TCP accept failed: x");
    assert_eq!(ConnectionError::TcpSetNodelayFailed(s()).to_string(), "TCP set nodelay failed: x");
    assert_eq!(ConnectionError::HandshakeTimeout.to_string(), "WebSocket handshake timed out");
    assert_eq!(ConnectionError::HandshakeFailed(s()).to_string(), "WebSocket handshake failed: x");
    assert_eq!(ConnectionError::AuthenticationFailed(s()).to_string(), "Authentication failed: x");
    assert_eq!(ConnectionError::InvalidMessage(s()).to_string(), "Invalid message: x");
    assert_eq!(ConnectionError::MessageParseError(s()).to_string(), "Message parse error: x");
    assert_eq!(ConnectionError::SerializationError(s()).to_string(), "Serialization error: x");
    assert_eq!(ConnectionError::SendError(s()).to_string(), "Send error: x");
    assert_eq!(ConnectionError::ReceiveError(s()).to_string(), "Receive error: x");
    assert_eq!(ConnectionError::ProtocolError(s()).to_string(), "Protocol error: x");
    assert_eq!(ConnectionError::ChannelClosed.to_string(), "Channel closed");
    assert_eq!(ConnectionError::IdleTimeout.to_string(), "Connection idle timeout");
    assert_eq!(ConnectionError::Unknown(s()).to_string(), "Unknown error: x");
}

#[test]
fn every_call_of_a_function_is_answered() {
    let null = serde_json::Value::Null;
    assert_eq!(
        WebSocketHandler::handle_function_call("get_users", &null, BackendData::Users(vec![])),
        (Some(parse("{\"success\":true,\"data\":[]}")), CommandEffect::Nothing)
    );
    assert_eq!(
        WebSocketHandler::handle_function_call("fly", &null, BackendData::Users(vec![])),
        (
            Some(parse("{\"success\":false,\"error\":\"Unknown function: fly\",\"function\":\"fly\"}")),
            CommandEffect::Nothing,
        )
    );
    assert_eq!(
        WebSocketHandler::handle_function_call("ui.ready", &null, BackendData::Missing).1,
        CommandEffect::AnnounceBackend(parse("{\"message\":\"Backend connected and ready\"}"))
    );
}

#[test]
fn errors_without_details_are_written_with_null() {
    let error = WebSocketError {
        id: "e".to_string(),
        error_type: "T".to_string(),
        message: "m".to_string(),
        details: None,
        timestamp: 9,
    };
    assert_eq!(
        error.encode().unwrap(),
        "{\"details\":null,\"error_type\":\"T\",\"id\":\"e\",\"message\":\"m\",\"timestamp\":9}"
    );
    assert_eq!(error.clone(), error);
    let fresh = ConnectionStats::default();
    assert_eq!(fresh.messages_sent + fresh.messages_received + fresh.bytes_sent + fresh.bytes_received, 0);
    assert_eq!(fresh.errors_count + fresh.reconnects, 0);
    assert_eq!(fresh.state_history, vec![]);
    assert_eq!(fresh.latest(), fresh.created_at);
}

#[test]
fn counters_stop_at_their_largest_value() {
    let mut handler = ready_at(0);
    handler.handle_connection(read_frame(Frame::Raw(u64::MAX)), 1);
    handler.handle_connection(read_frame(Frame::Raw(5)), 2);
    assert_eq!(handler.stats().bytes_received, u64::MAX);
    assert_eq!(handler.stats().messages_received, 2);
}
