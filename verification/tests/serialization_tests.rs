use rustwebui_app::serialization::communication_config::{
    get_default_config, pad_right, CommunicationConfig, SerializationFormat as OfferedFormat,
    TransportProtocol,
};
use rustwebui_app::serialization::serialization::{
    SerializationEngine, SerializationError, SerializationFormat, WsMessage,
};

fn key_value() -> serde_json::Value {
    let mut fields = serde_json::Map::new();
    fields.insert("key".to_string(), serde_json::Value::String("value".to_string()));
    serde_json::Value::Object(fields)
}

#[test]
fn test_transport_protocol_names() {
    assert_eq!(TransportProtocol::WebSocket.name(), "WebSocket");
    assert_eq!(TransportProtocol::HttpRest.name(), "HTTP/REST");
}

#[test]
fn test_serialization_format_names() {
    assert_eq!(OfferedFormat::Json.name(), "JSON");
    assert_eq!(OfferedFormat::MessagePack.name(), "MessagePack");
}

#[test]
fn test_default_config() {
    let config = get_default_config();
    assert_eq!(config.selected_transport, TransportProtocol::WebSocket);
    assert_eq!(config.selected_serialization, OfferedFormat::Json);
}

#[test]
fn test_json_serialization() {
    let engine = SerializationEngine::new(SerializationFormat::Json);
    let message = WsMessage::new("test", key_value(), "test");

    let serialized = engine.serialize(&message).unwrap();
    let deserialized = engine.deserialize(&serialized).unwrap();

    assert_eq!(message.name, deserialized.name);
    assert_eq!(message.payload, deserialized.payload);
}

#[test]
fn test_format_detection() {
    assert_eq!(SerializationFormat::from_str("json"), Some(SerializationFormat::Json));
    assert_eq!(SerializationFormat::from_str("msgpack"), Some(SerializationFormat::MessagePack));
    assert_eq!(SerializationFormat::from_str("cbor"), Some(SerializationFormat::Cbor));
    assert_eq!(SerializationFormat::from_str("protobuf"), Some(SerializationFormat::Protobuf));
    assert_eq!(SerializationFormat::from_str("invalid"), None);
}

#[test]
fn test_mime_types() {
    assert_eq!(SerializationFormat::Json.mime_type(), "application/json");
    assert_eq!(SerializationFormat::MessagePack.mime_type(), "application/x-msgpack");
    assert_eq!(SerializationFormat::Cbor.mime_type(), "application/cbor");
}

#[test]
fn format_names_ignore_case_and_know_aliases() {
    assert_eq!(SerializationFormat::from_str("JSON"), Some(SerializationFormat::Json));
    assert_eq!(SerializationFormat::from_str("MessagePack"), Some(SerializationFormat::MessagePack));
    assert_eq!(SerializationFormat::from_str("msg"), Some(SerializationFormat::MessagePack));
    assert_eq!(SerializationFormat::from_str("Proto"), Some(SerializationFormat::Protobuf));
    assert_eq!(SerializationFormat::from_str("pb"), Some(SerializationFormat::Protobuf));
    assert_eq!(SerializationFormat::from_str(""), None);
}

#[test]
fn only_json_is_text() {
    assert!(!SerializationFormat::Json.is_binary());
    assert!(SerializationFormat::MessagePack.is_binary());
    assert!(SerializationFormat::Cbor.is_binary());
    assert!(SerializationFormat::Protobuf.is_binary());
    assert_eq!(SerializationFormat::Protobuf.as_str(), "protobuf");
    assert_eq!(SerializationFormat::Protobuf.mime_type(), "application/x-protobuf");
}

#[test]
fn transports_have_their_ports_and_libraries() {
    assert_eq!(TransportProtocol::WebSocket.port(), 9000);
    assert_eq!(TransportProtocol::HttpRest.port(), 8080);
    assert_eq!(TransportProtocol::ServerSentEvents.port(), 8080);
    assert_eq!(TransportProtocol::Grpc.port(), 50051);
    assert_eq!(TransportProtocol::WebSocket.library(), "tokio-tungstenite");
    assert_eq!(TransportProtocol::Grpc.name(), "gRPC");
    assert_eq!(TransportProtocol::ServerSentEvents.name(), "Server-Sent Events (SSE)");
    assert_eq!(TransportProtocol::HttpRest.description(), "Request-response, stateless, widely supported");
    assert_eq!(OfferedFormat::Cbor.library(), "serde_cbor");
    assert_eq!(OfferedFormat::Protobuf.name(), "Protocol Buffers");
    assert_eq!(OfferedFormat::Json.characteristics(), "Text, verbose, interoperable");
    assert_eq!(OfferedFormat::MessagePack.description(), "Binary format, compact, fast serialization");
}

#[test]
fn cells_are_filled_with_spaces() {
    assert_eq!(pad_right("ab", 5), "ab   ");
    assert_eq!(pad_right("abcde", 5), "abcde");
    assert_eq!(pad_right("abcdef", 5), "abcdef");
    assert_eq!(pad_right("", 0), "");
    assert_eq!(pad_right("► x", 5), "► x  ");
}

#[test]
fn tables_mark_what_is_selected() {
    let config = CommunicationConfig::new(TransportProtocol::HttpRest, OfferedFormat::Cbor);
    let transports = config.display_transport_options();
    assert_eq!(transports.len(), 10);
    assert_eq!(
        transports[5],
        "│   WebSocket           │ tokio-tungstenite  │ 9000   │ Full-duplex, low-latency, persistent connection │"
    );
    assert_eq!(
        transports[6],
        "│ ► HTTP/REST           │ tiny_http / reqwest │ 8080   │ Request-response, stateless, widely supported │"
    );
    assert_eq!(
        transports[8],
        "│   gRPC                │ tonic              │ 50051  │ Binary protocol, streaming, strongly typed │"
    );
    let formats = config.display_serialization_options();
    assert_eq!(formats.len(), 10);
    assert_eq!(
        formats[5],
        "│   JSON                │ serde_json         │ Text, verbose, interoperable   │"
    );
    assert_eq!(
        formats[8],
        "│ ► CBOR                │ serde_cbor         │ Binary, self-describing, standard │"
    );
    let summary = config.display_selected_config();
    assert_eq!(summary.len(), 12);
    assert_eq!(
        summary[3],
        "│ Transport:    HTTP/REST                                                      │"
    );
    assert_eq!(
        summary[5],
        "│   Port:       8080 (default)                                                 │"
    );
    let own = get_default_config().display_selected_config();
    assert_eq!(
        own[5],
        "│   Port:       9000 (backend-frontend)                                        │"
    );
    assert_eq!(
        own[8],
        "│ Serialization:JSON                                                           │"
    );
}

#[test]
fn formats_that_are_not_built_in_are_refused() {
    let message = WsMessage::response("7", "answer", key_value());
    assert_eq!(
        SerializationEngine::new(SerializationFormat::MessagePack).serialize(&message),
        Err(SerializationError::FeatureNotEnabled("msgpack".to_string()))
    );
    assert_eq!(
        SerializationEngine::new(SerializationFormat::Cbor).serialize(&message),
        Err(SerializationError::FeatureNotEnabled("cbor".to_string()))
    );
    assert_eq!(
        SerializationEngine::new(SerializationFormat::Protobuf).serialize(&message),
        Err(SerializationError::ProtobufNotImplemented)
    );
    assert_eq!(
        SerializationEngine::new(SerializationFormat::Cbor).deserialize(b"{}"),
        Err(SerializationError::FeatureNotEnabled("cbor".to_string()))
    );
    assert_eq!(
        SerializationEngine::new(SerializationFormat::Protobuf).deserialize(b"{}"),
        Err(SerializationError::ProtobufNotImplemented)
    );
    assert_eq!(SerializationEngine::new(SerializationFormat::Cbor).format(), SerializationFormat::Cbor);
}

#[test]
fn serialization_errors_describe_themselves() {
    assert_eq!(SerializationError::JsonError("x".to_string()).to_string(), "JSON error: x");
    assert_eq!(SerializationError::MessagePackError("x".to_string()).to_string(), "MessagePack error: x");
    assert_eq!(SerializationError::CborError("x".to_string()).to_string(), "CBOR error: x");
    assert_eq!(SerializationError::ProtobufError("x".to_string()).to_string(), "Protobuf error: x");
    assert_eq!(
        SerializationError::FeatureNotEnabled("cbor".to_string()).to_string(),
        "Feature 'cbor' not enabled. Add to Cargo.toml features."
    );
    assert_eq!(
        SerializationError::ProtobufNotImplemented.to_string(),
        "Protobuf serialization requires .proto schema definition"
    );
    assert_eq!(
        SerializationError::InvalidFormat("yaml".to_string()).to_string(),
        "Invalid serialization format: yaml"
    );
}

#[test]
fn json_engine_writes_all_six_fields_and_reads_them_back() {
    let engine = SerializationEngine::new(SerializationFormat::Json);
    let message = WsMessage {
        id: "42".to_string(),
        name: "greet".to_string(),
        payload: key_value(),
        timestamp: 1_700_000_000_123,
        source: "frontend".to_string(),
        format: None,
    }
    .with_format(SerializationFormat::Json);
    assert_eq!(message.format, Some("json".to_string()));
    let bytes = engine.serialize(&message).unwrap();
    let text = String::from_utf8(bytes.clone()).unwrap();
    assert_eq!(
        text,
        "{\"format\":\"json\",\"id\":\"42\",\"name\":\"greet\",\"payload\":{\"key\":\"value\"},\"source\":\"frontend\",\"timestamp\":1700000000123}"
    );
    assert_eq!(engine.deserialize(&bytes), Ok(message));
    let sizes = SerializationEngine::get_format_comparison(&engine.deserialize(&bytes).unwrap());
    assert_eq!(sizes.json_size, bytes.len());
    assert_eq!(sizes.msgpack_size, 0);
    assert_eq!(sizes.cbor_size, 0);
    assert_eq!(sizes.protobuf_size, 0);
}

#[test]
fn json_engine_reads_a_message_without_a_format() {
    let engine = SerializationEngine::new(SerializationFormat::Json);
    let read = engine
        .deserialize(b"{\"id\":\"1\",\"name\":\"n\",\"payload\":null,\"timestamp\":5,\"source\":\"s\"}")
        .unwrap();
    assert_eq!(read.id, "1");
    assert_eq!(read.payload, serde_json::Value::Null);
    assert_eq!(read.timestamp, 5);
    assert_eq!(read.format, None);
    let with_null = engine
        .deserialize(b"{\"id\":\"1\",\"name\":\"n\",\"payload\":1,\"timestamp\":5,\"source\":\"s\",\"format\":null}")
        .unwrap();
    assert_eq!(with_null.format, None);
}

#[test]
fn json_engine_refuses_what_is_no_message() {
    let engine = SerializationEngine::new(SerializationFormat::Json);
    assert!(matches!(engine.deserialize(b"not json"), Err(SerializationError::JsonError(_))));
    assert!(matches!(engine.deserialize(&[0xff, 0xfe]), Err(SerializationError::JsonError(_))));
    assert!(matches!(engine.deserialize(b"{\"id\":\"1\"}"), Err(SerializationError::JsonError(_))));
    assert!(matches!(
        engine.deserialize(b"{\"id\":\"1\",\"name\":\"n\",\"payload\":1,\"timestamp\":-5,\"source\":\"s\"}"),
        Err(SerializationError::JsonError(_))
    ));
    assert!(matches!(
        engine.deserialize(b"{\"id\":\"1\",\"name\":\"n\",\"payload\":1,\"timestamp\":5,\"source\":\"s\",\"format\":3}"),
        Err(SerializationError::JsonError(_))
    ));
}

#[test]
fn new_messages_get_an_identifier_of_their_own() {
    let a = WsMessage::new("n", serde_json::Value::Null, "s");
    let b = WsMessage::new("n", serde_json::Value::Null, "s");
    assert_eq!(a.id.len(), 36);
    assert_ne!(a.id, b.id);
    assert_eq!(a.source, "s");
    assert_eq!(a.format, None);
    let answer = WsMessage::response("9", "n", serde_json::Value::Bool(true));
    assert_eq!(answer.id, "9");
    assert_eq!(answer.source, "backend");
    assert_eq!(answer.payload, serde_json::Value::Bool(true));
}
