//! The engine that writes messages to bytes and reads them back, in the format
//! it was made for.

use vstd::prelude::*;
use vstd::slice::slice_to_vec;
use vstd::string::*;
use vstd::utf8::{decode_utf8, encode_utf8, valid_utf8};
use crate::json::{
    clone_value, error_text, insert_field, json_field, json_model, json_parsed, json_written,
    new_fields, no_fields, null_value, object_value, parse_value, text_value, u64_value,
    value_as_text, value_as_u64, value_field, write_value, Json,
};
use crate::stamp::{fresh_id, is_clock_time, now_millis, ID_LENGTH};
use crate::text::{
    decode_utf8_bytes, join, join3, lowercase, text_eq, to_lowercase, utf8_error_text,
};
use crate::websocket::wire::{text_field, u64_field};

verus! {

/// The formats that the engine knows by name.
#[derive(Debug, Clone, Copy, PartialEq, Eq, Structural)]
pub enum SerializationFormat {
    Json,
    MessagePack,
    Cbor,
    Protobuf,
}

impl SerializationFormat {
    pub open spec fn spec_as_str(self) -> Seq<char> {
        match self {
            SerializationFormat::Json => "json"@,
            SerializationFormat::MessagePack => "msgpack"@,
            SerializationFormat::Cbor => "cbor"@,
            SerializationFormat::Protobuf => "protobuf"@,
        }
    }

    pub open spec fn spec_mime_type(self) -> Seq<char> {
        match self {
            SerializationFormat::Json => "application/json"@,
            SerializationFormat::MessagePack => "application/x-msgpack"@,
            SerializationFormat::Cbor => "application/cbor"@,
            SerializationFormat::Protobuf => "application/x-protobuf"@,
        }
    }

    /// The format that a name in lower case stands for.
    pub open spec fn named(lower: Seq<char>) -> Option<SerializationFormat> {
        if lower == "json"@ {
            Some(SerializationFormat::Json)
        } else if lower == "msgpack"@ || lower == "messagepack"@ || lower == "msg"@ {
            Some(SerializationFormat::MessagePack)
        } else if lower == "cbor"@ {
            Some(SerializationFormat::Cbor)
        } else if lower == "protobuf"@ || lower == "proto"@ || lower == "pb"@ {
            Some(SerializationFormat::Protobuf)
        } else {
            None
        }
    }

    /// The short name of the format.
    pub fn as_str(&self) -> (text: &'static str)
        ensures
            text@ == self.spec_as_str(),
    {
        match self {
            SerializationFormat::Json => "json",
            SerializationFormat::MessagePack => "msgpack",
            SerializationFormat::Cbor => "cbor",
            SerializationFormat::Protobuf => "protobuf",
        }
    }

    /// The format that `s` names, whatever the case of its letters.
    pub fn from_str(s: &str) -> (format: Option<Self>)
        ensures
            format == Self::named(lowercase(s@)),
    {
        let lower = to_lowercase(s);
        let name = lower.as_str();
        if text_eq(name, "json") {
            Some(SerializationFormat::Json)
        } else if text_eq(name, "msgpack") || text_eq(name, "messagepack") || text_eq(name, "msg") {
            Some(SerializationFormat::MessagePack)
        } else if text_eq(name, "cbor") {
            Some(SerializationFormat::Cbor)
        } else if text_eq(name, "protobuf") || text_eq(name, "proto") || text_eq(name, "pb") {
            Some(SerializationFormat::Protobuf)
        } else {
            None
        }
    }

    /// The media type of the format.
    pub fn mime_type(&self) -> (text: &'static str)
        ensures
            text@ == self.spec_mime_type(),
    {
        match self {
            SerializationFormat::Json => "application/json",
            SerializationFormat::MessagePack => "application/x-msgpack",
            SerializationFormat::Cbor => "application/cbor",
            SerializationFormat::Protobuf => "application/x-protobuf",
        }
    }

    /// Whether the format is binary: every one but JSON is.
    pub fn is_binary(&self) -> (binary: bool)
        ensures
            binary == (*self != SerializationFormat::Json),
    {
        match self {
            SerializationFormat::Json => false,
            _ => true,
        }
    }
}

/// The envelope of a message, whatever the format it is written in.
#[derive(Debug, PartialEq)]
pub struct WsMessage {
    pub id: String,
    pub name: String,
    pub payload: serde_json::Value,
    /// Milliseconds since the Unix epoch.
    pub timestamp: u64,
    pub source: String,
    /// The short name of the format, where the sender gave one.
    pub format: Option<String>,
}

pub struct WsMessageView {
    pub id: Seq<char>,
    pub name: Seq<char>,
    pub payload: Json,
    pub timestamp: u64,
    pub source: Seq<char>,
    pub format: Option<Seq<char>>,
}

/// The text of an optional name.
pub open spec fn format_view(format: Option<String>) -> Option<Seq<char>> {
    match format {
        Some(text) => Some(text@),
        None => None,
    }
}

impl WsMessageView {
    /// The message as a JSON object of its six fields; an absent format is
    /// `null`.
    pub open spec fn json(self) -> Json {
        Json::Object(
            no_fields().insert("id"@, Json::Text(self.id)).insert("name"@, Json::Text(self.name)).insert(
                "payload"@,
                self.payload,
            ).insert("timestamp"@, Json::Integer(self.timestamp as int)).insert(
                "source"@,
                Json::Text(self.source),
            ).insert(
                "format"@,
                match self.format {
                    Some(format) => Json::Text(format),
                    None => Json::Null,
                },
            ),
        )
    }

    /// Whether the field `format` of `doc` is absent, `null` or a string.
    pub open spec fn format_fits(doc: Json) -> bool {
        match json_field(doc, "format"@) {
            Some(Json::Null) => true,
            Some(Json::Text(_)) => true,
            Some(_) => false,
            None => true,
        }
    }

    /// Whether `doc` holds a message: the five fields of the wire, each of its
    /// type, and a format or none.
    pub open spec fn fits(doc: Json) -> bool {
        &&& text_field(doc, "id"@) is Some
        &&& text_field(doc, "name"@) is Some
        &&& json_field(doc, "payload"@) is Some
        &&& u64_field(doc, "timestamp"@) is Some
        &&& text_field(doc, "source"@) is Some
        &&& Self::format_fits(doc)
    }

    /// The message that `doc` holds.
    pub open spec fn from_json(doc: Json) -> WsMessageView
        recommends
            Self::fits(doc),
    {
        WsMessageView {
            id: text_field(doc, "id"@).unwrap(),
            name: text_field(doc, "name"@).unwrap(),
            payload: json_field(doc, "payload"@).unwrap(),
            timestamp: u64_field(doc, "timestamp"@).unwrap(),
            source: text_field(doc, "source"@).unwrap(),
            format: text_field(doc, "format"@),
        }
    }
}

impl View for WsMessage {
    type V = WsMessageView;

    open spec fn view(&self) -> WsMessageView {
        WsMessageView {
            id: self.id@,
            name: self.name@,
            payload: json_model(self.payload),
            timestamp: self.timestamp,
            source: self.source@,
            format: format_view(self.format),
        }
    }
}

impl WsMessage {
    /// A message with a fresh identifier, stamped with the current time, in no
    /// format yet.
    pub fn new(name: &str, payload: serde_json::Value, source: &str) -> (message: Self)
        ensures
            message@.name == name@,
            message@.payload == json_model(payload),
            message@.source == source@,
            message@.format is None,
            message@.id.len() == ID_LENGTH,
            is_clock_time(message@.timestamp),
    {
        WsMessage {
            id: fresh_id(),
            name: name.to_owned(),
            payload,
            timestamp: now_millis(),
            source: source.to_owned(),
            format: None,
        }
    }

    /// The message, marked as written in `format`.
    pub fn with_format(self, format: SerializationFormat) -> (message: Self)
        ensures
            message@ == (WsMessageView { format: Some(format.spec_as_str()), ..self@ }),
    {
        WsMessage {
            id: self.id,
            name: self.name,
            payload: self.payload,
            timestamp: self.timestamp,
            source: self.source,
            format: Some(format.as_str().to_owned()),
        }
    }

    /// The answer of the backend to the message `id`, stamped with the current
    /// time.
    pub fn response(id: &str, name: &str, payload: serde_json::Value) -> (message: Self)
        ensures
            message@.id == id@,
            message@.name == name@,
            message@.payload == json_model(payload),
            message@.source == "backend"@,
            message@.format is None,
            is_clock_time(message@.timestamp),
    {
        WsMessage {
            id: id.to_owned(),
            name: name.to_owned(),
            payload,
            timestamp: now_millis(),
            source: "backend".to_owned(),
            format: None,
        }
    }

    /// The message as a JSON value.
    pub fn to_json(&self) -> (value: serde_json::Value)
        ensures
            json_model(value) == self@.json(),
    {
        let format = match &self.format {
            Some(name) => text_value(name.clone()),
            None => null_value(),
        };
        let mut fields = new_fields();
        insert_field(&mut fields, "id".to_owned(), text_value(self.id.clone()));
        insert_field(&mut fields, "name".to_owned(), text_value(self.name.clone()));
        insert_field(&mut fields, "payload".to_owned(), clone_value(&self.payload));
        insert_field(&mut fields, "timestamp".to_owned(), u64_value(self.timestamp));
        insert_field(&mut fields, "source".to_owned(), text_value(self.source.clone()));
        insert_field(&mut fields, "format".to_owned(), format);
        object_value(fields)
    }

    /// Reads a message from a JSON value, where the value holds one.
    pub fn from_json(value: &serde_json::Value) -> (r: Option<WsMessage>)
        ensures
            match r {
                Some(message) => WsMessageView::fits(json_model(*value)) && message@ == WsMessageView::from_json(
                    json_model(*value),
                ),
                None => !WsMessageView::fits(json_model(*value)),
            },
    {
        let id = match value_field(value, "id") {
            Some(field) => match value_as_text(field) {
                Some(text) => text.to_owned(),
                None => { return None; },
            },
            None => { return None; },
        };
        let name = match value_field(value, "name") {
            Some(field) => match value_as_text(field) {
                Some(text) => text.to_owned(),
                None => { return None; },
            },
            None => { return None; },
        };
        let payload = match value_field(value, "payload") {
            Some(field) => clone_value(field),
            None => { return None; },
        };
        let timestamp = match value_field(value, "timestamp") {
            Some(field) => match value_as_u64(field) {
                Some(n) => n,
                None => { return None; },
            },
            None => { return None; },
        };
        let source = match value_field(value, "source") {
            Some(field) => match value_as_text(field) {
                Some(text) => text.to_owned(),
                None => { return None; },
            },
            None => { return None; },
        };
        let format = match value_field(value, "format") {
            Some(field) => match value_as_text(field) {
                Some(text) => Some(text.to_owned()),
                None => {
                    if crate::json::value_is_null(field) {
                        None
                    } else {
                        return None;
                    }
                },
            },
            None => None,
        };
        Some(WsMessage { id, name, payload, timestamp, source, format })
    }
}

/// Why a message could not be written or read.
#[derive(Debug, PartialEq)]
pub enum SerializationError {
    JsonError(String),
    MessagePackError(String),
    CborError(String),
    ProtobufError(String),
    FeatureNotEnabled(String),
    ProtobufNotImplemented,
    InvalidFormat(String),
}

pub enum SerializationErrorView {
    JsonError(Seq<char>),
    MessagePackError(Seq<char>),
    CborError(Seq<char>),
    ProtobufError(Seq<char>),
    FeatureNotEnabled(Seq<char>),
    ProtobufNotImplemented,
    InvalidFormat(Seq<char>),
}

impl SerializationErrorView {
    /// The sentence that describes the error.
    pub open spec fn message(self) -> Seq<char> {
        match self {
            SerializationErrorView::JsonError(e) => "JSON error: "@ + e,
            SerializationErrorView::MessagePackError(e) => "MessagePack error: "@ + e,
            SerializationErrorView::CborError(e) => "CBOR error: "@ + e,
            SerializationErrorView::ProtobufError(e) => "Protobuf error: "@ + e,
            SerializationErrorView::FeatureNotEnabled(feature) => "Feature '"@ + feature
                + "' not enabled. Add to Cargo.toml features."@,
            SerializationErrorView::ProtobufNotImplemented =>
                "Protobuf serialization requires .proto schema definition"@,
            SerializationErrorView::InvalidFormat(format) => "Invalid serialization format: "@ + format,
        }
    }
}

impl View for SerializationError {
    type V = SerializationErrorView;

    open spec fn view(&self) -> SerializationErrorView {
        match self {
            SerializationError::JsonError(e) => SerializationErrorView::JsonError(e@),
            SerializationError::MessagePackError(e) => SerializationErrorView::MessagePackError(e@),
            SerializationError::CborError(e) => SerializationErrorView::CborError(e@),
            SerializationError::ProtobufError(e) => SerializationErrorView::ProtobufError(e@),
            SerializationError::FeatureNotEnabled(e) => SerializationErrorView::FeatureNotEnabled(e@),
            SerializationError::ProtobufNotImplemented => SerializationErrorView::ProtobufNotImplemented,
            SerializationError::InvalidFormat(e) => SerializationErrorView::InvalidFormat(e@),
        }
    }
}

impl SerializationError {
    /// The sentence that describes the error.
    pub fn to_string(&self) -> (text: String)
        ensures
            text@ == self@.message(),
    {
        match self {
            SerializationError::JsonError(e) => join("JSON error: ", e.as_str()),
            SerializationError::MessagePackError(e) => join("MessagePack error: ", e.as_str()),
            SerializationError::CborError(e) => join("CBOR error: ", e.as_str()),
            SerializationError::ProtobufError(e) => join("Protobuf error: ", e.as_str()),
            SerializationError::FeatureNotEnabled(feature) => join3(
                "Feature '",
                feature.as_str(),
                "' not enabled. Add to Cargo.toml features.",
            ),
            SerializationError::ProtobufNotImplemented =>
                "Protobuf serialization requires .proto schema definition".to_owned(),
            SerializationError::InvalidFormat(format) => join("Invalid serialization format: ", format.as_str()),
        }
    }
}

/// How many bytes a message takes in each format; zero where the format is not
/// built in.
#[derive(Debug, PartialEq)]
pub struct FormatComparison {
    pub json_size: usize,
    pub msgpack_size: usize,
    pub cbor_size: usize,
    pub protobuf_size: usize,
}

/// Writes and reads messages in one format. JSON is built in; MessagePack and
/// CBOR are optional features that this build is without, and Protocol Buffers
/// would need a schema.
#[derive(Debug, PartialEq)]
pub struct SerializationEngine {
    format: SerializationFormat,
}

/// The bytes of a message in JSON: the UTF-8 of its compact text, where the
/// writer makes one.
pub open spec fn json_bytes(message: WsMessageView) -> Option<Seq<u8>> {
    match json_written(message.json()) {
        Some(text) => Some(encode_utf8(text)),
        None => None,
    }
}

/// What [`SerializationEngine::serialize`] answers for a format other than JSON.
pub open spec fn refusal(format: SerializationFormat) -> SerializationErrorView {
    match format {
        SerializationFormat::MessagePack => SerializationErrorView::FeatureNotEnabled("msgpack"@),
        SerializationFormat::Cbor => SerializationErrorView::FeatureNotEnabled("cbor"@),
        _ => SerializationErrorView::ProtobufNotImplemented,
    }
}

fn refuse(format: SerializationFormat) -> (error: SerializationError)
    ensures
        error@ == refusal(format),
{
    match format {
        SerializationFormat::MessagePack => SerializationError::FeatureNotEnabled("msgpack".to_owned()),
        SerializationFormat::Cbor => SerializationError::FeatureNotEnabled("cbor".to_owned()),
        _ => SerializationError::ProtobufNotImplemented,
    }
}

impl SerializationEngine {
    /// An engine for `format`.
    pub fn new(format: SerializationFormat) -> (engine: Self)
        ensures
            engine.spec_format() == format,
    {
        SerializationEngine { format }
    }

    pub closed spec fn spec_format(&self) -> SerializationFormat {
        self.format
    }

    /// The format of the engine.
    pub fn format(&self) -> (format: SerializationFormat)
        ensures
            format == self.spec_format(),
    {
        self.format
    }

    /// Writes a message to bytes. In JSON the bytes are the UTF-8 of the
    /// message's compact text, and there are bytes exactly where the writer
    /// makes that text; every other format is refused.
    pub fn serialize(&self, message: &WsMessage) -> (r: Result<Vec<u8>, SerializationError>)
        ensures
            self.spec_format() != SerializationFormat::Json ==> (r matches Err(e) && e@ == refusal(
                self.spec_format(),
            )),
            self.spec_format() == SerializationFormat::Json ==> match r {
                Ok(bytes) => Some(bytes@) == json_bytes(message@),
                Err(e) => e is JsonError && json_bytes(message@).is_none(),
            },
    {
        match self.format {
            SerializationFormat::Json => self.serialize_json(message),
            other => Err(refuse(other)),
        }
    }

    /// Reads a message from bytes. In JSON it succeeds exactly on the UTF-8 of
    /// a text that is JSON and holds a message; every other format is refused.
    pub fn deserialize(&self, data: &[u8]) -> (r: Result<WsMessage, SerializationError>)
        ensures
            self.spec_format() != SerializationFormat::Json ==> (r matches Err(e) && e@ == refusal(
                self.spec_format(),
            )),
            self.spec_format() == SerializationFormat::Json ==> match r {
                Ok(message) => Self::reads(data@) && message@ == Self::read(data@),
                Err(e) => !Self::reads(data@) && e is JsonError,
            },
    {
        match self.format {
            SerializationFormat::Json => self.deserialize_json(data),
            other => Err(refuse(other)),
        }
    }

    /// Whether bytes are the UTF-8 of JSON that holds a message.
    pub open spec fn reads(data: Seq<u8>) -> bool {
        &&& valid_utf8(data)
        &&& json_parsed(decode_utf8(data)) matches Some(doc) && WsMessageView::fits(doc)
    }

    /// The message that bytes hold.
    pub open spec fn read(data: Seq<u8>) -> WsMessageView
        recommends
            Self::reads(data),
    {
        WsMessageView::from_json(json_parsed(decode_utf8(data)).unwrap())
    }

    fn serialize_json(&self, message: &WsMessage) -> (r: Result<Vec<u8>, SerializationError>)
        ensures
            match r {
                Ok(bytes) => Some(bytes@) == json_bytes(message@),
                Err(e) => e is JsonError && json_bytes(message@).is_none(),
            },
    {
        let value = message.to_json();
        match write_value(&value) {
            Ok(text) => Ok(text.as_str().as_bytes_vec()),
            Err(error) => Err(SerializationError::JsonError(error_text(&error))),
        }
    }

    fn deserialize_json(&self, data: &[u8]) -> (r: Result<WsMessage, SerializationError>)
        ensures
            match r {
                Ok(message) => Self::reads(data@) && message@ == Self::read(data@),
                Err(e) => !Self::reads(data@) && e is JsonError,
            },
    {
        let text = match decode_utf8_bytes(slice_to_vec(data)) {
            Ok(text) => text,
            Err(error) => { return Err(SerializationError::JsonError(utf8_error_text(&error))); },
        };
        let value = match parse_value(text.as_str()) {
            Ok(value) => value,
            Err(error) => { return Err(SerializationError::JsonError(error_text(&error))); },
        };
        match WsMessage::from_json(&value) {
            Some(message) => Ok(message),
            None => Err(SerializationError::JsonError("missing or invalid field".to_owned())),
        }
    }

    /// How many bytes `message` takes in each format: in JSON the length of
    /// what [`SerializationEngine::serialize`] writes, or zero where it cannot
    /// be written; zero in the formats that are not built in.
    pub fn get_format_comparison(message: &WsMessage) -> (sizes: FormatComparison)
        ensures
            sizes.json_size == match json_bytes(message@) {
                Some(bytes) => bytes.len(),
                None => 0,
            },
            sizes.msgpack_size == 0,
            sizes.cbor_size == 0,
            sizes.protobuf_size == 0,
    {
        let engine = SerializationEngine::new(SerializationFormat::Json);
        let json_size = match engine.serialize(message) {
            Ok(bytes) => bytes.len(),
            Err(_) => 0,
        };
        FormatComparison { json_size, msgpack_size: 0, cbor_size: 0, protobuf_size: 0 }
    }
}

/// What is to be known of the formats: a table of their kind, size, speed and
/// use, and how their sizes compare.
pub open spec fn details_lines() -> Seq<Seq<char>> {
    seq![
        ""@,
        "╔═════════════════════════════════════════════════════════════════════════════╗"@,
        "║                  SERIALIZATION FORMAT DETAILS                               ║"@,
        "╠═════════════════════════════════════════════════════════════════════════════╣"@,
        "║ Format        │ Type   │ Size    │ Speed    │ Use Case                    ║"@,
        "╠═══════════════┼════════┼═════════┼══════════┼═════════════════════════════╣"@,
        "║ JSON          │ Text   │ Large   │ Fast     │ Web APIs, debugging         ║"@,
        "║ MessagePack   │ Binary │ Small   │ Very Fast│ Real-time, mobile apps      ║"@,
        "║ CBOR          │ Binary │ Medium  │ Fast     │ IoT, constrained devices    ║"@,
        "║ Protobuf      │ Binary │ Smallest│ Fastest  │ Microservices, gRPC         ║"@,
        "╚═════════════════════════════════════════════════════════════════════════════╝"@,
        ""@,
        "Size Comparison (typical):"@,
        "  • JSON: 100% (baseline)"@,
        "  • MessagePack: ~60-70% of JSON size"@,
        "  • CBOR: ~70-80% of JSON size"@,
        "  • Protobuf: ~50-60% of JSON size"@,
        ""@,
    ]
}

/// What is to be known of the formats, line by line.
pub fn display_serialization_details() -> (lines: Vec<String>)
    ensures
        lines@.map_values(|l: String| l@) == details_lines(),
{
    let mut lines: Vec<String> = Vec::new();
    lines.push("".to_owned());
    lines.push("╔═════════════════════════════════════════════════════════════════════════════╗".to_owned());
    lines.push("║                  SERIALIZATION FORMAT DETAILS                               ║".to_owned());
    lines.push("╠═════════════════════════════════════════════════════════════════════════════╣".to_owned());
    lines.push("║ Format        │ Type   │ Size    │ Speed    │ Use Case                    ║".to_owned());
    lines.push("╠═══════════════┼════════┼═════════┼══════════┼═════════════════════════════╣".to_owned());
    lines.push("║ JSON          │ Text   │ Large   │ Fast     │ Web APIs, debugging         ║".to_owned());
    lines.push("║ MessagePack   │ Binary │ Small   │ Very Fast│ Real-time, mobile apps      ║".to_owned());
    lines.push("║ CBOR          │ Binary │ Medium  │ Fast     │ IoT, constrained devices    ║".to_owned());
    lines.push("║ Protobuf      │ Binary │ Smallest│ Fastest  │ Microservices, gRPC         ║".to_owned());
    lines.push("╚═════════════════════════════════════════════════════════════════════════════╝".to_owned());
    lines.push("".to_owned());
    lines.push("Size Comparison (typical):".to_owned());
    lines.push("  • JSON: 100% (baseline)".to_owned());
    lines.push("  • MessagePack: ~60-70% of JSON size".to_owned());
    lines.push("  • CBOR: ~70-80% of JSON size".to_owned());
    lines.push("  • Protobuf: ~50-60% of JSON size".to_owned());
    lines.push("".to_owned());
    assert(lines@.map_values(|l: String| l@) =~= details_lines());
    lines
}

/// A text of at most `max_len` bytes: the text itself where it is no longer,
/// else its first `max_len - 3` bytes and three dots.
pub fn truncate_str(s: &str, max_len: usize) -> (short: String)
    requires
        s.spec_bytes().len() > max_len ==> max_len >= 3 && vstd::utf8::is_char_boundary(
            s.spec_bytes(),
            max_len - 3,
        ),
    ensures
        s.spec_bytes().len() <= max_len ==> short@ == s@,
        s.spec_bytes().len() > max_len ==> exists|head: Seq<char>|
            encode_utf8(head) =~= s.spec_bytes().subrange(0, max_len - 3) && short@ == #[trigger] (head
                + "..."@),
{
    if s.as_bytes().len() > max_len {
        let head = s.split_at(max_len - 3).0;
        join(head, "...")
    } else {
        s.to_owned()
    }
}

} // verus!
