//! The errors that the server sends to a client.

use vstd::prelude::*;
use vstd::string::*;
use crate::json::{insert_field, json_model, new_fields, no_fields, object_value, text_value, u64_value, Json};
use crate::websocket::protocol::{FrameFault, FrameFaultView};
use crate::websocket::wire::{WebSocketError, WebSocketErrorView};

verus! {

/// The error that answers a frame which held no message. The connection goes
/// on after it.
pub open spec fn fault_notice(fault: FrameFaultView, now: u64) -> WebSocketErrorView {
    match fault {
        FrameFaultView::Text { raw, problem } => WebSocketErrorView {
            id: "parse_error"@,
            error_type: "JSON_PARSE_ERROR"@,
            message: "Invalid JSON format"@,
            details: Some(
                Json::Object(
                    no_fields().insert("raw_message"@, Json::Text(raw)).insert(
                        "parse_error"@,
                        Json::Text(problem),
                    ),
                ),
            ),
            timestamp: now,
        },
        FrameFaultView::Binary { length, problem } => WebSocketErrorView {
            id: "binary_parse_error"@,
            error_type: "BINARY_PARSE_ERROR"@,
            message: "Invalid binary data format"@,
            details: Some(
                Json::Object(
                    no_fields().insert("binary_length"@, Json::Integer(length as int)).insert(
                        "parse_error"@,
                        Json::Text(problem),
                    ),
                ),
            ),
            timestamp: now,
        },
        FrameFaultView::Utf8 { problem } => WebSocketErrorView {
            id: "utf8_error"@,
            error_type: "UTF8_DECODE_ERROR"@,
            message: "Binary data is not valid UTF-8"@,
            details: Some(Json::Object(no_fields().insert("decode_error"@, Json::Text(problem)))),
            timestamp: now,
        },
    }
}

/// The error that tells a client that the transport failed. The connection ends
/// after it.
pub open spec fn protocol_notice(error: Seq<char>, now: u64) -> WebSocketErrorView {
    WebSocketErrorView {
        id: "protocol_error"@,
        error_type: "PROTOCOL_ERROR"@,
        message: "WebSocket protocol error"@,
        details: Some(Json::Object(no_fields().insert("error"@, Json::Text(error)))),
        timestamp: now,
    }
}

fn notice(id: &str, error_type: &str, message: &str, details: serde_json::Value, now: u64) -> (error: WebSocketError)
    ensures
        error@ == (WebSocketErrorView {
            id: id@,
            error_type: error_type@,
            message: message@,
            details: Some(json_model(details)),
            timestamp: now,
        }),
{
    WebSocketError {
        id: id.to_owned(),
        error_type: error_type.to_owned(),
        message: message.to_owned(),
        details: Some(details),
        timestamp: now,
    }
}

impl WebSocketError {
    /// The error that answers a frame which held no message.
    pub fn for_fault(fault: FrameFault, now: u64) -> (error: WebSocketError)
        ensures
            error@ == fault_notice(fault@, now),
    {
        match fault {
            FrameFault::Text { raw, problem } => {
                let mut fields = new_fields();
                insert_field(&mut fields, "raw_message".to_owned(), text_value(raw));
                insert_field(&mut fields, "parse_error".to_owned(), text_value(problem));
                notice("parse_error", "JSON_PARSE_ERROR", "Invalid JSON format", object_value(fields), now)
            },
            FrameFault::Binary { length, problem } => {
                let mut fields = new_fields();
                insert_field(&mut fields, "binary_length".to_owned(), u64_value(length));
                insert_field(&mut fields, "parse_error".to_owned(), text_value(problem));
                notice(
                    "binary_parse_error",
                    "BINARY_PARSE_ERROR",
                    "Invalid binary data format",
                    object_value(fields),
                    now,
                )
            },
            FrameFault::Utf8 { problem } => {
                let mut fields = new_fields();
                insert_field(&mut fields, "decode_error".to_owned(), text_value(problem));
                notice(
                    "utf8_error",
                    "UTF8_DECODE_ERROR",
                    "Binary data is not valid UTF-8",
                    object_value(fields),
                    now,
                )
            },
        }
    }

    /// The error that tells a client that the transport failed.
    pub fn for_protocol_failure(error: &str, now: u64) -> (notice: WebSocketError)
        ensures
            notice@ == protocol_notice(error@, now),
    {
        let mut fields = new_fields();
        insert_field(&mut fields, "error".to_owned(), text_value(error.to_owned()));
        notice("protocol_error", "PROTOCOL_ERROR", "WebSocket protocol error", object_value(fields), now)
    }
}

} // verus!
