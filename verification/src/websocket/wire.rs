//! The two envelopes of the wire: the message, which travels both ways, and the
//! error that answers a frame the server could not read.

use vstd::prelude::*;
use vstd::string::*;
use crate::json::{
    clone_value, error_text, insert_field, json_as_text, json_as_u64, json_field, json_model,
    json_parsed, json_written, new_fields, no_fields, null_value, object_value, parse_value,
    text_value, u64_value, value_as_text, value_as_u64, value_field, write_value, Json,
};
use crate::text::join3;

verus! {

/// A message as it travels over a connection, in either direction.
#[derive(Debug, PartialEq)]
pub struct WebSocketEvent {
    pub id: String,
    pub name: String,
    pub payload: serde_json::Value,
    /// Milliseconds since the Unix epoch.
    pub timestamp: u64,
    pub source: String,
}

pub struct WebSocketEventView {
    pub id: Seq<char>,
    pub name: Seq<char>,
    pub payload: Json,
    pub timestamp: u64,
    pub source: Seq<char>,
}

/// The field `key` of `doc`, where it is a string.
pub open spec fn text_field(doc: Json, key: Seq<char>) -> Option<Seq<char>> {
    match json_field(doc, key) {
        Some(field) => json_as_text(field),
        None => None,
    }
}

/// The field `key` of `doc`, where it is a non-negative integer.
pub open spec fn u64_field(doc: Json, key: Seq<char>) -> Option<u64> {
    match json_field(doc, key) {
        Some(field) => json_as_u64(field),
        None => None,
    }
}

impl WebSocketEventView {
    /// The message as a JSON object of its five fields.
    pub open spec fn json(self) -> Json {
        Json::Object(
            no_fields().insert("id"@, Json::Text(self.id)).insert("name"@, Json::Text(self.name)).insert(
                "payload"@,
                self.payload,
            ).insert("timestamp"@, Json::Integer(self.timestamp as int)).insert(
                "source"@,
                Json::Text(self.source),
            ),
        )
    }

    /// Whether `doc` has the five fields of a message, each of its type.
    pub open spec fn fits(doc: Json) -> bool {
        &&& text_field(doc, "id"@) is Some
        &&& text_field(doc, "name"@) is Some
        &&& json_field(doc, "payload"@) is Some
        &&& u64_field(doc, "timestamp"@) is Some
        &&& text_field(doc, "source"@) is Some
    }

    /// The message that `doc` holds. Fields beyond the five are ignored.
    pub open spec fn from_json(doc: Json) -> WebSocketEventView
        recommends
            Self::fits(doc),
    {
        WebSocketEventView {
            id: text_field(doc, "id"@).unwrap(),
            name: text_field(doc, "name"@).unwrap(),
            payload: json_field(doc, "payload"@).unwrap(),
            timestamp: u64_field(doc, "timestamp"@).unwrap(),
            source: text_field(doc, "source"@).unwrap(),
        }
    }

    /// The first of the five fields that `doc` lacks or holds with another type.
    pub open spec fn first_misfit(doc: Json) -> Seq<char> {
        if text_field(doc, "id"@) is None {
            "id"@
        } else if text_field(doc, "name"@) is None {
            "name"@
        } else if json_field(doc, "payload"@) is None {
            "payload"@
        } else if u64_field(doc, "timestamp"@) is None {
            "timestamp"@
        } else {
            "source"@
        }
    }

    /// What is reported of a document that is no message.
    pub open spec fn misfit_message(doc: Json) -> Seq<char> {
        "missing or invalid field `"@ + Self::first_misfit(doc) + "`"@
    }
}

impl View for WebSocketEvent {
    type V = WebSocketEventView;

    open spec fn view(&self) -> WebSocketEventView {
        WebSocketEventView {
            id: self.id@,
            name: self.name@,
            payload: json_model(self.payload),
            timestamp: self.timestamp,
            source: self.source@,
        }
    }
}

impl Clone for WebSocketEvent {
    fn clone(&self) -> (copy: Self)
        ensures
            copy@ == self@,
    {
        WebSocketEvent {
            id: self.id.clone(),
            name: self.name.clone(),
            payload: clone_value(&self.payload),
            timestamp: self.timestamp,
            source: self.source.clone(),
        }
    }
}

fn misfit(field: &str) -> (r: Result<WebSocketEvent, String>)
    ensures
        r matches Err(message) && message@ == "missing or invalid field `"@ + field@ + "`"@,
{
    Err(join3("missing or invalid field `", field, "`"))
}

impl WebSocketEvent {
    /// The message as a JSON value.
    pub fn to_json(&self) -> (value: serde_json::Value)
        ensures
            json_model(value) == self@.json(),
    {
        let mut fields = new_fields();
        insert_field(&mut fields, "id".to_owned(), text_value(self.id.clone()));
        insert_field(&mut fields, "name".to_owned(), text_value(self.name.clone()));
        insert_field(&mut fields, "payload".to_owned(), clone_value(&self.payload));
        insert_field(&mut fields, "timestamp".to_owned(), u64_value(self.timestamp));
        insert_field(&mut fields, "source".to_owned(), text_value(self.source.clone()));
        object_value(fields)
    }

    /// Reads a message from a JSON value: `Ok` exactly where the value has the
    /// five fields, each of its type; else the field that is at fault.
    pub fn from_json(value: &serde_json::Value) -> (r: Result<WebSocketEvent, String>)
        ensures
            match r {
                Ok(message) => WebSocketEventView::fits(json_model(*value)) && message@
                    == WebSocketEventView::from_json(json_model(*value)),
                Err(problem) => !WebSocketEventView::fits(json_model(*value)) && problem@
                    == WebSocketEventView::misfit_message(json_model(*value)),
            },
    {
        let id = match value_field(value, "id") {
            Some(field) => match value_as_text(field) {
                Some(text) => text.to_owned(),
                None => { return misfit("id"); },
            },
            None => { return misfit("id"); },
        };
        let name = match value_field(value, "name") {
            Some(field) => match value_as_text(field) {
                Some(text) => text.to_owned(),
                None => { return misfit("name"); },
            },
            None => { return misfit("name"); },
        };
        let payload = match value_field(value, "payload") {
            Some(field) => clone_value(field),
            None => { return misfit("payload"); },
        };
        let timestamp = match value_field(value, "timestamp") {
            Some(field) => match value_as_u64(field) {
                Some(n) => n,
                None => { return misfit("timestamp"); },
            },
            None => { return misfit("timestamp"); },
        };
        let source = match value_field(value, "source") {
            Some(field) => match value_as_text(field) {
                Some(text) => text.to_owned(),
                None => { return misfit("source"); },
            },
            None => { return misfit("source"); },
        };
        Ok(WebSocketEvent { id, name, payload, timestamp, source })
    }

    /// Reads a message from the text of a frame. It succeeds exactly where the
    /// text is JSON that holds a message. Of text that is no JSON the parser's
    /// own words are handed back.
    pub fn decode(text: &str) -> (r: Result<WebSocketEvent, String>)
        ensures
            r is Ok <==> Self::decodes(text@),
            r matches Ok(message) ==> message@ == Self::decoded(text@),
            r matches Err(problem) ==> (json_parsed(text@) matches Some(doc) ==> problem@
                == WebSocketEventView::misfit_message(doc)),
    {
        match parse_value(text) {
            Ok(value) => WebSocketEvent::from_json(&value),
            Err(error) => Err(error_text(&error)),
        }
    }

    /// Whether a text is JSON that holds a message.
    pub open spec fn decodes(text: Seq<char>) -> bool {
        json_parsed(text) matches Some(doc) && WebSocketEventView::fits(doc)
    }

    /// The message that a text holds.
    pub open spec fn decoded(text: Seq<char>) -> WebSocketEventView
        recommends
            Self::decodes(text),
    {
        WebSocketEventView::from_json(json_parsed(text).unwrap())
    }

    /// Writes the message as the text of a frame: the compact JSON of its five
    /// fields. It succeeds exactly where the writer makes a text of that JSON;
    /// where the writer gives up, its own words are handed back.
    pub fn encode(&self) -> (r: Result<String, String>)
        ensures
            match r {
                Ok(text) => json_written(self@.json()) == Some(text@),
                Err(_) => json_written(self@.json()).is_none(),
            },
    {
        let value = self.to_json();
        match write_value(&value) {
            Ok(text) => Ok(text),
            Err(error) => Err(error_text(&error)),
        }
    }
}

/// What the server sends in place of a reply when it could not read a frame.
#[derive(Debug, PartialEq)]
pub struct WebSocketError {
    pub id: String,
    pub error_type: String,
    pub message: String,
    pub details: Option<serde_json::Value>,
    /// Milliseconds since the Unix epoch.
    pub timestamp: u64,
}

pub struct WebSocketErrorView {
    pub id: Seq<char>,
    pub error_type: Seq<char>,
    pub message: Seq<char>,
    pub details: Option<Json>,
    pub timestamp: u64,
}

/// The content of an optional JSON value.
pub open spec fn details_view(details: Option<serde_json::Value>) -> Option<Json> {
    match details {
        Some(value) => Some(json_model(value)),
        None => None,
    }
}

impl WebSocketErrorView {
    /// The error as a JSON object of its five fields; absent details are `null`.
    pub open spec fn json(self) -> Json {
        Json::Object(
            no_fields().insert("id"@, Json::Text(self.id)).insert(
                "error_type"@,
                Json::Text(self.error_type),
            ).insert("message"@, Json::Text(self.message)).insert(
                "details"@,
                match self.details {
                    Some(details) => details,
                    None => Json::Null,
                },
            ).insert("timestamp"@, Json::Integer(self.timestamp as int)),
        )
    }
}

impl View for WebSocketError {
    type V = WebSocketErrorView;

    open spec fn view(&self) -> WebSocketErrorView {
        WebSocketErrorView {
            id: self.id@,
            error_type: self.error_type@,
            message: self.message@,
            details: details_view(self.details),
            timestamp: self.timestamp,
        }
    }
}

impl Clone for WebSocketError {
    fn clone(&self) -> (copy: Self)
        ensures
            copy@ == self@,
    {
        let details = match &self.details {
            Some(value) => Some(clone_value(value)),
            None => None,
        };
        WebSocketError {
            id: self.id.clone(),
            error_type: self.error_type.clone(),
            message: self.message.clone(),
            details,
            timestamp: self.timestamp,
        }
    }
}

impl WebSocketError {
    /// The error as a JSON value.
    pub fn to_json(&self) -> (value: serde_json::Value)
        ensures
            json_model(value) == self@.json(),
    {
        let details = match &self.details {
            Some(value) => clone_value(value),
            None => null_value(),
        };
        let mut fields = new_fields();
        insert_field(&mut fields, "id".to_owned(), text_value(self.id.clone()));
        insert_field(&mut fields, "error_type".to_owned(), text_value(self.error_type.clone()));
        insert_field(&mut fields, "message".to_owned(), text_value(self.message.clone()));
        insert_field(&mut fields, "details".to_owned(), details);
        insert_field(&mut fields, "timestamp".to_owned(), u64_value(self.timestamp));
        object_value(fields)
    }

    /// Writes the error as the text of a frame: the compact JSON of its five
    /// fields. It succeeds exactly where the writer makes a text of that JSON;
    /// where the writer gives up, its own words are handed back.
    pub fn encode(&self) -> (r: Result<String, String>)
        ensures
            match r {
                Ok(text) => json_written(self@.json()) == Some(text@),
                Err(_) => json_written(self@.json()).is_none(),
            },
    {
        let value = self.to_json();
        match write_value(&value) {
            Ok(text) => Ok(text),
            Err(error) => Err(error_text(&error)),
        }
    }
}

} // verus!
