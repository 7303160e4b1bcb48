//! The error of the application, with what is known of where and why.

use vstd::prelude::*;
use vstd::string::*;
use crate::context_map::{with_entries, with_entry, ContextMap};
use crate::json::{error_text, json_model, json_written, write_value, Json};
use crate::stamp::{fresh_id, now_millis, ID_LENGTH};
use crate::text::{decimal, u64_text};

verus! {

/// The kinds of error, for programs to tell them apart.
#[derive(Debug, Clone, Copy, PartialEq, Eq, Structural)]
pub enum ErrorCode {
    EntityNotFound,
    ValidationFailed,
    BusinessRuleViolation,
    InvalidStateTransition,
    DatabaseError,
    ConnectionFailed,
    Timeout,
    SerializationError,
    CommandFailed,
    QueryFailed,
    HandlerError,
    UiError,
    CommunicationError,
    PluginError,
    PluginNotFound,
    PluginCapabilityNotFound,
    Unknown,
}

impl ErrorCode {
    /// The number of the kind: the thousands tell the layer it belongs to.
    pub open spec fn spec_number(self) -> u32 {
        match self {
            ErrorCode::EntityNotFound => 1000,
            ErrorCode::ValidationFailed => 1001,
            ErrorCode::BusinessRuleViolation => 1002,
            ErrorCode::InvalidStateTransition => 1003,
            ErrorCode::DatabaseError => 2000,
            ErrorCode::ConnectionFailed => 2001,
            ErrorCode::Timeout => 2002,
            ErrorCode::SerializationError => 2003,
            ErrorCode::CommandFailed => 3000,
            ErrorCode::QueryFailed => 3001,
            ErrorCode::HandlerError => 3002,
            ErrorCode::UiError => 4000,
            ErrorCode::CommunicationError => 4001,
            ErrorCode::PluginError => 5000,
            ErrorCode::PluginNotFound => 5001,
            ErrorCode::PluginCapabilityNotFound => 5002,
            ErrorCode::Unknown => 9999,
        }
    }

    /// The kind in words.
    pub open spec fn spec_text(self) -> Seq<char> {
        match self {
            ErrorCode::EntityNotFound => "Entity not found"@,
            ErrorCode::ValidationFailed => "Validation failed"@,
            ErrorCode::BusinessRuleViolation => "Business rule violation"@,
            ErrorCode::InvalidStateTransition => "Invalid state transition"@,
            ErrorCode::DatabaseError => "Database error"@,
            ErrorCode::ConnectionFailed => "Connection failed"@,
            ErrorCode::Timeout => "Timeout"@,
            ErrorCode::SerializationError => "Serialization error"@,
            ErrorCode::CommandFailed => "Command failed"@,
            ErrorCode::QueryFailed => "Query failed"@,
            ErrorCode::HandlerError => "Handler error"@,
            ErrorCode::UiError => "UI error"@,
            ErrorCode::CommunicationError => "Communication error"@,
            ErrorCode::PluginError => "Plugin error"@,
            ErrorCode::PluginNotFound => "Plugin not found"@,
            ErrorCode::PluginCapabilityNotFound => "Plugin capability not found"@,
            ErrorCode::Unknown => "Unknown error"@,
        }
    }

    /// The name of the kind, as it is written in code.
    pub open spec fn spec_name(self) -> Seq<char> {
        match self {
            ErrorCode::EntityNotFound => "EntityNotFound"@,
            ErrorCode::ValidationFailed => "ValidationFailed"@,
            ErrorCode::BusinessRuleViolation => "BusinessRuleViolation"@,
            ErrorCode::InvalidStateTransition => "InvalidStateTransition"@,
            ErrorCode::DatabaseError => "DatabaseError"@,
            ErrorCode::ConnectionFailed => "ConnectionFailed"@,
            ErrorCode::Timeout => "Timeout"@,
            ErrorCode::SerializationError => "SerializationError"@,
            ErrorCode::CommandFailed => "CommandFailed"@,
            ErrorCode::QueryFailed => "QueryFailed"@,
            ErrorCode::HandlerError => "HandlerError"@,
            ErrorCode::UiError => "UiError"@,
            ErrorCode::CommunicationError => "CommunicationError"@,
            ErrorCode::PluginError => "PluginError"@,
            ErrorCode::PluginNotFound => "PluginNotFound"@,
            ErrorCode::PluginCapabilityNotFound => "PluginCapabilityNotFound"@,
            ErrorCode::Unknown => "Unknown"@,
        }
    }

    /// The number of the kind.
    pub fn number(&self) -> (n: u32)
        ensures
            n == self.spec_number(),
    {
        match self {
            ErrorCode::EntityNotFound => 1000,
            ErrorCode::ValidationFailed => 1001,
            ErrorCode::BusinessRuleViolation => 1002,
            ErrorCode::InvalidStateTransition => 1003,
            ErrorCode::DatabaseError => 2000,
            ErrorCode::ConnectionFailed => 2001,
            ErrorCode::Timeout => 2002,
            ErrorCode::SerializationError => 2003,
            ErrorCode::CommandFailed => 3000,
            ErrorCode::QueryFailed => 3001,
            ErrorCode::HandlerError => 3002,
            ErrorCode::UiError => 4000,
            ErrorCode::CommunicationError => 4001,
            ErrorCode::PluginError => 5000,
            ErrorCode::PluginNotFound => 5001,
            ErrorCode::PluginCapabilityNotFound => 5002,
            ErrorCode::Unknown => 9999,
        }
    }

    /// The kind in words.
    pub fn to_string(&self) -> (text: String)
        ensures
            text@ == self.spec_text(),
    {
        match self {
            ErrorCode::EntityNotFound => "Entity not found".to_owned(),
            ErrorCode::ValidationFailed => "Validation failed".to_owned(),
            ErrorCode::BusinessRuleViolation => "Business rule violation".to_owned(),
            ErrorCode::InvalidStateTransition => "Invalid state transition".to_owned(),
            ErrorCode::DatabaseError => "Database error".to_owned(),
            ErrorCode::ConnectionFailed => "Connection failed".to_owned(),
            ErrorCode::Timeout => "Timeout".to_owned(),
            ErrorCode::SerializationError => "Serialization error".to_owned(),
            ErrorCode::CommandFailed => "Command failed".to_owned(),
            ErrorCode::QueryFailed => "Query failed".to_owned(),
            ErrorCode::HandlerError => "Handler error".to_owned(),
            ErrorCode::UiError => "UI error".to_owned(),
            ErrorCode::CommunicationError => "Communication error".to_owned(),
            ErrorCode::PluginError => "Plugin error".to_owned(),
            ErrorCode::PluginNotFound => "Plugin not found".to_owned(),
            ErrorCode::PluginCapabilityNotFound => "Plugin capability not found".to_owned(),
            ErrorCode::Unknown => "Unknown error".to_owned(),
        }
    }

    /// The name of the kind, as it is written in code.
    pub fn name(&self) -> (text: &'static str)
        ensures
            text@ == self.spec_name(),
    {
        match self {
            ErrorCode::EntityNotFound => "EntityNotFound",
            ErrorCode::ValidationFailed => "ValidationFailed",
            ErrorCode::BusinessRuleViolation => "BusinessRuleViolation",
            ErrorCode::InvalidStateTransition => "InvalidStateTransition",
            ErrorCode::DatabaseError => "DatabaseError",
            ErrorCode::ConnectionFailed => "ConnectionFailed",
            ErrorCode::Timeout => "Timeout",
            ErrorCode::SerializationError => "SerializationError",
            ErrorCode::CommandFailed => "CommandFailed",
            ErrorCode::QueryFailed => "QueryFailed",
            ErrorCode::HandlerError => "HandlerError",
            ErrorCode::UiError => "UiError",
            ErrorCode::CommunicationError => "CommunicationError",
            ErrorCode::PluginError => "PluginError",
            ErrorCode::PluginNotFound => "PluginNotFound",
            ErrorCode::PluginCapabilityNotFound => "PluginCapabilityNotFound",
            ErrorCode::Unknown => "Unknown",
        }
    }
}

/// Where an error came up.
#[derive(Debug, PartialEq)]
pub struct ErrorLocation {
    pub module: String,
    pub function: Option<String>,
    pub line: Option<u32>,
    pub file: Option<String>,
}

/// What may be done about an error.
#[derive(Debug, PartialEq)]
pub enum RecoveryAction {
    Retry,
    RetryWithBackoff { max_retries: u32, delay_ms: u64 },
    Fallback { fallback_value: String },
    LogAndContinue,
    UserNotification { message: String },
    Abort,
}

impl RecoveryAction {
    /// Whether the action is one that tries again or falls back.
    pub open spec fn recovers(self) -> bool {
        self is Retry || self is RetryWithBackoff || self is Fallback
    }
}

/// The text of an optional text.
pub open spec fn text_view(text: Option<String>) -> Option<Seq<char>> {
    match text {
        Some(t) => Some(t@),
        None => None,
    }
}

/// The text of an optional text.
pub open spec fn str_view(text: Option<&str>) -> Option<Seq<char>> {
    match text {
        Some(t) => Some(t@),
        None => None,
    }
}

/// An error, with what is known of where and why.
#[derive(Debug, PartialEq)]
pub struct AppError {
    /// An identifier of this one error.
    pub id: String,
    pub code: ErrorCode,
    pub message: String,
    /// What caused the error, where it is one of a chain.
    pub cause: Option<String>,
    pub context: ContextMap,
    /// When the error came up, in milliseconds since the Unix epoch.
    pub timestamp: u64,
    pub location: Option<ErrorLocation>,
    pub recovery: Option<RecoveryAction>,
}

/// The result of an operation of the application.
pub type AppResult<T> = Result<T, AppError>;

/// The line of a location: the module and the line number, zero where none is
/// known.
pub open spec fn location_line(location: ErrorLocation) -> Seq<char> {
    "Location: "@ + location.module@ + ":"@ + decimal(
        match location.line {
            Some(n) => n as nat,
            None => 0,
        },
    ) + "\n"@
}

/// The lines of the context: one for each value, given the values as texts.
pub open spec fn context_lines(context: Seq<(Seq<char>, Json)>, texts: Seq<Seq<char>>, upto: int) -> Seq<char>
    decreases upto,
{
    if upto <= 0 {
        Seq::empty()
    } else {
        context_lines(context, texts, upto - 1) + "  "@ + context[upto - 1].0 + ": "@ + texts[upto - 1] + "\n"@
    }
}

/// Whether `texts` are the values of a context as the details show them: each
/// by its compact JSON, where the writer makes one.
pub open spec fn writes_values(context: Seq<(Seq<char>, Json)>, texts: Seq<Seq<char>>) -> bool {
    &&& texts.len() == context.len()
    &&& forall|i: int|
        0 <= i < context.len() ==> (json_written((#[trigger] context[i]).1) matches Some(written)
            ==> texts[i] == written)
}

impl AppError {
    /// The first line of a log entry: the kind in words, the identifier, and
    /// the message.
    pub open spec fn spec_summary(self) -> Seq<char> {
        "["@ + self.code.spec_text() + "] "@ + self.id@ + " - "@ + self.message@
    }

    /// The part of the details that every error has, and the lines on cause and
    /// location where they are known.
    pub open spec fn details_head(self) -> Seq<char> {
        "Error ID: "@ + self.id@ + "\nCode: "@ + self.code.spec_name() + "\nMessage: "@ + self.message@
            + "\n"@ + (match self.cause {
            Some(cause) => "Cause: "@ + cause@ + "\n"@,
            None => Seq::empty(),
        }) + (match self.location {
            Some(location) => location_line(location),
            None => Seq::empty(),
        })
    }

    /// The details, given the values of the context as texts.
    pub open spec fn details_with(self, texts: Seq<Seq<char>>) -> Seq<char> {
        if self.context@.len() == 0 {
            self.details_head()
        } else {
            self.details_head() + "Context:\n"@ + context_lines(self.context@, texts, self.context@.len() as int)
        }
    }

    /// A new error of the given kind, with a fresh identifier, as of now.
    pub fn new(code: ErrorCode, message: &str) -> (error: Self)
        ensures
            error.code == code,
            error.message@ == message@,
            error.cause is None,
            error.context@.len() == 0,
            error.location is None,
            error.recovery is None,
            error.id@.len() == ID_LENGTH,
    {
        AppError {
            id: fresh_id(),
            code,
            message: message.to_owned(),
            cause: None,
            context: ContextMap::new(),
            timestamp: now_millis(),
            location: None,
            recovery: None,
        }
    }

    /// The error with one more value in its context.
    pub fn with_context(self, key: &str, value: serde_json::Value) -> (error: Self)
        ensures
            error.context@ == with_entry(self.context@, key@, json_model(value)),
            error.id == self.id,
            error.code == self.code,
            error.message == self.message,
            error.cause == self.cause,
            error.timestamp == self.timestamp,
            error.location == self.location,
            error.recovery == self.recovery,
    {
        let mut error = self;
        error.context.insert(key.to_owned(), value);
        error
    }

    /// The error with more values in its context.
    pub fn with_context_map(self, context: ContextMap) -> (error: Self)
        ensures
            error.context@ == with_entries(self.context@, context@),
            error.id == self.id,
            error.code == self.code,
            error.message == self.message,
            error.cause == self.cause,
            error.timestamp == self.timestamp,
            error.location == self.location,
            error.recovery == self.recovery,
    {
        let mut error = self;
        error.context.extend(context);
        error
    }

    /// The error, with the place where it came up.
    pub fn with_location(self, module: &str, function: Option<&str>, line: Option<u32>) -> (error: Self)
        ensures
            error.location matches Some(location) && {
                &&& location.module@ == module@
                &&& text_view(location.function) == str_view(function)
                &&& location.line == line
                &&& location.file is None
            },
            error.id == self.id,
            error.code == self.code,
            error.message == self.message,
            error.cause == self.cause,
            error.context == self.context,
            error.timestamp == self.timestamp,
            error.recovery == self.recovery,
    {
        let function = match function {
            Some(name) => Some(name.to_owned()),
            None => None,
        };
        let mut error = self;
        error.location = Some(ErrorLocation { module: module.to_owned(), function, line, file: None });
        error
    }

    /// The error, with what caused it.
    pub fn with_cause(self, cause: &str) -> (error: Self)
        ensures
            text_view(error.cause) == Some(cause@),
            error.id == self.id,
            error.code == self.code,
            error.message == self.message,
            error.context == self.context,
            error.timestamp == self.timestamp,
            error.location == self.location,
            error.recovery == self.recovery,
    {
        let mut error = self;
        error.cause = Some(cause.to_owned());
        error
    }

    /// The error, with what may be done about it.
    pub fn with_recovery(self, recovery: RecoveryAction) -> (error: Self)
        ensures
            error.recovery == Some(recovery),
            error.id == self.id,
            error.code == self.code,
            error.message == self.message,
            error.cause == self.cause,
            error.context == self.context,
            error.timestamp == self.timestamp,
            error.location == self.location,
    {
        let mut error = self;
        error.recovery = Some(recovery);
        error
    }

    /// The error as a result.
    pub fn into_result<T>(self) -> (r: Result<T, Self>)
        ensures
            r == Err::<T, AppError>(self),
    {
        Err(self)
    }

    /// The first line of a log entry.
    pub fn summary(&self) -> (text: String)
        ensures
            text@ == self.spec_summary(),
    {
        let mut text = "[".to_owned();
        text.append(self.code.to_string().as_str());
        text.append("] ");
        text.append(self.id.as_str());
        text.append(" - ");
        text.append(self.message.as_str());
        text
    }

    /// The values of the context as texts: the compact JSON of each value, or
    /// the writer's words where it gave up on one.
    pub fn context_texts(&self) -> (texts: Vec<String>)
        ensures
            writes_values(self.context@, texts@.map_values(|t: String| t@)),
    {
        let mut texts: Vec<String> = Vec::new();
        let mut i: usize = 0;
        while i < self.context.len()
            invariant
                i <= self.context@.len(),
                texts@.len() == i,
                forall|k: int|
                    0 <= k < i ==> (json_written((#[trigger] self.context@[k]).1) matches Some(written)
                        ==> texts@[k]@ == written),
            decreases self.context@.len() - i,
        {
            let text = match write_value(self.context.value_at(i)) {
                Ok(text) => text,
                Err(error) => error_text(&error),
            };
            texts.push(text);
            i = i + 1;
        }
        texts
    }

    /// The error in full, for a reader who has to find its cause.
    pub fn details(&self) -> (text: String)
        ensures
            exists|texts: Seq<Seq<char>>|
                writes_values(self.context@, texts) && text@ == #[trigger] self.details_with(texts),
    {
        let texts = self.context_texts();
        let text = self.details_from(&texts);
        assert(text@ == self.details_with(texts@.map_values(|t: String| t@)));
        text
    }

    /// The error in full, given the values of its context as texts.
    pub fn details_from(&self, texts: &Vec<String>) -> (text: String)
        requires
            texts@.len() == self.context@.len(),
        ensures
            text@ == self.details_with(texts@.map_values(|t: String| t@)),
    {
        let ghost shown = texts@.map_values(|t: String| t@);
        let mut text = "Error ID: ".to_owned();
        text.append(self.id.as_str());
        text.append("\nCode: ");
        text.append(self.code.name());
        text.append("\nMessage: ");
        text.append(self.message.as_str());
        text.append("\n");
        match &self.cause {
            Some(cause) => {
                text.append("Cause: ");
                text.append(cause.as_str());
                text.append("\n");
            },
            None => {},
        }
        match &self.location {
            Some(location) => {
                let line: u32 = match location.line {
                    Some(n) => n,
                    None => 0,
                };
                text.append("Location: ");
                text.append(location.module.as_str());
                text.append(":");
                text.append(u64_text(line as u64).as_str());
                text.append("\n");
            },
            None => {},
        }
        assert(text@ =~= self.details_head());
        if !self.context.is_empty() {
            text.append("Context:\n");
            let mut i: usize = 0;
            while i < self.context.len()
                invariant
                    i <= self.context@.len(),
                    texts@.len() == self.context@.len(),
                    shown == texts@.map_values(|t: String| t@),
                    text@ == self.details_head() + "Context:\n"@ + context_lines(self.context@, shown, i as int),
                decreases self.context@.len() - i,
            {
                let ghost before = text@;
                text.append("  ");
                text.append(self.context.key_at(i));
                text.append(": ");
                text.append(texts[i].as_str());
                text.append("\n");
                assert(shown[i as int] == texts@[i as int]@);
                assert(text@ =~= self.details_head() + "Context:\n"@ + context_lines(
                    self.context@,
                    shown,
                    i + 1,
                ));
                i = i + 1;
            }
        }
        text
    }
}

} // verus!
