//! What is done with an error where it surfaces.

use vstd::prelude::*;
use vstd::string::*;
use crate::error_handling::app_error::{
    writes_values, AppError, AppResult, ErrorCode, RecoveryAction,
};
use crate::json::{
    bool_value, insert_field, json_model, new_fields, no_fields, null_value, object_value,
    text_value, Json,
};
use crate::text::join;
use crate::timefmt::{format_rfc3339, timestamp_text};

verus! {

/// How loud an error is logged.
#[derive(Debug, Clone, Copy, PartialEq, Eq, Structural)]
pub enum LogLevel {
    Error,
    Warn,
    Info,
    Debug,
}

/// Handles errors where they surface: decides what is logged and whether a
/// recovery is tried.
#[derive(Debug, PartialEq)]
pub struct ErrorHandler {
    log_level: LogLevel,
    include_stack: bool,
}

/// What is to be written to the log.
#[derive(Debug, PartialEq)]
pub struct LogRecord {
    pub level: LogLevel,
    pub message: String,
}

/// What the user is told of an error: for most kinds a fixed sentence, for
/// some the error's own message.
pub open spec fn user_message(code: ErrorCode, message: Seq<char>) -> Seq<char> {
    match code {
        ErrorCode::EntityNotFound => "The requested item was not found"@,
        ErrorCode::ValidationFailed => "Validation failed: "@ + message,
        ErrorCode::BusinessRuleViolation => message,
        ErrorCode::InvalidStateTransition => message,
        ErrorCode::DatabaseError => "A database error occurred. Please try again."@,
        ErrorCode::ConnectionFailed => "Connection failed. Please check your network."@,
        ErrorCode::Timeout => "The operation timed out. Please try again."@,
        ErrorCode::SerializationError => "Data format error. Please refresh."@,
        ErrorCode::CommandFailed => "An operation failed. Please try again."@,
        ErrorCode::QueryFailed => "An operation failed. Please try again."@,
        ErrorCode::HandlerError => "An operation failed. Please try again."@,
        ErrorCode::UiError => "Display error. Please refresh the page."@,
        ErrorCode::CommunicationError => "Communication error. Please check connection."@,
        ErrorCode::PluginError => "Feature unavailable. Please contact support."@,
        ErrorCode::PluginNotFound => "Feature unavailable. Please contact support."@,
        ErrorCode::PluginCapabilityNotFound => "Feature unavailable. Please contact support."@,
        ErrorCode::Unknown => message,
    }
}

/// Whether a recovery is tried for an error: where the error asks to try again
/// or to fall back.
pub open spec fn wants_recovery(error: AppError) -> bool {
    match error.recovery {
        Some(action) => action.recovers(),
        None => false,
    }
}

impl ErrorHandler {
    /// A handler that logs errors as errors, by their summary.
    pub fn new() -> (handler: Self)
        ensures
            handler.level() == LogLevel::Error,
            !handler.includes_stack(),
    {
        ErrorHandler { log_level: LogLevel::Error, include_stack: false }
    }

    pub closed spec fn level(&self) -> LogLevel {
        self.log_level
    }

    pub closed spec fn includes_stack(&self) -> bool {
        self.include_stack
    }

    /// The handler, logging at `level`.
    pub fn with_log_level(self, level: LogLevel) -> (handler: Self)
        ensures
            handler.level() == level,
            handler.includes_stack() == self.includes_stack(),
    {
        ErrorHandler { log_level: level, include_stack: self.include_stack }
    }

    /// The handler, logging errors in full or by their summary.
    pub fn with_stack_trace(self, full: bool) -> (handler: Self)
        ensures
            handler.includes_stack() == full,
            handler.level() == self.level(),
    {
        ErrorHandler { log_level: self.log_level, include_stack: full }
    }

    /// Hands the result on as it is. What is to be logged of an error is what
    /// [`ErrorHandler::log_error`] says.
    pub fn handle<T>(&self, result: AppResult<T>) -> (r: AppResult<T>)
        ensures
            r == result,
    {
        result
    }

    /// Hands on a success as it is. Of an error that asks to try again or to
    /// fall back, the outcome of `recover` comes back; any other error comes
    /// back as it is.
    pub fn handle_with_recovery<T, F: FnOnce(&AppError) -> AppResult<T>>(&self, result: AppResult<T>, recover: F) -> (r: AppResult<T>)
        requires
            result matches Err(error) ==> call_requires(recover, (&error,)),
        ensures
            match result {
                Ok(value) => r == Ok::<T, AppError>(value),
                Err(error) => if wants_recovery(error) {
                    call_ensures(recover, (&error,), r)
                } else {
                    r == Err::<T, AppError>(error)
                },
            },
    {
        match result {
            Ok(value) => Ok(value),
            Err(error) => {
                let recovers = match &error.recovery {
                    Some(RecoveryAction::Retry) => true,
                    Some(RecoveryAction::RetryWithBackoff { .. }) => true,
                    Some(RecoveryAction::Fallback { .. }) => true,
                    _ => false,
                };
                if recovers {
                    recover(&error)
                } else {
                    Err(error)
                }
            },
        }
    }

    /// What the user is told of an error.
    pub fn to_user_message(&self, error: &AppError) -> (text: String)
        ensures
            text@ == user_message(error.code, error.message@),
    {
        match error.code {
            ErrorCode::EntityNotFound => "The requested item was not found".to_owned(),
            ErrorCode::ValidationFailed => join("Validation failed: ", error.message.as_str()),
            ErrorCode::BusinessRuleViolation => error.message.clone(),
            ErrorCode::InvalidStateTransition => error.message.clone(),
            ErrorCode::DatabaseError => "A database error occurred. Please try again.".to_owned(),
            ErrorCode::ConnectionFailed => "Connection failed. Please check your network.".to_owned(),
            ErrorCode::Timeout => "The operation timed out. Please try again.".to_owned(),
            ErrorCode::SerializationError => "Data format error. Please refresh.".to_owned(),
            ErrorCode::CommandFailed => "An operation failed. Please try again.".to_owned(),
            ErrorCode::QueryFailed => "An operation failed. Please try again.".to_owned(),
            ErrorCode::HandlerError => "An operation failed. Please try again.".to_owned(),
            ErrorCode::UiError => "Display error. Please refresh the page.".to_owned(),
            ErrorCode::CommunicationError => "Communication error. Please check connection.".to_owned(),
            ErrorCode::PluginError => "Feature unavailable. Please contact support.".to_owned(),
            ErrorCode::PluginNotFound => "Feature unavailable. Please contact support.".to_owned(),
            ErrorCode::PluginCapabilityNotFound => "Feature unavailable. Please contact support.".to_owned(),
            ErrorCode::Unknown => error.message.clone(),
        }
    }

    /// What is logged of an error: at the handler's level, the error in full
    /// where the handler logs in full, else its summary.
    pub fn log_error(&self, error: &AppError) -> (record: LogRecord)
        ensures
            record.level == self.level(),
            !self.includes_stack() ==> record.message@ == error.spec_summary(),
            self.includes_stack() ==> exists|texts: Seq<Seq<char>>|
                writes_values(error.context@, texts) && record.message@ == #[trigger] error.details_with(texts),
    {
        let message = if self.include_stack {
            error.details()
        } else {
            error.summary()
        };
        LogRecord { level: self.log_level, message }
    }

    /// What is logged when an operation is tried again.
    pub fn log_retry(&self, error: &AppError, max_retries: u32, delay_ms: u64) -> (record: LogRecord)
        ensures
            record.level == LogLevel::Warn,
            record.message@ == "Will retry operation after error"@,
    {
        LogRecord { level: LogLevel::Warn, message: "Will retry operation after error".to_owned() }
    }

    /// What is logged when a fallback is used.
    pub fn log_fallback(&self, error: &AppError) -> (record: LogRecord)
        ensures
            record.level == LogLevel::Info,
            record.message@ == "Using fallback value after error"@,
    {
        LogRecord { level: LogLevel::Info, message: "Using fallback value after error".to_owned() }
    }

    /// What is logged when the user is told something.
    pub fn log_user_notification(&self, message: &str) -> (record: LogRecord)
        ensures
            record.level == LogLevel::Info,
            record.message@ == "User notification: "@ + message@,
    {
        LogRecord { level: LogLevel::Info, message: join("User notification: ", message) }
    }
}

impl Default for ErrorHandler {
    fn default() -> (handler: Self)
        ensures
            handler.level() == LogLevel::Error,
            !handler.includes_stack(),
    {
        ErrorHandler::new()
    }
}

/// The handler of last resort.
#[derive(Debug, Clone, Copy, PartialEq, Eq)]
pub struct GlobalErrorHandler;

/// The time of an error in a response: as RFC 3339 writes it, or `null` for a
/// time that no calendar date stands for.
pub open spec fn time_json(timestamp: u64) -> Json {
    match timestamp_text(timestamp) {
        Some(text) => Json::Text(text),
        None => Json::Null,
    }
}

/// The response that reports an error to a frontend.
pub open spec fn error_response(error: AppError) -> Json {
    Json::Object(
        no_fields().insert("success"@, Json::Bool(false)).insert(
            "error"@,
            Json::Object(
                no_fields().insert("code"@, Json::Text(error.code.spec_name())).insert(
                    "message"@,
                    Json::Text(error.message@),
                ).insert("id"@, Json::Text(error.id@)).insert("timestamp"@, time_json(error.timestamp)),
            ),
        ),
    )
}

impl GlobalErrorHandler {
    /// What is logged of a panic: the message, or `Unknown panic` where there
    /// is none, and the place, or `unknown location`.
    pub fn register(message: Option<&str>, location: Option<&str>) -> (record: LogRecord)
        ensures
            record.level == LogLevel::Error,
            record.message@ == "Panic occurred: "@ + (match message {
                Some(text) => text@,
                None => "Unknown panic"@,
            }) + " at "@ + (match location {
                Some(place) => place@,
                None => "unknown location"@,
            }),
    {
        let mut text = "Panic occurred: ".to_owned();
        match message {
            Some(m) => text.append(m),
            None => text.append("Unknown panic"),
        }
        text.append(" at ");
        match location {
            Some(place) => text.append(place),
            None => text.append("unknown location"),
        }
        LogRecord { level: LogLevel::Error, message: text }
    }

    /// The response that reports `error` to a frontend.
    pub fn to_json_response(error: &AppError) -> (response: serde_json::Value)
        ensures
            json_model(response) == error_response(*error),
    {
        let time = match format_rfc3339(error.timestamp) {
            Some(text) => text_value(text),
            None => null_value(),
        };
        let mut inner = new_fields();
        insert_field(&mut inner, "code".to_owned(), text_value(error.code.name().to_owned()));
        insert_field(&mut inner, "message".to_owned(), text_value(error.message.clone()));
        insert_field(&mut inner, "id".to_owned(), text_value(error.id.clone()));
        insert_field(&mut inner, "timestamp".to_owned(), time);
        let mut fields = new_fields();
        insert_field(&mut fields, "success".to_owned(), bool_value(false));
        insert_field(&mut fields, "error".to_owned(), object_value(inner));
        object_value(fields)
    }
}

} // verus!
