//! Errors as entries of the log.

use vstd::prelude::*;
use vstd::string::*;
use crate::context_map::{with_entry, ContextMap};
use crate::error_handling::error_handler::LogLevel;
use crate::json::{
    error_text, json_model, json_written, text_value, value_as_text, write_value, Json,
};
use crate::stamp::{fresh_id, now_millis, ID_LENGTH};
use crate::text::{line_views, lines_of, split_lines, u64_text};
use crate::timefmt::{format_log_time, timestamp_log_text};

verus! {

/// How bad an error is.
#[derive(Debug, Clone, Copy, PartialEq, Eq, Structural)]
pub enum ErrorSeverity {
    /// For development.
    Debug,
    /// Notable, not concerning.
    Info,
    /// To be looked into.
    Warning,
    /// Something failed.
    Error,
    /// The system may be unstable.
    Critical,
    /// The system cannot go on.
    Fatal,
}

impl ErrorSeverity {
    /// The colour in which the severity is shown, as a terminal is told.
    pub open spec fn colour(self) -> Seq<char> {
        match self {
            ErrorSeverity::Debug => "\x1b[90m"@,
            ErrorSeverity::Info => "\x1b[36m"@,
            ErrorSeverity::Warning => "\x1b[33m"@,
            ErrorSeverity::Error => "\x1b[31m"@,
            ErrorSeverity::Critical => "\x1b[35m"@,
            ErrorSeverity::Fatal => "\x1b[41;97m"@,
        }
    }

    /// The severity in capitals.
    pub open spec fn label(self) -> Seq<char> {
        match self {
            ErrorSeverity::Debug => "DEBUG"@,
            ErrorSeverity::Info => "INFO"@,
            ErrorSeverity::Warning => "WARNING"@,
            ErrorSeverity::Error => "ERROR"@,
            ErrorSeverity::Critical => "CRITICAL"@,
            ErrorSeverity::Fatal => "FATAL"@,
        }
    }

    /// The level at which an error of the severity is logged.
    pub open spec fn spec_level(self) -> LogLevel {
        match self {
            ErrorSeverity::Debug => LogLevel::Debug,
            ErrorSeverity::Info => LogLevel::Info,
            ErrorSeverity::Warning => LogLevel::Warn,
            _ => LogLevel::Error,
        }
    }

    fn colour_code(&self) -> (code: &'static str)
        ensures
            code@ == self.colour(),
    {
        match self {
            ErrorSeverity::Debug => "\x1b[90m",
            ErrorSeverity::Info => "\x1b[36m",
            ErrorSeverity::Warning => "\x1b[33m",
            ErrorSeverity::Error => "\x1b[31m",
            ErrorSeverity::Critical => "\x1b[35m",
            ErrorSeverity::Fatal => "\x1b[41;97m",
        }
    }

    fn capitals(&self) -> (text: &'static str)
        ensures
            text@ == self.label(),
    {
        match self {
            ErrorSeverity::Debug => "DEBUG",
            ErrorSeverity::Info => "INFO",
            ErrorSeverity::Warning => "WARNING",
            ErrorSeverity::Error => "ERROR",
            ErrorSeverity::Critical => "CRITICAL",
            ErrorSeverity::Fatal => "FATAL",
        }
    }

    /// The level at which an error of the severity is logged.
    pub fn level(&self) -> (level: LogLevel)
        ensures
            level == self.spec_level(),
    {
        match self {
            ErrorSeverity::Debug => LogLevel::Debug,
            ErrorSeverity::Info => LogLevel::Info,
            ErrorSeverity::Warning => LogLevel::Warn,
            _ => LogLevel::Error,
        }
    }
}

/// An error as an entry of the log.
#[derive(Debug, PartialEq)]
pub struct ErrorLogEntry {
    pub id: String,
    /// When the error was logged, in milliseconds since the Unix epoch.
    pub timestamp: u64,
    pub severity: ErrorSeverity,
    pub category: String,
    pub message: String,
    /// The place in the source, as file and line.
    pub location: Option<String>,
    pub module: Option<String>,
    pub function: Option<String>,
    pub context: ContextMap,
    /// What caused the error.
    pub source: Option<String>,
    pub stack_trace: Option<String>,
    pub suggestion: Option<String>,
}

/// What goes into the context of an entry, and where the error came up.
#[derive(Debug, PartialEq)]
pub struct ErrorContext {
    data: ContextMap,
    module: Option<String>,
    function: Option<String>,
    file: Option<u32>,
}

/// The text of an optional text.
pub open spec fn opt_text(text: Option<String>) -> Option<Seq<char>> {
    match text {
        Some(t) => Some(t@),
        None => None,
    }
}

impl ErrorContext {
    pub closed spec fn data(self) -> Seq<(Seq<char>, Json)> {
        self.data@
    }

    pub closed spec fn module(self) -> Option<Seq<char>> {
        opt_text(self.module)
    }

    pub closed spec fn function(self) -> Option<Seq<char>> {
        opt_text(self.function)
    }

    pub closed spec fn line(self) -> Option<u32> {
        self.file
    }

    /// A context that holds nothing.
    pub fn new() -> (context: Self)
        ensures
            context.data().len() == 0,
            context.module() is None,
            context.function() is None,
            context.line() is None,
    {
        ErrorContext { data: ContextMap::new(), module: None, function: None, file: None }
    }

    /// The context with `key` given `value`.
    pub fn with(self, key: &str, value: serde_json::Value) -> (context: Self)
        ensures
            context.data() == with_entry(self.data(), key@, json_model(value)),
            context.module() == self.module(),
            context.function() == self.function(),
            context.line() == self.line(),
    {
        let mut context = self;
        context.data.insert(key.to_owned(), value);
        context
    }

    /// The context, with the module in which the error came up.
    pub fn with_module(self, module: &str) -> (context: Self)
        ensures
            context.module() == Some(module@),
            context.data() == self.data(),
            context.function() == self.function(),
            context.line() == self.line(),
    {
        let mut context = self;
        context.module = Some(module.to_owned());
        context
    }

    /// The context, with the function in which the error came up.
    pub fn with_function(self, function: &str) -> (context: Self)
        ensures
            context.function() == Some(function@),
            context.data() == self.data(),
            context.module() == self.module(),
            context.line() == self.line(),
    {
        let mut context = self;
        context.function = Some(function.to_owned());
        context
    }

    /// The context, with the line on which the error came up.
    pub fn with_file(self, line: u32) -> (context: Self)
        ensures
            context.line() == Some(line),
            context.data() == self.data(),
            context.module() == self.module(),
            context.function() == self.function(),
    {
        let mut context = self;
        context.file = Some(line);
        context
    }

    /// The context, with the type and the message of an error under
    /// `error_type` and `error_message`.
    pub fn with_error_details(self, error_type: &str, error_message: &str) -> (context: Self)
        ensures
            context.data() == with_entry(
                with_entry(self.data(), "error_type"@, Json::Text(error_type@)),
                "error_message"@,
                Json::Text(error_message@),
            ),
            context.module() == self.module(),
            context.function() == self.function(),
            context.line() == self.line(),
    {
        let mut context = self;
        context.data.insert("error_type".to_owned(), text_value(error_type.to_owned()));
        context.data.insert("error_message".to_owned(), text_value(error_message.to_owned()));
        context
    }
}

impl Default for ErrorContext {
    fn default() -> (context: Self)
        ensures
            context.data().len() == 0,
            context.module() is None,
            context.function() is None,
            context.line() is None,
    {
        ErrorContext::new()
    }
}

/// How many lines of a stack trace an entry shows.
pub const SHOWN_STACK_LINES: usize = 10;

/// What switches the bold face on, and what switches colour and face off.
pub open spec fn bold() -> Seq<char> {
    "\x1b[1m"@
}

pub open spec fn plain() -> Seq<char> {
    "\x1b[0m"@
}

/// A line that names something: two spaces, the name in bold, and the thing.
pub open spec fn named_line(name: Seq<char>, value: Seq<char>) -> Seq<char> {
    "  "@ + bold() + name + plain() + " "@ + value + "\n"@
}

/// A named line for what may be missing.
pub open spec fn optional_line(name: Seq<char>, value: Option<String>) -> Seq<char> {
    match value {
        Some(text) => named_line(name, text@),
        None => Seq::empty(),
    }
}

/// The lines of the context, given its values as texts.
pub open spec fn bullet_lines(context: Seq<(Seq<char>, Json)>, texts: Seq<Seq<char>>, upto: int) -> Seq<char>
    decreases upto,
{
    if upto <= 0 {
        Seq::empty()
    } else {
        bullet_lines(context, texts, upto - 1) + "    • "@ + context[upto - 1].0 + ": "@ + texts[upto - 1]
            + "\n"@
    }
}

/// The first `upto` lines of a stack trace, each indented.
pub open spec fn stack_lines(lines: Seq<Seq<char>>, upto: int) -> Seq<char>
    decreases upto,
{
    if upto <= 0 {
        Seq::empty()
    } else {
        stack_lines(lines, upto - 1) + "    "@ + lines[upto - 1] + "\n"@
    }
}

/// How many lines of a stack trace are shown.
pub open spec fn shown(lines: Seq<Seq<char>>) -> int {
    if lines.len() < SHOWN_STACK_LINES {
        lines.len() as int
    } else {
        SHOWN_STACK_LINES as int
    }
}

/// The time of an entry as the log shows it.
pub open spec fn entry_time(timestamp: u64) -> Seq<char> {
    match timestamp_log_text(timestamp) {
        Some(text) => text,
        None => "invalid timestamp"@,
    }
}

impl ErrorLogEntry {
    /// The first line of the entry: the severity in its colour, then time,
    /// category and identifier; a fatal error gets a siren.
    pub open spec fn header(self) -> Seq<char> {
        self.severity.colour() + bold() + "["@ + self.severity.label() + "]"@ + plain() + " "@ + entry_time(
            self.timestamp,
        ) + " "@ + self.category@ + " "@ + self.id@ + plain() + (if self.severity == ErrorSeverity::Fatal {
            " 🚨"@
        } else {
            Seq::empty()
        }) + "\n"@
    }

    /// The lines on message, location, module and function.
    pub open spec fn origin(self) -> Seq<char> {
        named_line("Message:"@, self.message@) + optional_line("Location:"@, self.location) + optional_line(
            "Module:"@,
            self.module,
        ) + optional_line("Function:"@, self.function)
    }

    /// The lines of the context, given its values as texts.
    pub open spec fn context_part(self, texts: Seq<Seq<char>>) -> Seq<char> {
        if self.context@.len() == 0 {
            Seq::empty()
        } else {
            "  "@ + bold() + "Context:"@ + plain() + "\n"@ + bullet_lines(
                self.context@,
                texts,
                self.context@.len() as int,
            )
        }
    }

    /// The lines of the stack trace: its heading and its first lines.
    pub open spec fn stack_part(self) -> Seq<char> {
        match self.stack_trace {
            Some(stack) => "  "@ + bold() + "Stack trace:"@ + plain() + "\n"@ + stack_lines(
                lines_of(stack@),
                shown(lines_of(stack@)),
            ),
            None => Seq::empty(),
        }
    }

    /// The entry as the terminal shows it, given the values of its context as
    /// texts.
    pub open spec fn shown_with(self, texts: Seq<Seq<char>>) -> Seq<char> {
        self.header() + self.origin() + self.context_part(texts) + optional_line("Caused by:"@, self.source)
            + self.stack_part() + optional_line("💡 Suggestion:"@, self.suggestion)
            + "\x1b[90m────────────────────────────────────────\x1b[0m\n"@
    }
}

/// Whether `text` is a value as an entry shows it: a string by its characters,
/// any other value by its compact JSON where the writer makes one.
pub open spec fn shows_value(value: Json, text: Seq<char>) -> bool {
    match value {
        Json::Text(s) => text == s,
        _ => json_written(value) matches Some(written) ==> text == written,
    }
}

/// Whether `texts` are the values of a context as an entry shows them, one by
/// one.
pub open spec fn shows_values(context: Seq<(Seq<char>, Json)>, texts: Seq<Seq<char>>) -> bool {
    &&& texts.len() == context.len()
    &&& forall|i: int| 0 <= i < context.len() ==> shows_value((#[trigger] context[i]).1, texts[i])
}

fn append_named(output: &mut String, name: &str, value: &str)
    ensures
        final(output)@ == old(output)@ + named_line(name@, value@),
{
    output.append("  ");
    output.append("\x1b[1m");
    output.append(name);
    output.append("\x1b[0m");
    output.append(" ");
    output.append(value);
    output.append("\n");
    assert(output@ =~= old(output)@ + named_line(name@, value@));
}

fn append_optional(output: &mut String, name: &str, value: &Option<String>)
    ensures
        final(output)@ == old(output)@ + optional_line(name@, *value),
{
    match value {
        Some(text) => append_named(output, name, text.as_str()),
        None => {
            assert(output@ =~= old(output)@ + optional_line(name@, *value));
        },
    }
}

/// The values of a context as an entry shows them: a string by its characters,
/// any other value by its compact JSON, or by the writer's words where it gave
/// up.
pub fn context_texts(context: &ContextMap) -> (texts: Vec<String>)
    ensures
        shows_values(context@, line_views(texts@)),
{
    let mut texts: Vec<String> = Vec::new();
    let mut i: usize = 0;
    while i < context.len()
        invariant
            i <= context@.len(),
            texts@.len() == i,
            forall|k: int| 0 <= k < i ==> shows_value((#[trigger] context@[k]).1, texts@[k]@),
        decreases context@.len() - i,
    {
        let value = context.value_at(i);
        let text = match value_as_text(value) {
            Some(s) => s.to_owned(),
            None => match write_value(value) {
                Ok(text) => text,
                Err(error) => error_text(&error),
            },
        };
        texts.push(text);
        i = i + 1;
    }
    texts
}

fn header_text(entry: &ErrorLogEntry) -> (output: String)
    ensures
        output@ == entry.header(),
{
    let time = match format_log_time(entry.timestamp) {
        Some(text) => text,
        None => "invalid timestamp".to_owned(),
    };
    let fatal = entry.severity == ErrorSeverity::Fatal;
    let mut output = entry.severity.colour_code().to_owned();
    output.append("\x1b[1m");
    output.append("[");
    output.append(entry.severity.capitals());
    output.append("]");
    output.append("\x1b[0m");
    output.append(" ");
    output.append(time.as_str());
    output.append(" ");
    output.append(entry.category.as_str());
    output.append(" ");
    output.append(entry.id.as_str());
    output.append("\x1b[0m");
    if fatal {
        output.append(" 🚨");
    }
    output.append("\n");
    assert(output@ =~= entry.header());
    output
}

fn origin_text(entry: &ErrorLogEntry) -> (output: String)
    ensures
        output@ == entry.origin(),
{
    let mut output = String::new();
    append_named(&mut output, "Message:", entry.message.as_str());
    append_optional(&mut output, "Location:", &entry.location);
    append_optional(&mut output, "Module:", &entry.module);
    append_optional(&mut output, "Function:", &entry.function);
    assert(output@ =~= entry.origin());
    output
}

fn context_text(entry: &ErrorLogEntry, texts: &Vec<String>) -> (output: String)
    requires
        texts@.len() == entry.context@.len(),
    ensures
        output@ == entry.context_part(line_views(texts@)),
{
    let ghost shown_texts = line_views(texts@);
    let mut output = String::new();
    if !entry.context.is_empty() {
        output.append("  ");
        output.append("\x1b[1m");
        output.append("Context:");
        output.append("\x1b[0m");
        output.append("\n");
        let ghost title = "  "@ + bold() + "Context:"@ + plain() + "\n"@;
        assert(output@ =~= title);
        let mut i: usize = 0;
        while i < entry.context.len()
            invariant
                i <= entry.context@.len(),
                texts@.len() == entry.context@.len(),
                shown_texts == line_views(texts@),
                output@ == title + bullet_lines(entry.context@, shown_texts, i as int),
            decreases entry.context@.len() - i,
        {
            output.append("    • ");
            output.append(entry.context.key_at(i));
            output.append(": ");
            output.append(texts[i].as_str());
            output.append("\n");
            assert(shown_texts[i as int] == texts@[i as int]@);
            assert(output@ =~= title + bullet_lines(entry.context@, shown_texts, i + 1));
            i = i + 1;
        }
    }
    output
}

fn stack_text(entry: &ErrorLogEntry) -> (output: String)
    ensures
        output@ == entry.stack_part(),
{
    let mut output = String::new();
    match &entry.stack_trace {
        Some(stack) => {
            output.append("  ");
            output.append("\x1b[1m");
            output.append("Stack trace:");
            output.append("\x1b[0m");
            output.append("\n");
            let ghost title = "  "@ + bold() + "Stack trace:"@ + plain() + "\n"@;
            assert(output@ =~= title);
            let lines = split_lines(stack.as_str());
            let count = if lines.len() < SHOWN_STACK_LINES { lines.len() } else { SHOWN_STACK_LINES };
            let mut i: usize = 0;
            while i < count
                invariant
                    i <= count <= lines@.len(),
                    line_views(lines@) == lines_of(stack@),
                    output@ == title + stack_lines(lines_of(stack@), i as int),
                decreases count - i,
            {
                output.append("    ");
                output.append(lines[i].as_str());
                output.append("\n");
                assert(lines_of(stack@)[i as int] == lines@[i as int]@);
                assert(output@ =~= title + stack_lines(lines_of(stack@), i + 1));
                i = i + 1;
            }
        },
        None => {},
    }
    output
}

/// The entry as the terminal shows it, given the values of its context as
/// texts.
pub fn format_error_log_with(entry: &ErrorLogEntry, texts: &Vec<String>) -> (output: String)
    requires
        texts@.len() == entry.context@.len(),
    ensures
        output@ == entry.shown_with(line_views(texts@)),
{
    let mut output = header_text(entry);
    output.append(origin_text(entry).as_str());
    output.append(context_text(entry, texts).as_str());
    append_optional(&mut output, "Caused by:", &entry.source);
    output.append(stack_text(entry).as_str());
    append_optional(&mut output, "💡 Suggestion:", &entry.suggestion);
    output.append("\x1b[90m────────────────────────────────────────\x1b[0m\n");
    output
}

/// The entry as the terminal shows it.
pub fn format_error_log(entry: &ErrorLogEntry) -> (output: String)
    ensures
        exists|texts: Seq<Seq<char>>|
            shows_values(entry.context@, texts) && output@ == #[trigger] entry.shown_with(texts),
{
    let texts = context_texts(&entry.context);
    let output = format_error_log_with(entry, &texts);
    assert(shows_values(entry.context@, line_views(texts@)));
    output
}

/// The stack at this point: none, as none is captured.
pub fn capture_stack_trace() -> (trace: Option<String>)
    ensures
        trace is None,
{
    None
}

/// What an error is, as far as the log is concerned.
#[derive(Debug, PartialEq)]
pub struct ErrorReport {
    /// The name of the error's type.
    pub error_type: String,
    /// The error in words.
    pub message: String,
    /// What caused it, in words.
    pub source: Option<String>,
}

/// What becomes of a logged error.
#[derive(Debug, PartialEq)]
pub struct LoggedError {
    pub entry: ErrorLogEntry,
    /// The entry as the terminal shows it.
    pub formatted: String,
    /// The level at which it is logged.
    pub level: LogLevel,
}

/// The place of an error as an entry names it: a colon and the line.
pub open spec fn line_label(line: Option<u32>) -> Option<Seq<char>> {
    match line {
        Some(n) => Some(":"@ + crate::text::decimal(n as nat)),
        None => None,
    }
}

/// The context of an entry: what the caller gave, with the type and the message
/// of the error.
pub open spec fn entry_context(context: ErrorContext, error: ErrorReport) -> Seq<(Seq<char>, Json)> {
    with_entry(
        with_entry(context.data(), "error_type"@, Json::Text(error.error_type@)),
        "error_message"@,
        Json::Text(error.message@),
    )
}

/// Logs an error as an error, without a suggestion.
pub fn log_error(category: &str, error: ErrorReport, context: ErrorContext) -> (logged: LoggedError)
    ensures
        logged.level == LogLevel::Error,
        logged.entry.severity == ErrorSeverity::Error,
        logged.entry.category@ == category@,
        logged.entry.message@ == error.message@,
        logged.entry.suggestion is None,
        logged.entry.context@ == entry_context(context, error),
{
    log_error_with_severity(category, error, context, ErrorSeverity::Error, None)
}

/// Logs an error: makes the entry, with a fresh identifier and the current
/// time, shows it as the terminal does, and says at which level it is logged.
pub fn log_error_with_severity(category: &str, error: ErrorReport, context: ErrorContext, severity: ErrorSeverity, suggestion: Option<&str>) -> (logged: LoggedError)
    ensures
        logged.level == severity.spec_level(),
        logged.entry.severity == severity,
        logged.entry.category@ == category@,
        logged.entry.message@ == error.message@,
        logged.entry.id@.len() == ID_LENGTH,
        opt_text(logged.entry.location) == line_label(context.line()),
        opt_text(logged.entry.module) == context.module(),
        opt_text(logged.entry.function) == context.function(),
        opt_text(logged.entry.source) == opt_text(error.source),
        logged.entry.stack_trace is None,
        opt_text(logged.entry.suggestion) == crate::error_handling::app_error::str_view(suggestion),
        logged.entry.context@ == entry_context(context, error),
        exists|texts: Seq<Seq<char>>|
            shows_values(logged.entry.context@, texts) && logged.formatted@ == #[trigger] logged.entry.shown_with(
                texts,
            ),
{
    let mut data = context.data;
    data.insert("error_type".to_owned(), text_value(error.error_type.clone()));
    data.insert("error_message".to_owned(), text_value(error.message.clone()));
    let location = match context.file {
        Some(line) => Some(crate::text::join(":", u64_text(line as u64).as_str())),
        None => None,
    };
    let suggestion = match suggestion {
        Some(text) => Some(text.to_owned()),
        None => None,
    };
    let entry = ErrorLogEntry {
        id: fresh_id(),
        timestamp: now_millis(),
        severity,
        category: category.to_owned(),
        message: error.message,
        location,
        module: context.module,
        function: context.function,
        context: data,
        source: error.source,
        stack_trace: capture_stack_trace(),
        suggestion,
    };
    let formatted = format_error_log(&entry);
    LoggedError { entry, formatted, level: severity.level() }
}

/// The same as [`log_error_with_severity`].
pub fn log_error_full(category: &str, error: ErrorReport, context: ErrorContext, severity: ErrorSeverity, suggestion: Option<&str>) -> (logged: LoggedError)
    ensures
        logged.level == severity.spec_level(),
        logged.entry.severity == severity,
        logged.entry.category@ == category@,
        logged.entry.message@ == error.message@,
        logged.entry.context@ == entry_context(context, error),
{
    log_error_with_severity(category, error, context, severity, suggestion)
}

/// What is shown of a panic, line by line, and what is logged of it.
#[derive(Debug, PartialEq)]
pub struct PanicReport {
    pub lines: Vec<String>,
    pub log_line: String,
}

/// What is logged of a panic.
pub open spec fn panic_line(thread: Seq<char>, location: Seq<char>, message: Seq<char>) -> Seq<char> {
    "PANIC in "@ + thread + " at "@ + location + ": "@ + message
}

/// What is shown and logged of a panic in the thread `thread`, at `location`,
/// with `message`; where one of them is not known, `unnamed`, `unknown` and
/// `Unknown panic` stand for it.
pub fn setup_panic_hook(thread: Option<&str>, location: Option<&str>, message: Option<&str>) -> (report: PanicReport)
    ensures
        report.lines@.len() == 9,
        report.lines@[5]@ == "\x1b[1mThread:\x1b[0m "@ + panic_part(thread, "unnamed"@),
        report.lines@[6]@ == "\x1b[1mLocation:\x1b[0m "@ + panic_part(location, "unknown"@),
        report.lines@[7]@ == "\x1b[1mMessage:\x1b[0m "@ + panic_part(message, "Unknown panic"@),
        report.log_line@ == panic_line(
            panic_part(thread, "unnamed"@),
            panic_part(location, "unknown"@),
            panic_part(message, "Unknown panic"@),
        ),
{
    let thread = match thread {
        Some(name) => name,
        None => "unnamed",
    };
    let location = match location {
        Some(place) => place,
        None => "unknown",
    };
    let message = match message {
        Some(text) => text,
        None => "Unknown panic",
    };
    let mut lines: Vec<String> = Vec::new();
    lines.push("\x1b[41;97m".to_owned());
    lines.push("╔══════════════════════════════════════════════════════════╗".to_owned());
    lines.push("║                    PANIC DETECTED                        ║".to_owned());
    lines.push("╚══════════════════════════════════════════════════════════╝".to_owned());
    lines.push("\x1b[0m".to_owned());
    lines.push(crate::text::join("\x1b[1mThread:\x1b[0m ", thread));
    lines.push(crate::text::join("\x1b[1mLocation:\x1b[0m ", location));
    lines.push(crate::text::join("\x1b[1mMessage:\x1b[0m ", message));
    lines.push("\x1b[90m───────────────────────────────────────────────────────────\x1b[0m".to_owned());
    let mut log_line = "PANIC in ".to_owned();
    log_line.append(thread);
    log_line.append(" at ");
    log_line.append(location);
    log_line.append(": ");
    log_line.append(message);
    PanicReport { lines, log_line }
}

/// What is known of a panic, or what stands for it.
pub open spec fn panic_part(part: Option<&str>, unknown: Seq<char>) -> Seq<char> {
    match part {
        Some(text) => text@,
        None => unknown,
    }
}

/// What is logged once the logging of errors is set up.
pub fn init_error_logging() -> (line: String)
    ensures
        line@ == "Error logging initialized with panic hooks"@,
{
    "Error logging initialized with panic hooks".to_owned()
}

} // verus!
