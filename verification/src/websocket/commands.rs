//! The commands that a frontend may call by name, and the replies to them.
//!
//! A command reads from the data store at most; the reading itself is done
//! elsewhere and handed in as [`BackendData`]. What a command does beyond its
//! reply is handed out as a [`CommandEffect`].

use vstd::prelude::*;
use vstd::string::*;
use crate::json::{
    array_value, bool_value, clone_value, insert_field, json_model, json_models, new_fields,
    no_fields, object_value, text_value, u64_value, Json,
};
use crate::text::{join, text_eq};
use crate::websocket::protocol::{ExecutorReply, ExecutorReplyView};

verus! {

/// The commands that the server knows.
#[derive(Debug, Clone, Copy, PartialEq, Eq, Structural)]
pub enum Command {
    GetUsers,
    GetDbStats,
    UiReady,
    WindowStateChange,
    Unknown,
}

impl Command {
    /// The command that a name stands for.
    pub open spec fn named(name: Seq<char>) -> Command {
        if name == "get_users"@ {
            Command::GetUsers
        } else if name == "get_db_stats"@ {
            Command::GetDbStats
        } else if name == "ui.ready"@ {
            Command::UiReady
        } else if name == "window_state_change"@ || name == "window.state.change"@ {
            Command::WindowStateChange
        } else {
            Command::Unknown
        }
    }

    /// The command that `name` stands for.
    pub fn of(name: &str) -> (command: Command)
        ensures
            command == Command::named(name@),
    {
        if text_eq(name, "get_users") {
            Command::GetUsers
        } else if text_eq(name, "get_db_stats") {
            Command::GetDbStats
        } else if text_eq(name, "ui.ready") {
            Command::UiReady
        } else if text_eq(name, "window_state_change") || text_eq(name, "window.state.change") {
            Command::WindowStateChange
        } else {
            Command::Unknown
        }
    }

    /// Whether the command is one that the server knows.
    pub fn is_recognized(self) -> (yes: bool)
        ensures
            yes == (self != Command::Unknown),
    {
        match self {
            Command::Unknown => false,
            _ => true,
        }
    }

    /// Whether the command reads from the data store.
    pub fn reads_data(self) -> (yes: bool)
        ensures
            yes == (self == Command::GetUsers || self == Command::GetDbStats),
    {
        match self {
            Command::GetUsers => true,
            Command::GetDbStats => true,
            _ => false,
        }
    }
}

/// What was read from the data store for a command.
#[derive(Debug, PartialEq)]
pub enum BackendData {
    /// Nothing was read.
    Missing,
    /// All users, one JSON object each.
    Users(Vec<serde_json::Value>),
    /// The statistics of the data store.
    Stats(serde_json::Value),
    /// The store was reached and the reading failed.
    Failed(String),
    /// The store could not be reached.
    Unavailable(String),
}

pub enum BackendDataView {
    Missing,
    Users(Seq<Json>),
    Stats(Json),
    Failed(Seq<char>),
    Unavailable(Seq<char>),
}

impl View for BackendData {
    type V = BackendDataView;

    open spec fn view(&self) -> BackendDataView {
        match self {
            BackendData::Missing => BackendDataView::Missing,
            BackendData::Users(users) => BackendDataView::Users(json_models(users@)),
            BackendData::Stats(stats) => BackendDataView::Stats(json_model(*stats)),
            BackendData::Failed(e) => BackendDataView::Failed(e@),
            BackendData::Unavailable(e) => BackendDataView::Unavailable(e@),
        }
    }
}

/// What a command does beyond its reply.
#[derive(Debug, PartialEq)]
pub enum CommandEffect {
    Nothing,
    /// Publish `backend.connected` on the bus, with this payload.
    AnnounceBackend(serde_json::Value),
    /// Hand this payload to the window log.
    LogWindowState(serde_json::Value),
}

pub enum CommandEffectView {
    Nothing,
    AnnounceBackend(Json),
    LogWindowState(Json),
}

impl View for CommandEffect {
    type V = CommandEffectView;

    open spec fn view(&self) -> CommandEffectView {
        match self {
            CommandEffect::Nothing => CommandEffectView::Nothing,
            CommandEffect::AnnounceBackend(payload) => CommandEffectView::AnnounceBackend(json_model(*payload)),
            CommandEffect::LogWindowState(payload) => CommandEffectView::LogWindowState(json_model(*payload)),
        }
    }
}

/// The reason given where the data store was not asked.
pub open spec fn not_available() -> Seq<char> {
    "Database not available"@
}

/// `{"success": .., <key>: <value>}`.
pub open spec fn result_json(success: bool, key: Seq<char>, value: Json) -> Json {
    Json::Object(no_fields().insert("success"@, Json::Bool(success)).insert(key, value))
}

/// `{"success": .., <key>: <value>, "error": <error>}`.
pub open spec fn faulty_json(success: bool, key: Seq<char>, value: Json, error: Seq<char>) -> Json {
    Json::Object(
        no_fields().insert("success"@, Json::Bool(success)).insert(key, value).insert(
            "error"@,
            Json::Text(error),
        ),
    )
}

/// `{"success": false, "error": <error>}`.
pub open spec fn failure_json(error: Seq<char>) -> Json {
    Json::Object(no_fields().insert("success"@, Json::Bool(false)).insert("error"@, Json::Text(error)))
}

/// The statistics of a store of which nothing is known: no users, no tables.
pub open spec fn empty_stats_json() -> Json {
    Json::Object(
        no_fields().insert("users"@, Json::Integer(0)).insert("tables"@, Json::Array(Seq::empty())),
    )
}

/// The reply to `get_users`.
pub open spec fn users_json(data: BackendDataView) -> Json {
    match data {
        BackendDataView::Users(users) => result_json(true, "data"@, Json::Array(users)),
        BackendDataView::Failed(e) => faulty_json(true, "data"@, Json::Array(Seq::empty()), e),
        BackendDataView::Unavailable(e) => faulty_json(false, "data"@, Json::Array(Seq::empty()), e),
        _ => faulty_json(false, "data"@, Json::Array(Seq::empty()), not_available()),
    }
}

/// The reply to `get_db_stats`.
pub open spec fn stats_json(data: BackendDataView) -> Json {
    match data {
        BackendDataView::Stats(stats) => result_json(true, "stats"@, stats),
        BackendDataView::Failed(e) => faulty_json(true, "stats"@, empty_stats_json(), e),
        BackendDataView::Unavailable(e) => faulty_json(false, "stats"@, empty_stats_json(), e),
        _ => faulty_json(false, "stats"@, empty_stats_json(), not_available()),
    }
}

/// The reply to `ui.ready`.
pub open spec fn ui_ready_json() -> Json {
    result_json(true, "message"@, Json::Text("UI ready event processed, backend connected"@))
}

/// The reply to a change of a window's state.
pub open spec fn window_state_json() -> Json {
    result_json(true, "message"@, Json::Text("Window state change logged"@))
}

/// The payload of the event that announces the backend.
pub open spec fn backend_connected_json() -> Json {
    Json::Object(no_fields().insert("message"@, Json::Text("Backend connected and ready"@)))
}

/// The reply to a name that stands for no command: a failure that names it.
pub open spec fn unknown_function_json(name: Seq<char>) -> Json {
    Json::Object(
        no_fields().insert("success"@, Json::Bool(false)).insert(
            "error"@,
            Json::Text("Unknown function: "@ + name),
        ).insert("function"@, Json::Text(name)),
    )
}

/// The reply where the executor could not be reached: a failure in the shape of
/// the command's own reply, with empty collections where the data would be.
pub open spec fn unavailable_json(name: Seq<char>, reason: Seq<char>) -> Json {
    match Command::named(name) {
        Command::GetUsers => users_json(BackendDataView::Unavailable(reason)),
        Command::GetDbStats => stats_json(BackendDataView::Unavailable(reason)),
        _ => failure_json(reason),
    }
}

/// What the executor answers to a call: nothing for a name that stands for no
/// command.
pub open spec fn executed_json(name: Seq<char>, data: BackendDataView) -> Option<Json> {
    match Command::named(name) {
        Command::GetUsers => Some(users_json(data)),
        Command::GetDbStats => Some(stats_json(data)),
        Command::UiReady => Some(ui_ready_json()),
        Command::WindowStateChange => Some(window_state_json()),
        Command::Unknown => None,
    }
}

/// The reply to a call, whatever the name: the executor's answer, or the
/// failure that names the function.
pub open spec fn called_json(name: Seq<char>, data: BackendDataView) -> Json {
    match executed_json(name, data) {
        Some(reply) => reply,
        None => unknown_function_json(name),
    }
}

/// What a call does beyond its reply.
pub open spec fn effect_of(name: Seq<char>, payload: Json) -> CommandEffectView {
    match Command::named(name) {
        Command::UiReady => CommandEffectView::AnnounceBackend(backend_connected_json()),
        Command::WindowStateChange => CommandEffectView::LogWindowState(payload),
        _ => CommandEffectView::Nothing,
    }
}

/// The payload of the reply to a request, given the executor's answer: the
/// answer itself, or a failure of the server's own making.
pub open spec fn reply_payload(name: Seq<char>, reply: ExecutorReplyView) -> Json {
    match reply {
        ExecutorReplyView::Replied(result) => result,
        ExecutorReplyView::Unrecognized => unknown_function_json(name),
        ExecutorReplyView::Unavailable(reason) => unavailable_json(name, reason),
    }
}

fn result_value(success: bool, key: &str, value: serde_json::Value) -> (reply: serde_json::Value)
    ensures
        json_model(reply) == result_json(success, key@, json_model(value)),
{
    let mut fields = new_fields();
    insert_field(&mut fields, "success".to_owned(), bool_value(success));
    insert_field(&mut fields, key.to_owned(), value);
    object_value(fields)
}

fn faulty_value(success: bool, key: &str, value: serde_json::Value, error: &str) -> (reply: serde_json::Value)
    ensures
        json_model(reply) == faulty_json(success, key@, json_model(value), error@),
{
    let mut fields = new_fields();
    insert_field(&mut fields, "success".to_owned(), bool_value(success));
    insert_field(&mut fields, key.to_owned(), value);
    insert_field(&mut fields, "error".to_owned(), text_value(error.to_owned()));
    object_value(fields)
}

fn empty_array() -> (value: serde_json::Value)
    ensures
        json_model(value) == Json::Array(Seq::empty()),
{
    let items: Vec<serde_json::Value> = Vec::new();
    assert(json_models(items@) =~= Seq::empty());
    array_value(items)
}

fn empty_stats() -> (value: serde_json::Value)
    ensures
        json_model(value) == empty_stats_json(),
{
    let mut fields = new_fields();
    insert_field(&mut fields, "users".to_owned(), u64_value(0));
    insert_field(&mut fields, "tables".to_owned(), empty_array());
    object_value(fields)
}

/// The reply to `get_users`, given what was read.
pub fn users_reply(data: BackendData) -> (reply: serde_json::Value)
    ensures
        json_model(reply) == users_json(data@),
{
    match data {
        BackendData::Users(users) => result_value(true, "data", array_value(users)),
        BackendData::Failed(e) => faulty_value(true, "data", empty_array(), e.as_str()),
        BackendData::Unavailable(e) => faulty_value(false, "data", empty_array(), e.as_str()),
        _ => faulty_value(false, "data", empty_array(), "Database not available"),
    }
}

/// The reply to `get_db_stats`, given what was read.
pub fn stats_reply(data: BackendData) -> (reply: serde_json::Value)
    ensures
        json_model(reply) == stats_json(data@),
{
    match data {
        BackendData::Stats(stats) => result_value(true, "stats", stats),
        BackendData::Failed(e) => faulty_value(true, "stats", empty_stats(), e.as_str()),
        BackendData::Unavailable(e) => faulty_value(false, "stats", empty_stats(), e.as_str()),
        _ => faulty_value(false, "stats", empty_stats(), "Database not available"),
    }
}

/// The payload of the event that announces the backend.
pub fn backend_connected_payload() -> (payload: serde_json::Value)
    ensures
        json_model(payload) == backend_connected_json(),
{
    let mut fields = new_fields();
    insert_field(&mut fields, "message".to_owned(), text_value("Backend connected and ready".to_owned()));
    object_value(fields)
}

/// The reply to a name that stands for no command.
pub fn unknown_function_reply(name: &str) -> (reply: serde_json::Value)
    ensures
        json_model(reply) == unknown_function_json(name@),
{
    let mut fields = new_fields();
    insert_field(&mut fields, "success".to_owned(), bool_value(false));
    insert_field(&mut fields, "error".to_owned(), text_value(join("Unknown function: ", name)));
    insert_field(&mut fields, "function".to_owned(), text_value(name.to_owned()));
    object_value(fields)
}

/// The reply where the executor could not be reached.
pub fn unavailable_reply(name: &str, reason: &str) -> (reply: serde_json::Value)
    ensures
        json_model(reply) == unavailable_json(name@, reason@),
{
    match Command::of(name) {
        Command::GetUsers => users_reply(BackendData::Unavailable(reason.to_owned())),
        Command::GetDbStats => stats_reply(BackendData::Unavailable(reason.to_owned())),
        _ => {
            let mut fields = new_fields();
            insert_field(&mut fields, "success".to_owned(), bool_value(false));
            insert_field(&mut fields, "error".to_owned(), text_value(reason.to_owned()));
            object_value(fields)
        },
    }
}

/// The payload of the reply to the request named `name`, given the executor's
/// answer.
pub fn reply_for(name: &str, reply: ExecutorReply) -> (payload: serde_json::Value)
    ensures
        json_model(payload) == reply_payload(name@, reply@),
{
    match reply {
        ExecutorReply::Replied(result) => result,
        ExecutorReply::Unrecognized => unknown_function_reply(name),
        ExecutorReply::Unavailable(reason) => unavailable_reply(name, reason.as_str()),
    }
}

/// Executes the command named `name`: its reply, or nothing where the name
/// stands for no command, and what is to be done beyond the reply.
pub fn execute(name: &str, payload: &serde_json::Value, data: BackendData) -> (r: (Option<serde_json::Value>, CommandEffect))
    ensures
        match r.0 {
            Some(reply) => executed_json(name@, data@) == Some(json_model(reply)),
            None => executed_json(name@, data@).is_none(),
        },
        r.1@ == effect_of(name@, json_model(*payload)),
{
    match Command::of(name) {
        Command::GetUsers => (Some(users_reply(data)), CommandEffect::Nothing),
        Command::GetDbStats => (Some(stats_reply(data)), CommandEffect::Nothing),
        Command::UiReady => (
            Some(
                result_value(
                    true,
                    "message",
                    text_value("UI ready event processed, backend connected".to_owned()),
                ),
            ),
            CommandEffect::AnnounceBackend(backend_connected_payload()),
        ),
        Command::WindowStateChange => (
            Some(result_value(true, "message", text_value("Window state change logged".to_owned()))),
            CommandEffect::LogWindowState(clone_value(payload)),
        ),
        Command::Unknown => (None, CommandEffect::Nothing),
    }
}

/// The flag that tells whether a reply is a success, where the reply has one.
pub open spec fn success_of(reply: Json) -> Option<bool> {
    match reply {
        Json::Object(fields) => if fields.contains_key("success"@) {
            match fields["success"@] {
                Json::Bool(flag) => Some(flag),
                _ => None,
            }
        } else {
            None
        },
        _ => None,
    }
}

proof fn lemma_success_is_no_other_key()
    ensures
        "success"@ != "data"@,
        "success"@ != "stats"@,
        "success"@ != "message"@,
        "success"@ != "error"@,
        "success"@ != "function"@,
{
    reveal_strlit("success");
    reveal_strlit("data");
    reveal_strlit("stats");
    reveal_strlit("message");
    reveal_strlit("error");
    reveal_strlit("function");
    assert("success"@.len() == 7);
    assert("data"@.len() == 4);
    assert("stats"@.len() == 5);
    assert("error"@.len() == 5);
    assert("function"@.len() == 8);
    assert("success"@[0] == 's');
    assert("message"@[0] == 'm');
}

/// Every name that stands for a command is answered by the executor, and every
/// answer tells whether it is a success.
pub proof fn lemma_commands_are_answered(name: Seq<char>, data: BackendDataView)
    requires
        Command::named(name) != Command::Unknown,
    ensures
        executed_json(name, data) is Some,
        success_of(executed_json(name, data).unwrap()) is Some,
        called_json(name, data) == executed_json(name, data).unwrap(),
{
    lemma_success_is_no_other_key();
}

/// What the server answers of its own making is a failure that says so: to a
/// name that stands for no command, and where the executor cannot be reached.
pub proof fn lemma_own_replies_are_soft_failures(name: Seq<char>, reason: Seq<char>)
    ensures
        success_of(reply_payload(name, ExecutorReplyView::Unrecognized)) == Some(false),
        success_of(reply_payload(name, ExecutorReplyView::Unavailable(reason))) == Some(false),
{
    lemma_success_is_no_other_key();
}

} // verus!
