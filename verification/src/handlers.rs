//! What the elements of the page are bound to: which events they publish, and
//! how the answers to their questions are made.

use vstd::prelude::*;
use vstd::string::*;
use crate::json::{
    array_value, bool_value, error_text, insert_field, json_model, json_models, json_written,
    new_fields, no_fields, object_value, text_value, u64_value, write_value, Json,
};
use crate::stamp::{fresh_id, ID_LENGTH};
use crate::websocket::commands::{failure_json, result_json, BackendData, BackendDataView};

verus! {

/// What happens when an element of the page is used.
#[derive(Debug, PartialEq)]
pub enum Reaction {
    /// An event is published; the application may end after it.
    Publish { topic: String, payload: serde_json::Value, exit: bool },
    /// An event is published that carries a fresh identifier of the request.
    PublishRequest { topic: String },
    /// The users are read and sent to the page.
    ReadUsers,
    /// The statistics of the store are read and sent to the page.
    ReadStats,
    /// What is known of the system is sent to the page.
    SystemInfo,
}

pub enum ReactionView {
    Publish { topic: Seq<char>, payload: Json, exit: bool },
    PublishRequest { topic: Seq<char> },
    ReadUsers,
    ReadStats,
    SystemInfo,
}

impl View for Reaction {
    type V = ReactionView;

    open spec fn view(&self) -> ReactionView {
        match self {
            Reaction::Publish { topic, payload, exit } => ReactionView::Publish {
                topic: topic@,
                payload: json_model(*payload),
                exit: *exit,
            },
            Reaction::PublishRequest { topic } => ReactionView::PublishRequest { topic: topic@ },
            Reaction::ReadUsers => ReactionView::ReadUsers,
            Reaction::ReadStats => ReactionView::ReadStats,
            Reaction::SystemInfo => ReactionView::SystemInfo,
        }
    }
}

/// An element of the page, by its name, and what it is bound to.
#[derive(Debug, PartialEq)]
pub struct Binding {
    pub element: String,
    pub reaction: Reaction,
}

impl View for Binding {
    type V = (Seq<char>, ReactionView);

    open spec fn view(&self) -> (Seq<char>, ReactionView) {
        (self.element@, self.reaction@)
    }
}

/// The view of each binding of a sequence.
pub open spec fn binding_views(bindings: Seq<Binding>) -> Seq<(Seq<char>, ReactionView)> {
    bindings.map_values(|b: Binding| b@)
}

/// An object without fields.
pub open spec fn empty_object() -> Json {
    Json::Object(no_fields())
}

/// An object with one field that is a text.
pub open spec fn text_object(key: Seq<char>, text: Seq<char>) -> Json {
    Json::Object(no_fields().insert(key, Json::Text(text)))
}

/// A binding that publishes under `topic`, and nothing more.
pub open spec fn publishes(element: Seq<char>, topic: Seq<char>, payload: Json) -> (Seq<char>, ReactionView) {
    (element, ReactionView::Publish { topic, payload, exit: false })
}

fn empty_payload() -> (payload: serde_json::Value)
    ensures
        json_model(payload) == empty_object(),
{
    object_value(new_fields())
}

fn text_payload(key: &str, text: &str) -> (payload: serde_json::Value)
    ensures
        json_model(payload) == text_object(key@, text@),
{
    let mut fields = new_fields();
    insert_field(&mut fields, key.to_owned(), text_value(text.to_owned()));
    object_value(fields)
}

fn publish(element: &str, topic: &str, payload: serde_json::Value) -> (binding: Binding)
    ensures
        binding@ == publishes(element@, topic@, json_model(payload)),
{
    Binding {
        element: element.to_owned(),
        reaction: Reaction::Publish { topic: topic.to_owned(), payload, exit: false },
    }
}

fn one_binding(binding: Binding) -> (bindings: Vec<Binding>)
    ensures
        binding_views(bindings@) == seq![binding@],
{
    let mut bindings: Vec<Binding> = Vec::new();
    bindings.push(binding);
    assert(binding_views(bindings@) =~= seq![binding@]);
    bindings
}

fn two_bindings(first: Binding, second: Binding) -> (bindings: Vec<Binding>)
    ensures
        binding_views(bindings@) == seq![first@, second@],
{
    let mut bindings: Vec<Binding> = Vec::new();
    bindings.push(first);
    bindings.push(second);
    assert(binding_views(bindings@) =~= seq![first@, second@]);
    bindings
}

/// The bindings of the counter's buttons: counting up publishes the increment
/// and ends the application, resetting publishes the reset.
pub fn setup_ui_handlers() -> (bindings: Vec<Binding>)
    ensures
        binding_views(bindings@) == seq![
            (
                "increment_counter"@,
                ReactionView::Publish {
                    topic: "counter.incremented"@,
                    payload: Json::Object(no_fields().insert("value"@, Json::Integer(1))),
                    exit: true,
                },
            ),
            publishes("reset_counter"@, "counter.reset"@, empty_object()),
        ],
{
    let mut fields = new_fields();
    insert_field(&mut fields, "value".to_owned(), u64_value(1));
    let increment = Binding {
        element: "increment_counter".to_owned(),
        reaction: Reaction::Publish {
            topic: "counter.incremented".to_owned(),
            payload: object_value(fields),
            exit: true,
        },
    };
    two_bindings(increment, publish("reset_counter", "counter.reset", empty_payload()))
}

/// The binding that asks for the value of the counter.
pub fn setup_counter_handlers() -> (bindings: Vec<Binding>)
    ensures
        binding_views(bindings@) == seq![
            ("get_counter_value"@, ReactionView::PublishRequest { topic: "counter.value.request"@ }),
        ],
{
    one_binding(
        Binding {
            element: "get_counter_value".to_owned(),
            reaction: Reaction::PublishRequest { topic: "counter.value.request".to_owned() },
        },
    )
}

/// The script that gives the page its functions for the data store.
pub const DB_FUNCTIONS_SCRIPT: &'static str =
    "
        window.getUsers = function() {
            webui.call('get_users');
        };
        window.getDbStats = function() {
            webui.call('get_db_stats');
        };
        console.log('Database functions exposed to window');
    ";

/// The script that gives the page its function for the system information.
pub const SYSINFO_FUNCTION_SCRIPT: &'static str =
    "
        window.getSystemInfo = function() {
            webui.call('get_system_info');
        };
        console.log('System info function exposed to window');
    ";

/// The bindings that read from the data store.
pub fn setup_db_handlers() -> (bindings: Vec<Binding>)
    ensures
        binding_views(bindings@) == seq![
            ("get_users"@, ReactionView::ReadUsers),
            ("get_db_stats"@, ReactionView::ReadStats),
        ],
{
    two_bindings(
        Binding { element: "get_users".to_owned(), reaction: Reaction::ReadUsers },
        Binding { element: "get_db_stats".to_owned(), reaction: Reaction::ReadStats },
    )
}

/// The binding that tells of the system.
pub fn setup_sysinfo_handlers() -> (bindings: Vec<Binding>)
    ensures
        binding_views(bindings@) == seq![("get_system_info"@, ReactionView::SystemInfo)],
{
    one_binding(Binding { element: "get_system_info".to_owned(), reaction: Reaction::SystemInfo })
}

/// The bindings of the utilities.
pub fn setup_utils_handlers() -> (bindings: Vec<Binding>)
    ensures
        binding_views(bindings@) == seq![
            publishes("open_folder"@, "utility.folder.open"@, empty_object()),
            publishes("organize_images"@, "utility.images.organize"@, empty_object()),
        ],
{
    two_bindings(
        publish("open_folder", "utility.folder.open", empty_payload()),
        publish("organize_images", "utility.images.organize", empty_payload()),
    )
}

/// The binding of the advanced operation.
pub fn setup_advanced_handlers() -> (bindings: Vec<Binding>)
    ensures
        binding_views(bindings@) == seq![
            publishes("advanced_operation"@, "advanced.operation"@, empty_object()),
        ],
{
    one_binding(publish("advanced_operation", "advanced.operation", empty_payload()))
}

/// The binding of the enhanced feature.
pub fn setup_enhanced_handlers() -> (bindings: Vec<Binding>)
    ensures
        binding_views(bindings@) == seq![
            publishes("enhanced_feature"@, "enhanced.feature"@, empty_object()),
        ],
{
    one_binding(publish("enhanced_feature", "enhanced.feature", empty_payload()))
}

/// The binding that notes a change of a window's state.
pub fn setup_window_tracking_handlers() -> (bindings: Vec<Binding>)
    ensures
        binding_views(bindings@) == seq![
            publishes(
                "window_state_change"@,
                "window.state.change.event"@,
                text_object("message"@, "Window state change event received"@),
            ),
        ],
{
    one_binding(
        publish(
            "window_state_change",
            "window.state.change.event",
            text_payload("message", "Window state change event received"),
        ),
    )
}

/// The payload of a request that carries an identifier of its own.
pub fn request_payload() -> (payload: serde_json::Value)
    ensures
        json_model(payload) matches Json::Object(fields) && fields.dom() =~= set!["request_id"@] && (
        fields["request_id"@] matches Json::Text(id) && id.len() == ID_LENGTH),
{
    let id = fresh_id();
    let mut fields = new_fields();
    insert_field(&mut fields, "request_id".to_owned(), text_value(id));
    object_value(fields)
}

/// What is sent to the page, and what is published, in answer to a question.
#[derive(Debug, PartialEq)]
pub struct Answer {
    /// The name of the event that the page is sent.
    pub page_event: String,
    /// What the event carries.
    pub response: serde_json::Value,
    /// The topic and the payload of what is published on the bus, if anything.
    pub published: Option<(String, serde_json::Value)>,
}

pub struct AnswerView {
    pub page_event: Seq<char>,
    pub response: Json,
    pub published: Option<(Seq<char>, Json)>,
}

impl View for Answer {
    type V = AnswerView;

    open spec fn view(&self) -> AnswerView {
        AnswerView {
            page_event: self.page_event@,
            response: json_model(self.response),
            published: match self.published {
                Some((topic, payload)) => Some((topic@, json_model(payload))),
                None => None,
            },
        }
    }
}

/// What is published of a reading: the operation, and one thing about it.
pub open spec fn operation_json(operation: Seq<char>, key: Seq<char>, value: Json) -> Json {
    Json::Object(no_fields().insert("operation"@, Json::Text(operation)).insert(key, value))
}

/// The reason given where the store was never set up.
pub open spec fn not_initialized() -> Seq<char> {
    "Database not initialized"@
}

/// The answer to the question for all users.
pub open spec fn users_answer(data: BackendDataView) -> AnswerView {
    match data {
        BackendDataView::Users(users) => AnswerView {
            page_event: "db_response"@,
            response: result_json(true, "data"@, Json::Array(users)),
            published: Some(
                (
                    "database.operation"@,
                    operation_json("get_users_success"@, "count"@, Json::Integer(users.len() as int)),
                ),
            ),
        },
        BackendDataView::Failed(e) => AnswerView {
            page_event: "db_response"@,
            response: failure_json(e),
            published: Some(("database.operation"@, operation_json("get_users_error"@, "error"@, Json::Text(e)))),
        },
        BackendDataView::Unavailable(e) => AnswerView {
            page_event: "db_response"@,
            response: failure_json(e),
            published: None,
        },
        _ => AnswerView { page_event: "db_response"@, response: failure_json(not_initialized()), published: None },
    }
}

/// The answer to the question for the statistics of the store.
pub open spec fn stats_answer(data: BackendDataView) -> AnswerView {
    match data {
        BackendDataView::Stats(stats) => AnswerView {
            page_event: "stats_response"@,
            response: result_json(true, "stats"@, stats),
            published: Some(
                ("database.stats.response"@, operation_json("get_stats_success"@, "stats"@, stats)),
            ),
        },
        BackendDataView::Failed(e) => AnswerView {
            page_event: "stats_response"@,
            response: failure_json(e),
            published: Some(("database.operation"@, operation_json("get_stats_error"@, "error"@, Json::Text(e)))),
        },
        BackendDataView::Unavailable(e) => AnswerView {
            page_event: "stats_response"@,
            response: failure_json(e),
            published: None,
        },
        _ => AnswerView {
            page_event: "stats_response"@,
            response: failure_json(not_initialized()),
            published: None,
        },
    }
}

fn failure(error: &str) -> (response: serde_json::Value)
    ensures
        json_model(response) == failure_json(error@),
{
    let mut fields = new_fields();
    insert_field(&mut fields, "success".to_owned(), bool_value(false));
    insert_field(&mut fields, "error".to_owned(), text_value(error.to_owned()));
    object_value(fields)
}

fn success(key: &str, value: serde_json::Value) -> (response: serde_json::Value)
    ensures
        json_model(response) == result_json(true, key@, json_model(value)),
{
    let mut fields = new_fields();
    insert_field(&mut fields, "success".to_owned(), bool_value(true));
    insert_field(&mut fields, key.to_owned(), value);
    object_value(fields)
}

fn operation(name: &str, key: &str, value: serde_json::Value) -> (payload: serde_json::Value)
    ensures
        json_model(payload) == operation_json(name@, key@, json_model(value)),
{
    let mut fields = new_fields();
    insert_field(&mut fields, "operation".to_owned(), text_value(name.to_owned()));
    insert_field(&mut fields, key.to_owned(), value);
    object_value(fields)
}

/// Answers the question for all users, given what was read.
pub fn answer_users(data: BackendData) -> (answer: Answer)
    ensures
        answer@ == users_answer(data@),
{
    let page_event = "db_response".to_owned();
    match data {
        BackendData::Users(users) => {
            let count = users.len() as u64;
            assert(json_models(users@).len() == users@.len());
            Answer {
                page_event,
                response: success("data", array_value(users)),
                published: Some(
                    ("database.operation".to_owned(), operation("get_users_success", "count", u64_value(count))),
                ),
            }
        },
        BackendData::Failed(e) => Answer {
            page_event,
            response: failure(e.as_str()),
            published: Some(
                ("database.operation".to_owned(), operation("get_users_error", "error", text_value(e))),
            ),
        },
        BackendData::Unavailable(e) => Answer { page_event, response: failure(e.as_str()), published: None },
        _ => Answer { page_event, response: failure("Database not initialized"), published: None },
    }
}

/// Answers the question for the statistics of the store, given what was read.
pub fn answer_stats(data: BackendData) -> (answer: Answer)
    ensures
        answer@ == stats_answer(data@),
{
    let page_event = "stats_response".to_owned();
    match data {
        BackendData::Stats(stats) => {
            let copy = crate::json::clone_value(&stats);
            Answer {
                page_event,
                response: success("stats", stats),
                published: Some(
                    ("database.stats.response".to_owned(), operation("get_stats_success", "stats", copy)),
                ),
            }
        },
        BackendData::Failed(e) => Answer {
            page_event,
            response: failure(e.as_str()),
            published: Some(
                ("database.operation".to_owned(), operation("get_stats_error", "error", text_value(e))),
            ),
        },
        BackendData::Unavailable(e) => Answer { page_event, response: failure(e.as_str()), published: None },
        _ => Answer { page_event, response: failure("Database not initialized"), published: None },
    }
}

/// What is known of the system, as the page is told.
pub open spec fn system_json(platform: Seq<char>, arch: Seq<char>, family: Seq<char>, version: Seq<char>) -> Json {
    Json::Object(
        no_fields().insert("platform"@, Json::Text(platform)).insert("arch"@, Json::Text(arch)).insert(
            "family"@,
            Json::Text(family),
        ).insert("os_version"@, Json::Text("Linux"@)).insert("app_version"@, Json::Text("1.0.0"@)).insert(
            "rust_version"@,
            Json::Text(version),
        ).insert("memory_usage"@, Json::Integer(0)).insert("cpu_cores"@, Json::Integer(0)),
    )
}

/// Answers the question for the system, given the platform, the architecture
/// and the family of the machine and the version of the package.
pub fn answer_system_info(platform: &str, arch: &str, family: &str, version: &str) -> (answer: Answer)
    ensures
        answer@ == (AnswerView {
            page_event: "sysinfo_response"@,
            response: system_json(platform@, arch@, family@, version@),
            published: Some(("system.health.check"@, text_object("type"@, "system_info_request"@))),
        }),
{
    let mut fields = new_fields();
    insert_field(&mut fields, "platform".to_owned(), text_value(platform.to_owned()));
    insert_field(&mut fields, "arch".to_owned(), text_value(arch.to_owned()));
    insert_field(&mut fields, "family".to_owned(), text_value(family.to_owned()));
    insert_field(&mut fields, "os_version".to_owned(), text_value("Linux".to_owned()));
    insert_field(&mut fields, "app_version".to_owned(), text_value("1.0.0".to_owned()));
    insert_field(&mut fields, "rust_version".to_owned(), text_value(version.to_owned()));
    insert_field(&mut fields, "memory_usage".to_owned(), u64_value(0));
    insert_field(&mut fields, "cpu_cores".to_owned(), u64_value(0));
    Answer {
        page_event: "sysinfo_response".to_owned(),
        response: object_value(fields),
        published: Some(("system.health.check".to_owned(), text_payload("type", "system_info_request"))),
    }
}

/// The script that sends the page an event with a detail.
pub open spec fn dispatch_text(page_event: Seq<char>, detail: Seq<char>) -> Seq<char> {
    "window.dispatchEvent(new CustomEvent('"@ + page_event + "', { detail: "@ + detail + " }))"@
}

/// The script that sends the page the event `page_event` with `detail`. It is
/// made exactly where the writer makes a text of the detail; where the writer
/// gives up, its own words come back.
pub fn dispatch_script(page_event: &str, detail: &serde_json::Value) -> (r: Result<String, String>)
    ensures
        match r {
            Ok(script) => json_written(json_model(*detail)) matches Some(text) && script@ == dispatch_text(
                page_event@,
                text,
            ),
            Err(_) => json_written(json_model(*detail)).is_none(),
        },
{
    match write_value(detail) {
        Ok(text) => {
            let mut script = "window.dispatchEvent(new CustomEvent('".to_owned();
            script.append(page_event);
            script.append("', { detail: ");
            script.append(text.as_str());
            script.append(" }))");
            Ok(script)
        },
        Err(error) => Err(error_text(&error)),
    }
}

} // verus!
