use rustwebui_app::devtools::{ConnectionMetrics, DatabaseMetrics, DevToolsApi, TableStats};
use rustwebui_app::dto::ApiResponse;
use rustwebui_app::event_bus::{AppEventType, Event, EventMiddleware, EventTransform};
use rustwebui_app::handlers::{
    answer_stats, answer_system_info, answer_users, dispatch_script, request_payload,
    setup_advanced_handlers, setup_counter_handlers, setup_db_handlers, setup_enhanced_handlers,
    setup_sysinfo_handlers, setup_ui_handlers, setup_utils_handlers,
    setup_window_tracking_handlers, Answer, Binding, Reaction,
};
use rustwebui_app::http::{
    bridge_headers, devtools_headers, file_answer, route, unknown_endpoint, FileAnswer, FileLookup,
    Route,
};
use rustwebui_app::plugin_api::{PluginMetadata, PluginRegistry};
use rustwebui_app::serialization::communication_config::{
    display_communication_info, get_default_config, init_communication_config, CommunicationConfig,
};
use rustwebui_app::serialization::serialization::{display_serialization_details, truncate_str};
use rustwebui_app::store::{
    get_all_users, get_db_stats, needs_sample_data, sample_users, store_event, SampleUser,
    StoreOperation, UserRow,
};
use rustwebui_app::text::{
    first_chars, i64_text, join, join3, starts_with, strip_leading, text_eq, u64_text,
};
use rustwebui_app::websocket::commands::BackendData;

fn parse(text: &str) -> serde_json::Value {
    serde_json::from_str(text).unwrap()
}

fn publish(element: &str, topic: &str, payload: &str) -> Binding {
    Binding {
        element: element.to_string(),
        reaction: Reaction::Publish { topic: topic.to_string(), payload: parse(payload), exit: false },
    }
}

#[test]
fn numbers_are_written_in_decimal() {
    assert_eq!(u64_text(0), "0");
    assert_eq!(u64_text(9), "9");
    assert_eq!(u64_text(10), "10");
    assert_eq!(u64_text(1_234_567_890), "1234567890");
    assert_eq!(u64_text(u64::MAX), "18446744073709551615");
    assert_eq!(i64_text(0), "0");
    assert_eq!(i64_text(-1), "-1");
    assert_eq!(i64_text(42), "42");
    assert_eq!(i64_text(i64::MAX), "9223372036854775807");
    assert_eq!(i64_text(i64::MIN), "-9223372036854775808");
}

#[test]
fn texts_are_compared_joined_and_cut() {
    assert!(text_eq("a", "a"));
    assert!(!text_eq("a", "A"));
    assert!(text_eq("", ""));
    assert_eq!(join("ab", "cd"), "abcd");
    assert_eq!(join3("a", "", "c"), "ac");
    assert_eq!(first_chars("héllo", 2), "hé");
    assert_eq!(first_chars("héllo", 5), "héllo");
    assert_eq!(first_chars("héllo", 9), "héllo");
    assert_eq!(first_chars("héllo", 0), "");
    assert!(starts_with("/api/devtools/x", "/api/devtools/"));
    assert!(starts_with("abc", ""));
    assert!(starts_with("abc", "abc"));
    assert!(!starts_with("ab", "abc"));
    assert!(!starts_with("xbc", "a"));
    assert_eq!(strip_leading("///a/b/", '/'), "a/b/");
    assert_eq!(strip_leading("a/b", '/'), "a/b");
    assert_eq!(strip_leading("///", '/'), "");
    assert_eq!(strip_leading("", '/'), "");
    assert_eq!(truncate_str("short", 10), "short");
    assert_eq!(truncate_str("exactly ten", 11), "exactly ten");
    assert_eq!(truncate_str("a longer message name", 10), "a longe...");
    assert_eq!(truncate_str("abcd", 3), "...");
}

#[test]
fn requests_are_routed() {
    assert_eq!(route("/webui.js"), Route::Bridge);
    assert_eq!(route("/api/devtools/metrics"), Route::DevToolsMetrics);
    assert_eq!(route("/api/devtools/health"), Route::DevToolsHealth);
    assert_eq!(route("/api/devtools/info"), Route::DevToolsInfo);
    assert_eq!(route("/api/devtools/"), Route::DevToolsUnknown);
    assert_eq!(route("/api/devtools/other"), Route::DevToolsUnknown);
    assert_eq!(route("/"), Route::File("index.html".to_string()));
    assert_eq!(route("/assets/app.js"), Route::File("assets/app.js".to_string()));
    assert_eq!(route("//x"), Route::File("x".to_string()));
    assert_eq!(route("/api/devtools"), Route::File("api/devtools".to_string()));
    assert_eq!(route(""), Route::File(String::new()));
    assert_eq!(file_answer(FileLookup::Found), FileAnswer { status: 200, body: None });
    assert_eq!(
        file_answer(FileLookup::Unreadable("denied".to_string())),
        FileAnswer { status: 500, body: Some("Error: denied".to_string()) }
    );
    assert_eq!(file_answer(FileLookup::Missing), FileAnswer { status: 404, body: Some("Not Found".to_string()) });
    assert_eq!(unknown_endpoint(), parse("{\"error\":\"Unknown DevTools endpoint\"}"));
    assert_eq!(bridge_headers()[0].value, "application/javascript");
    assert_eq!(bridge_headers()[1].name, "Cache-Control");
    assert_eq!(devtools_headers()[0].value, "application/json");
    assert_eq!(devtools_headers()[1].name, "Access-Control-Allow-Origin");
    assert_eq!(devtools_headers()[1].value, "*");
}

#[test]
fn the_store_gives_its_rows_as_json() {
    assert_eq!(
        sample_users(),
        vec![
            SampleUser { name: "John Doe", email: "john@example.com", role: "admin" },
            SampleUser { name: "Jane Smith", email: "jane@example.com", role: "editor" },
            SampleUser { name: "Bob Johnson", email: "bob@example.com", role: "user" },
            SampleUser { name: "Alice Brown", email: "alice@example.com", role: "user" },
        ]
    );
    assert!(needs_sample_data(0));
    assert!(!needs_sample_data(4));
    assert!(!needs_sample_data(-1));
    let rows = vec![
        UserRow { id: 1, name: "A".to_string(), email: "a@x".to_string(), role: "admin".to_string() },
        UserRow { id: -2, name: "B".to_string(), email: "b@x".to_string(), role: "user".to_string() },
    ];
    assert_eq!(
        get_all_users(&rows),
        vec![
            parse("{\"id\":1,\"name\":\"A\",\"email\":\"a@x\",\"role\":\"admin\"}"),
            parse("{\"id\":-2,\"name\":\"B\",\"email\":\"b@x\",\"role\":\"user\"}"),
        ]
    );
    assert_eq!(get_all_users(&vec![]), Vec::<serde_json::Value>::new());
    assert_eq!(
        get_db_stats(4, &vec!["users".to_string(), "roles".to_string()], 99),
        parse("{\"users\":4,\"tables\":[\"users\",\"roles\"],\"timestamp\":99}")
    );
    assert_eq!(get_db_stats(0, &vec![], 0), parse("{\"users\":0,\"tables\":[],\"timestamp\":0}"));
}

#[test]
fn the_store_tells_the_bus_what_it_does() {
    assert_eq!(
        store_event(StoreOperation::Connect { database: "app.db".to_string() }, 5),
        ("database.operation".to_string(), parse("{\"operation\":\"connect\",\"database\":\"app.db\",\"timestamp\":5}"))
    );
    assert_eq!(
        store_event(StoreOperation::InitSchema, 5),
        ("database.operation".to_string(), parse("{\"operation\":\"init_schema\",\"table\":\"users\",\"timestamp\":5}"))
    );
    assert_eq!(
        store_event(StoreOperation::InsertSampleData { count: 4 }, 5),
        (
            "data.changed".to_string(),
            parse("{\"operation\":\"insert_sample_data\",\"table\":\"users\",\"count\":4,\"timestamp\":5}"),
        )
    );
    assert_eq!(
        store_event(StoreOperation::GetUsers { count: 2 }, 5),
        ("database.operation".to_string(), parse("{\"operation\":\"get_users\",\"count\":2,\"timestamp\":5}"))
    );
    assert_eq!(
        store_event(StoreOperation::GetStats { stats: parse("{\"users\":1}") }, 5),
        (
            "database.operation".to_string(),
            parse("{\"operation\":\"get_stats\",\"stats\":{\"users\":1},\"timestamp\":5}"),
        )
    );
}

#[test]
fn elements_of_the_page_are_bound() {
    assert_eq!(
        setup_ui_handlers(),
        vec![
            Binding {
                element: "increment_counter".to_string(),
                reaction: Reaction::Publish {
                    topic: "counter.incremented".to_string(),
                    payload: parse("{\"value\":1}"),
                    exit: true,
                },
            },
            publish("reset_counter", "counter.reset", "{}"),
        ]
    );
    assert_eq!(
        setup_counter_handlers(),
        vec![Binding {
            element: "get_counter_value".to_string(),
            reaction: Reaction::PublishRequest { topic: "counter.value.request".to_string() },
        }]
    );
    assert_eq!(
        setup_db_handlers(),
        vec![
            Binding { element: "get_users".to_string(), reaction: Reaction::ReadUsers },
            Binding { element: "get_db_stats".to_string(), reaction: Reaction::ReadStats },
        ]
    );
    assert_eq!(
        setup_sysinfo_handlers(),
        vec![Binding { element: "get_system_info".to_string(), reaction: Reaction::SystemInfo }]
    );
    assert_eq!(
        setup_utils_handlers(),
        vec![
            publish("open_folder", "utility.folder.open", "{}"),
            publish("organize_images", "utility.images.organize", "{}"),
        ]
    );
    assert_eq!(setup_advanced_handlers(), vec![publish("advanced_operation", "advanced.operation", "{}")]);
    assert_eq!(setup_enhanced_handlers(), vec![publish("enhanced_feature", "enhanced.feature", "{}")]);
    assert_eq!(
        setup_window_tracking_handlers(),
        vec![publish(
            "window_state_change",
            "window.state.change.event",
            "{\"message\":\"Window state change event received\"}"
        )]
    );
    let request = request_payload();
    assert_eq!(request.as_object().unwrap().len(), 1);
    assert_eq!(request["request_id"].as_str().unwrap().len(), 36);
}

#[test]
fn questions_of_the_page_are_answered() {
    assert_eq!(
        answer_users(BackendData::Users(vec![parse("{\"id\":1}"), parse("{\"id\":2}")])),
        Answer {
            page_event: "db_response".to_string(),
            response: parse("{\"success\":true,\"data\":[{\"id\":1},{\"id\":2}]}"),
            published: Some((
                "database.operation".to_string(),
                parse("{\"operation\":\"get_users_success\",\"count\":2}"),
            )),
        }
    );
    assert_eq!(
        answer_users(BackendData::Failed("locked".to_string())),
        Answer {
            page_event: "db_response".to_string(),
            response: parse("{\"success\":false,\"error\":\"locked\"}"),
            published: Some((
                "database.operation".to_string(),
                parse("{\"operation\":\"get_users_error\",\"error\":\"locked\"}"),
            )),
        }
    );
    assert_eq!(
        answer_users(BackendData::Unavailable("Failed to acquire database lock".to_string())),
        Answer {
            page_event: "db_response".to_string(),
            response: parse("{\"success\":false,\"error\":\"Failed to acquire database lock\"}"),
            published: None,
        }
    );
    assert_eq!(
        answer_users(BackendData::Missing),
        Answer {
            page_event: "db_response".to_string(),
            response: parse("{\"success\":false,\"error\":\"Database not initialized\"}"),
            published: None,
        }
    );
    assert_eq!(
        answer_stats(BackendData::Stats(parse("{\"users\":3}"))),
        Answer {
            page_event: "stats_response".to_string(),
            response: parse("{\"success\":true,\"stats\":{\"users\":3}}"),
            published: Some((
                "database.stats.response".to_string(),
                parse("{\"operation\":\"get_stats_success\",\"stats\":{\"users\":3}}"),
            )),
        }
    );
    assert_eq!(
        answer_stats(BackendData::Failed("locked".to_string())).published,
        Some(("database.operation".to_string(), parse("{\"operation\":\"get_stats_error\",\"error\":\"locked\"}")))
    );
    assert_eq!(
        answer_stats(BackendData::Users(vec![])).response,
        parse("{\"success\":false,\"error\":\"Database not initialized\"}")
    );
    assert_eq!(answer_stats(BackendData::Unavailable("busy".to_string())).published, None);
    assert_eq!(
        answer_system_info("linux", "x86_64", "unix", "1.0.0"),
        Answer {
            page_event: "sysinfo_response".to_string(),
            response: parse("{\"platform\":\"linux\",\"arch\":\"x86_64\",\"family\":\"unix\",\"os_version\":\"Linux\",\"app_version\":\"1.0.0\",\"rust_version\":\"1.0.0\",\"memory_usage\":0,\"cpu_cores\":0}"),
            published: Some(("system.health.check".to_string(), parse("{\"type\":\"system_info_request\"}"))),
        }
    );
    assert_eq!(
        dispatch_script("db_response", &parse("{\"success\":false,\"error\":\"it's \\\"gone\\\"\"}")),
        Ok("window.dispatchEvent(new CustomEvent('db_response', { detail: {\"error\":\"it's \\\"gone\\\"\",\"success\":false} }))".to_string())
    );
}

#[test]
fn the_developer_tools_are_answered() {
    let api = DevToolsApi::started_at(10_000);
    assert_eq!(api.uptime_secs(10_999), 0);
    assert_eq!(api.uptime_secs(12_500), 2);
    assert_eq!(api.uptime_secs(5), 0);
    assert_eq!(api.get_connection_metrics(), ConnectionMetrics { websocket_active: 0, http_requests_total: 0 });
    assert_eq!(api.get_event_metrics().total_emitted, 0);
    assert_eq!(api.get_event_metrics().recent_events, vec![]);
    assert_eq!(
        api.get_database_metrics(Some(&parse("{\"users\":4,\"tables\":[]}"))),
        DatabaseMetrics { tables: vec![TableStats { name: "users".to_string(), row_count: 4 }], total_records: 4 }
    );
    assert_eq!(
        api.get_database_metrics(Some(&parse("{\"users\":-1}"))),
        DatabaseMetrics { tables: vec![TableStats { name: "users".to_string(), row_count: -1 }], total_records: -1 }
    );
    for stats in ["{\"users\":\"4\"}", "{\"users\":1.5}", "{\"users\":9223372036854775808}", "{}", "[4]"] {
        assert_eq!(
            api.get_database_metrics(Some(&parse(stats))),
            DatabaseMetrics { tables: vec![], total_records: 0 }
        );
    }
    assert_eq!(api.get_database_metrics(None), DatabaseMetrics { tables: vec![], total_records: 0 });
    let null = serde_json::Value::Null;
    assert_eq!(
        api.execute_command("ping", null.clone(), 1_700_000_000_123, "1.0.0", false),
        parse("{\"pong\":true,\"timestamp\":\"2023-11-14T22:13:20.123Z\"}")
    );
    assert_eq!(
        api.execute_command("ping", null.clone(), u64::MAX, "1.0.0", false),
        parse("{\"pong\":true,\"timestamp\":null}")
    );
    assert_eq!(
        api.execute_command("health", null.clone(), 73_000, "1.2.3", false),
        parse("{\"status\":\"healthy\",\"uptime_secs\":63,\"version\":\"1.2.3\"}")
    );
    assert_eq!(
        api.execute_command("info", null.clone(), 0, "1.2.3", true),
        parse("{\"rust_version\":\"1.2.3\",\"debug\":true}")
    );
    assert_eq!(
        api.execute_command("reboot", null, 0, "1.2.3", true),
        parse("{\"error\":\"Unknown command: reboot\"}")
    );
    assert!(DevToolsApi::new() == DevToolsApi::new() || DevToolsApi::default().uptime_secs(u64::MAX) > 0);
}

#[test]
fn plugins_are_registered_once_and_found_by_their_commands() {
    let mut registry: PluginRegistry<&'static str> = PluginRegistry::new();
    assert_eq!(registry.get_plugin("a"), None);
    assert_eq!(registry.handle_command("save"), Err("Unknown command: save".to_string()));
    assert_eq!(registry.register("a".to_string(), "first", vec!["save".to_string(), "load".to_string()]), Ok(()));
    assert_eq!(registry.register("b".to_string(), "second", vec!["load".to_string()]), Ok(()));
    assert_eq!(
        registry.register("a".to_string(), "third", vec!["print".to_string()]),
        Err("Plugin a already registered".to_string())
    );
    assert_eq!(registry.get_plugin("a"), Some(&"first"));
    assert_eq!(registry.get_plugin("b"), Some(&"second"));
    assert_eq!(registry.get_plugin("c"), None);
    assert_eq!(registry.handle_command("save"), Ok(&"first"));
    assert_eq!(registry.handle_command("load"), Ok(&"second"));
    assert_eq!(registry.handle_command("print"), Err("Unknown command: print".to_string()));
    assert_eq!(registry.initialize_all(), Ok(()));
    assert_eq!(registry.register("c".to_string(), "last", vec![]), Ok(()));
    assert_eq!(registry.get_plugin("c"), Some(&"last"));
    let metadata = PluginMetadata {
        id: "a".to_string(),
        name: "A".to_string(),
        version: "1".to_string(),
        description: String::new(),
        author: String::new(),
        dependencies: vec![],
    };
    assert_eq!(metadata.id, "a");
}

struct Upper;

impl EventTransform for Upper {
    fn apply(&self, event: &Event) -> Result<Event, String> {
        let mut changed = event.clone();
        changed.name = event.name.to_uppercase();
        Ok(changed)
    }
}

#[test]
fn events_of_the_application_have_their_topics() {
    assert_eq!(AppEventType::UserLogin.to_string(), "user.login");
    assert_eq!(AppEventType::UserLogout.to_string(), "user.logout");
    assert_eq!(AppEventType::DataChanged.to_string(), "data.changed");
    assert_eq!(AppEventType::CounterIncremented.to_string(), "counter.incremented");
    assert_eq!(AppEventType::DatabaseOperation.to_string(), "database.operation");
    assert_eq!(AppEventType::SystemHealthCheck.to_string(), "system.health.check");
    assert_eq!(AppEventType::FrontendConnected.to_string(), "frontend.connected");
    assert_eq!(AppEventType::FrontendDisconnected.to_string(), "frontend.disconnected");
    let step = EventMiddleware::new("upper".to_string(), Upper);
    assert_eq!(step.name, "upper");
    let event = Event::stamped("1".to_string(), "n".to_string(), serde_json::Value::Null, 1, "s".to_string());
    assert_eq!(step.handler.apply(&event).unwrap().name, "N");
}

#[test]
fn answers_are_wrapped() {
    let fine = ApiResponse::success(5);
    assert_eq!(fine, ApiResponse { success: true, data: Some(5), error: None, message: None });
    let failed = ApiResponse::<u8>::error("no".to_string());
    assert_eq!(failed, ApiResponse { success: false, data: None, error: Some("no".to_string()), message: None });
    assert_eq!(
        fine.with_message("done".to_string()),
        ApiResponse { success: true, data: Some(5), error: None, message: Some("done".to_string()) }
    );
    assert_eq!(
        failed.with_message("a".to_string()).with_message("b".to_string()).message,
        Some("b".to_string())
    );
}

#[test]
fn the_whole_configuration_is_shown() {
    let lines = get_default_config().display();
    assert_eq!(lines.len(), 5 + 10 + 1 + 10 + 1 + 12 + 1 + 18 + 12);
    assert_eq!(lines[0], "");
    assert_eq!(lines[2], "║              BACKEND-FRONTEND COMMUNICATION CONFIGURATION                   ║");
    assert_eq!(lines[5..15].to_vec(), get_default_config().display_transport_options());
    assert_eq!(lines[15], "");
    assert_eq!(lines[16..26].to_vec(), get_default_config().display_serialization_options());
    assert_eq!(lines[27..39].to_vec(), get_default_config().display_selected_config());
    assert_eq!(lines[40..58].to_vec(), display_serialization_details());
    assert_eq!(lines[58..].to_vec(), CommunicationConfig::display_feature_status());
    assert_eq!(lines[10], "│ ► WebSocket           │ tokio-tungstenite  │ 9000   │ Full-duplex, low-latency, persistent connection │");
    assert_eq!(lines[61], "║ ✓ JSON          │ Enabled  │ Default format for web compatibility            ║");
    assert_eq!(lines[62], "║ ✗ MessagePack   │ Disabled │ Add 'msgpack' feature to enable                 ║");
    assert_eq!(lines[69], "");
    assert_eq!(display_communication_info(), lines);
    let (config, shown) = init_communication_config();
    assert_eq!(config, get_default_config());
    assert_eq!(shown, lines);
    assert_eq!(display_serialization_details()[13], "  • JSON: 100% (baseline)");
}
