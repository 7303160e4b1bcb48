use rustwebui_app::config::{
    config_search_paths, init_logging_with_config, AppConfig, AppSettings, DatabaseSettings,
    LoggingPlan, LoggingSettings, Verbosity, WindowSettings, CONFIG_VARIABLE,
};
use rustwebui_app::context_map::ContextMap;
use rustwebui_app::error_handling::error_handler::LogLevel;
use rustwebui_app::logging::error_logger::{
    capture_stack_trace, context_texts, format_error_log, init_error_logging, log_error,
    log_error_full, log_error_with_severity, setup_panic_hook, ErrorContext, ErrorLogEntry,
    ErrorReport, ErrorSeverity,
};
use rustwebui_app::logging::{init_logging, LoggingConfig};
use rustwebui_app::timefmt::{format_log_time, format_rfc3339};

fn parse(text: &str) -> serde_json::Value {
    serde_json::from_str(text).unwrap()
}

fn entry(severity: ErrorSeverity) -> ErrorLogEntry {
    ErrorLogEntry {
        id: "e-1".to_string(),
        timestamp: 1_700_000_000_123,
        severity,
        category: "db".to_string(),
        message: "no table".to_string(),
        location: None,
        module: None,
        function: None,
        context: ContextMap::new(),
        source: None,
        stack_trace: None,
        suggestion: None,
    }
}

#[test]
fn times_are_written_in_utc() {
    assert_eq!(format_rfc3339(1_700_000_000_123), Some("2023-11-14T22:13:20.123Z".to_string()));
    assert_eq!(format_rfc3339(1_700_000_000_000), Some("2023-11-14T22:13:20Z".to_string()));
    assert_eq!(format_rfc3339(0), Some("1970-01-01T00:00:00Z".to_string()));
    assert_eq!(format_rfc3339(u64::MAX), None);
    assert_eq!(format_rfc3339(i64::MAX as u64), None);
    assert_eq!(format_rfc3339(300_000_000_000_000), Some("+11476-08-15T05:20:00Z".to_string()));
    assert_eq!(format_log_time(300_000_000_000_000), Some("+11476-08-15 05:20:00.000".to_string()));
    assert_eq!(format_log_time(1_700_000_000_123), Some("2023-11-14 22:13:20.123".to_string()));
    assert_eq!(format_log_time(0), Some("1970-01-01 00:00:00.000".to_string()));
    assert_eq!(format_log_time(i64::MAX as u64 + 1), None);
}

#[test]
fn a_short_entry_is_shown() {
    assert_eq!(
        format_error_log(&entry(ErrorSeverity::Error)),
        "\x1b[31m\x1b[1m[ERROR]\x1b[0m 2023-11-14 22:13:20.123 db e-1\x1b[0m\n  \x1b[1mMessage:\x1b[0m no table\n\x1b[90m────────────────────────────────────────\x1b[0m\n"
    );
    let mut late = entry(ErrorSeverity::Debug);
    late.timestamp = u64::MAX;
    assert_eq!(
        format_error_log(&late),
        "\x1b[90m\x1b[1m[DEBUG]\x1b[0m invalid timestamp db e-1\x1b[0m\n  \x1b[1mMessage:\x1b[0m no table\n\x1b[90m────────────────────────────────────────\x1b[0m\n"
    );
}

#[test]
fn a_full_entry_is_shown() {
    let mut full = entry(ErrorSeverity::Fatal);
    full.location = Some(":12".to_string());
    full.module = Some("store".to_string());
    full.function = Some("open".to_string());
    full.context.insert("table".to_string(), parse("\"users\""));
    full.context.insert("rows".to_string(), parse("[1,2]"));
    full.source = Some("disk full".to_string());
    full.stack_trace = Some((1..=12).map(|i| format!("frame {}", i)).collect::<Vec<_>>().join("\n"));
    full.suggestion = Some("free some space".to_string());
    let shown = format_error_log(&full);
    let expected = [
        "\x1b[41;97m\x1b[1m[FATAL]\x1b[0m 2023-11-14 22:13:20.123 db e-1\x1b[0m 🚨",
        "  \x1b[1mMessage:\x1b[0m no table",
        "  \x1b[1mLocation:\x1b[0m :12",
        "  \x1b[1mModule:\x1b[0m store",
        "  \x1b[1mFunction:\x1b[0m open",
        "  \x1b[1mContext:\x1b[0m",
        "    • table: users",
        "    • rows: [1,2]",
        "  \x1b[1mCaused by:\x1b[0m disk full",
        "  \x1b[1mStack trace:\x1b[0m",
        "    frame 1",
        "    frame 2",
        "    frame 3",
        "    frame 4",
        "    frame 5",
        "    frame 6",
        "    frame 7",
        "    frame 8",
        "    frame 9",
        "    frame 10",
        "  \x1b[1m💡 Suggestion:\x1b[0m free some space",
        "\x1b[90m────────────────────────────────────────\x1b[0m",
        "",
    ]
    .join("\n");
    assert_eq!(shown, expected);
    assert_eq!(context_texts(&full.context), vec!["users", "[1,2]"]);
    let mut mixed = ContextMap::new();
    mixed.insert("n".to_string(), parse("null"));
    mixed.insert("o".to_string(), parse("{\"b\":true,\"a\":\"x\"}"));
    mixed.insert("s".to_string(), parse("\"\""));
    assert_eq!(context_texts(&mixed), vec!["null", "{\"a\":\"x\",\"b\":true}", ""]);
}

#[test]
fn a_stack_trace_is_shown_by_its_lines() {
    let mut traced = entry(ErrorSeverity::Warning);
    traced.stack_trace = Some("one\r\ntwo\n\nfour\n".to_string());
    let shown = format_error_log(&traced);
    assert!(shown.starts_with("\x1b[33m\x1b[1m[WARNING]\x1b[0m "));
    assert!(shown.contains("  \x1b[1mStack trace:\x1b[0m\n    one\n    two\n    \n    four\n\x1b[90m"));
    let mut empty = entry(ErrorSeverity::Info);
    empty.stack_trace = Some(String::new());
    assert!(format_error_log(&empty).contains("  \x1b[1mStack trace:\x1b[0m\n\x1b[90m"));
    assert!(format_error_log(&empty).starts_with("\x1b[36m\x1b[1m[INFO]"));
    assert!(format_error_log(&entry(ErrorSeverity::Critical)).starts_with("\x1b[35m\x1b[1m[CRITICAL]"));
}

#[test]
fn severities_are_logged_at_their_level() {
    assert_eq!(ErrorSeverity::Debug.level(), LogLevel::Debug);
    assert_eq!(ErrorSeverity::Info.level(), LogLevel::Info);
    assert_eq!(ErrorSeverity::Warning.level(), LogLevel::Warn);
    assert_eq!(ErrorSeverity::Error.level(), LogLevel::Error);
    assert_eq!(ErrorSeverity::Critical.level(), LogLevel::Error);
    assert_eq!(ErrorSeverity::Fatal.level(), LogLevel::Error);
    assert_eq!(capture_stack_trace(), None);
    assert_eq!(init_error_logging(), "Error logging initialized with panic hooks");
}

#[test]
fn errors_become_entries() {
    let report = || ErrorReport {
        error_type: "std::io::Error".to_string(),
        message: "not found".to_string(),
        source: Some("os error 2".to_string()),
    };
    let context = || {
        ErrorContext::new()
            .with("path", parse("\"/tmp/x\""))
            .with_module("main")
            .with_function("load")
            .with_file(77)
    };
    let logged = log_error_with_severity("config", report(), context(), ErrorSeverity::Warning, Some("check the path"));
    assert_eq!(logged.level, LogLevel::Warn);
    let e = &logged.entry;
    assert_eq!(e.id.len(), 36);
    assert_eq!(e.severity, ErrorSeverity::Warning);
    assert_eq!(e.category, "config");
    assert_eq!(e.message, "not found");
    assert_eq!(e.location, Some(":77".to_string()));
    assert_eq!(e.module, Some("main".to_string()));
    assert_eq!(e.function, Some("load".to_string()));
    assert_eq!(e.source, Some("os error 2".to_string()));
    assert_eq!(e.stack_trace, None);
    assert_eq!(e.suggestion, Some("check the path".to_string()));
    assert_eq!(
        e.context.to_json(),
        parse("{\"path\":\"/tmp/x\",\"error_type\":\"std::io::Error\",\"error_message\":\"not found\"}")
    );
    assert_eq!(e.context.key_at(0), "path");
    assert_eq!(e.context.key_at(2), "error_message");
    assert_eq!(logged.formatted, format_error_log(e));
    assert!(logged.formatted.contains("    • error_type: std::io::Error\n"));

    let plain = log_error("config", report(), ErrorContext::default());
    assert_eq!(plain.level, LogLevel::Error);
    assert_eq!(plain.entry.severity, ErrorSeverity::Error);
    assert_eq!(plain.entry.suggestion, None);
    assert_eq!(plain.entry.location, None);
    let full = log_error_full("config", report(), context(), ErrorSeverity::Critical, None);
    assert_eq!(full.level, LogLevel::Error);
    assert_eq!(full.entry.severity, ErrorSeverity::Critical);
    let detailed = ErrorContext::new().with_error_details("T", "m").with_error_details("U", "n");
    let logged = log_error("c", report(), detailed);
    assert_eq!(
        logged.entry.context.to_json(),
        parse("{\"error_type\":\"std::io::Error\",\"error_message\":\"not found\"}")
    );
}

#[test]
fn a_panic_is_reported() {
    let report = setup_panic_hook(Some("worker"), Some("src/lib.rs:3"), Some("boom"));
    assert_eq!(
        report.lines,
        vec![
            "\x1b[41;97m",
            "╔══════════════════════════════════════════════════════════╗",
            "║                    PANIC DETECTED                        ║",
            "╚══════════════════════════════════════════════════════════╝",
            "\x1b[0m",
            "\x1b[1mThread:\x1b[0m worker",
            "\x1b[1mLocation:\x1b[0m src/lib.rs:3",
            "\x1b[1mMessage:\x1b[0m boom",
            "\x1b[90m───────────────────────────────────────────────────────────\x1b[0m",
        ]
    );
    assert_eq!(report.log_line, "PANIC in worker at src/lib.rs:3: boom");
    let unknown = setup_panic_hook(None, None, None);
    assert_eq!(unknown.log_line, "PANIC in unnamed at unknown: Unknown panic");
    assert_eq!(unknown.lines[5], "\x1b[1mThread:\x1b[0m unnamed");
}

#[test]
fn the_log_is_set_up_as_configured() {
    let config = LoggingConfig::default();
    assert_eq!(config.level, "debug");
    assert_eq!(config.file, Some("application.log".to_string()));
    assert!(config.append && !config.webui_verbose && !config.json_output);
    assert!(config.show_target && config.show_line_numbers);
    let setup = init_logging(&config).unwrap();
    assert_eq!(
        setup.filter,
        "rustwebui_app=debug,webui_rs=error,tungstenite=warn,tokio_tungstenite=warn,hyper=warn,h2=warn"
    );
    assert_eq!(setup.file_label, "application.log");
    assert_eq!(
        setup.banner,
        vec![
            "\x1b[36m╔══════════════════════════════════════════════════════════╗\x1b[0m",
            "\x1b[36m║\x1b[0m              \x1b[1mLogging System Initialized\x1b[0m                   \x1b[36m║\x1b[0m",
            "\x1b[36m╠══════════════════════════════════════════════════════════╣\x1b[0m",
            "\x1b[36m║\x1b[0m  Level: \x1b[33mdebug     \x1b[0m                              \x1b[36m║\x1b[0m",
            "\x1b[36m║\x1b[0m  File:  \x1b[33mapplication.log\x1b[0m                              \x1b[36m║\x1b[0m",
            "\x1b[36m╚══════════════════════════════════════════════════════════╝\x1b[0m",
        ]
    );
    let quiet = LoggingConfig { level: "warn".to_string(), file: None, webui_verbose: true, ..config };
    let setup = init_logging(&quiet).unwrap();
    assert_eq!(
        setup.filter,
        "rustwebui_app=warn,webui_rs=debug,tungstenite=warn,tokio_tungstenite=warn,hyper=warn,h2=warn"
    );
    assert_eq!(setup.file_label, "none");
    assert_eq!(
        setup.banner[4],
        "\x1b[36m║\x1b[0m  File:  \x1b[33mnone      \x1b[0m                              \x1b[36m║\x1b[0m"
    );
}

#[test]
fn the_configuration_has_a_standard() {
    let config = AppConfig::default();
    assert_eq!(config.get_app_name(), "Rust WebUI Application");
    assert_eq!(config.get_version(), "1.0.0");
    assert_eq!(config.get_db_path(), "app.db");
    assert!(config.should_create_sample_data());
    assert_eq!(config.get_window_title(), "Rust WebUI Application");
    assert_eq!(config.get_log_level(), "info");
    assert_eq!(config.get_log_file(), "application.log");
    assert!(config.is_append_log());
    assert_eq!(AppConfig::load(None), Ok(AppConfig::default()));
    let own = AppConfig {
        app: AppSettings { name: "Mine".to_string(), version: "2".to_string() },
        database: DatabaseSettings { path: "x.db".to_string(), create_sample_data: Some(false) },
        window: WindowSettings { title: "W".to_string() },
        logging: LoggingSettings { level: "trace".to_string(), file: "l".to_string(), append: None },
    };
    assert!(!own.should_create_sample_data());
    assert!(own.is_append_log());
    assert_eq!(own.get_app_name(), "Mine");
    let loaded = AppConfig::load(Some(own)).unwrap();
    assert_eq!(loaded.get_db_path(), "x.db");
    assert_eq!(loaded.get_window_title(), "W");
    let unset = AppConfig {
        database: DatabaseSettings { path: "x.db".to_string(), create_sample_data: None },
        logging: LoggingSettings { level: "trace".to_string(), file: "l".to_string(), append: Some(false) },
        ..AppConfig::default()
    };
    assert!(unset.should_create_sample_data());
    assert!(!unset.is_append_log());
    assert_eq!(
        config_search_paths(),
        vec!["app.config.toml", "config/app.config.toml", "./app.config.toml", "./config/app.config.toml"]
    );
    assert_eq!(CONFIG_VARIABLE, "APP_CONFIG");
}

#[test]
fn logging_is_planned_from_the_level() {
    assert_eq!(Verbosity::of("trace"), Verbosity::Trace);
    assert_eq!(Verbosity::of("debug"), Verbosity::Debug);
    assert_eq!(Verbosity::of("info"), Verbosity::Info);
    assert_eq!(Verbosity::of("warn"), Verbosity::Warn);
    assert_eq!(Verbosity::of("error"), Verbosity::Error);
    assert_eq!(Verbosity::of("loud"), Verbosity::Info);
    assert_eq!(Verbosity::of("INFO"), Verbosity::Info);
    assert_eq!(
        init_logging_with_config(Some("app.log"), "warn", true),
        Ok(LoggingPlan {
            level: Verbosity::Warn,
            filter: "rustwebui_app=warn".to_string(),
            file_label: "app.log".to_string(),
        })
    );
    assert_eq!(
        init_logging_with_config(None, "loud", false),
        Ok(LoggingPlan {
            level: Verbosity::Info,
            filter: "rustwebui_app=loud".to_string(),
            file_label: "none".to_string(),
        })
    );
}
