//! The configuration of the application, and where it is looked for.

use vstd::prelude::*;
use vstd::string::*;
use crate::text::{join, text_eq};

verus! {

/// The application's name and version.
#[derive(Debug, PartialEq)]
pub struct AppSettings {
    pub name: String,
    pub version: String,
}

/// Where the data store is, and whether it is seeded with sample data.
#[derive(Debug, PartialEq)]
pub struct DatabaseSettings {
    pub path: String,
    pub create_sample_data: Option<bool>,
}

/// The title of the window.
#[derive(Debug, PartialEq)]
pub struct WindowSettings {
    pub title: String,
}

/// How much is logged, and where.
#[derive(Debug, PartialEq)]
pub struct LoggingSettings {
    pub level: String,
    pub file: String,
    pub append: Option<bool>,
}

/// The configuration of the application.
#[derive(Debug, PartialEq)]
pub struct AppConfig {
    pub app: AppSettings,
    pub database: DatabaseSettings,
    pub window: WindowSettings,
    pub logging: LoggingSettings,
}

pub struct AppConfigView {
    pub name: Seq<char>,
    pub version: Seq<char>,
    pub db_path: Seq<char>,
    pub create_sample_data: Option<bool>,
    pub window_title: Seq<char>,
    pub log_level: Seq<char>,
    pub log_file: Seq<char>,
    pub append_log: Option<bool>,
}

impl AppConfigView {
    /// The configuration used where none is found.
    pub open spec fn standard() -> AppConfigView {
        AppConfigView {
            name: "Rust WebUI Application"@,
            version: "1.0.0"@,
            db_path: "app.db"@,
            create_sample_data: Some(true),
            window_title: "Rust WebUI Application"@,
            log_level: "info"@,
            log_file: "application.log"@,
            append_log: Some(true),
        }
    }
}

impl View for AppConfig {
    type V = AppConfigView;

    open spec fn view(&self) -> AppConfigView {
        AppConfigView {
            name: self.app.name@,
            version: self.app.version@,
            db_path: self.database.path@,
            create_sample_data: self.database.create_sample_data,
            window_title: self.window.title@,
            log_level: self.logging.level@,
            log_file: self.logging.file@,
            append_log: self.logging.append,
        }
    }
}

impl Default for AppConfig {
    fn default() -> (config: Self)
        ensures
            config@ == AppConfigView::standard(),
    {
        AppConfig {
            app: AppSettings { name: "Rust WebUI Application".to_owned(), version: "1.0.0".to_owned() },
            database: DatabaseSettings { path: "app.db".to_owned(), create_sample_data: Some(true) },
            window: WindowSettings { title: "Rust WebUI Application".to_owned() },
            logging: LoggingSettings {
                level: "info".to_owned(),
                file: "application.log".to_owned(),
                append: Some(true),
            },
        }
    }
}

/// The places where the configuration file is looked for, in this order, before
/// the one that the environment names.
pub open spec fn search_paths() -> Seq<Seq<char>> {
    seq!["app.config.toml"@, "config/app.config.toml"@, "./app.config.toml"@, "./config/app.config.toml"@]
}

/// The name of the environment variable that may hold the path of the
/// configuration file.
pub const CONFIG_VARIABLE: &'static str = "APP_CONFIG";

/// The text of each path of a sequence.
pub open spec fn path_views(paths: Seq<&'static str>) -> Seq<Seq<char>> {
    paths.map_values(|p: &'static str| p@)
}

/// The places where the configuration file is looked for, in order.
pub fn config_search_paths() -> (paths: Vec<&'static str>)
    ensures
        path_views(paths@) == search_paths(),
{
    let mut paths: Vec<&'static str> = Vec::new();
    paths.push("app.config.toml");
    paths.push("config/app.config.toml");
    paths.push("./app.config.toml");
    paths.push("./config/app.config.toml");
    assert(path_views(paths@) =~= search_paths());
    paths
}

impl AppConfig {
    /// The configuration to run with, given what was read from the
    /// configuration file: that, or the standard configuration where no file
    /// was found or the file could not be read. Loading never fails.
    pub fn load(parsed: Option<AppConfig>) -> (r: Result<AppConfig, String>)
        ensures
            match parsed {
                Some(config) => r == Ok::<AppConfig, String>(config),
                None => r matches Ok(config) && config@ == AppConfigView::standard(),
            },
    {
        match parsed {
            Some(config) => Ok(config),
            None => Ok(AppConfig::default()),
        }
    }

    pub fn get_app_name(&self) -> (name: &str)
        ensures
            name@ == self@.name,
    {
        self.app.name.as_str()
    }

    pub fn get_version(&self) -> (version: &str)
        ensures
            version@ == self@.version,
    {
        self.app.version.as_str()
    }

    pub fn get_db_path(&self) -> (path: &str)
        ensures
            path@ == self@.db_path,
    {
        self.database.path.as_str()
    }

    /// Whether the data store is seeded with sample data: yes, unless the
    /// configuration says no.
    pub fn should_create_sample_data(&self) -> (yes: bool)
        ensures
            yes == (self@.create_sample_data != Some(false)),
    {
        match self.database.create_sample_data {
            Some(choice) => choice,
            None => true,
        }
    }

    pub fn get_window_title(&self) -> (title: &str)
        ensures
            title@ == self@.window_title,
    {
        self.window.title.as_str()
    }

    pub fn get_log_level(&self) -> (level: &str)
        ensures
            level@ == self@.log_level,
    {
        self.logging.level.as_str()
    }

    pub fn get_log_file(&self) -> (file: &str)
        ensures
            file@ == self@.log_file,
    {
        self.logging.file.as_str()
    }

    /// Whether the log file is appended to: yes, unless the configuration says
    /// no.
    pub fn is_append_log(&self) -> (yes: bool)
        ensures
            yes == (self@.append_log != Some(false)),
    {
        match self.logging.append {
            Some(choice) => choice,
            None => true,
        }
    }
}

/// How much is logged.
#[derive(Debug, Clone, Copy, PartialEq, Eq, Structural)]
pub enum Verbosity {
    Trace,
    Debug,
    Info,
    Warn,
    Error,
}

impl Verbosity {
    /// The level that a name stands for; a name that stands for none is taken
    /// as `info`.
    pub open spec fn named(level: Seq<char>) -> Verbosity {
        if level == "trace"@ {
            Verbosity::Trace
        } else if level == "debug"@ {
            Verbosity::Debug
        } else if level == "info"@ {
            Verbosity::Info
        } else if level == "warn"@ {
            Verbosity::Warn
        } else if level == "error"@ {
            Verbosity::Error
        } else {
            Verbosity::Info
        }
    }

    /// The level that `level` names.
    pub fn of(level: &str) -> (verbosity: Verbosity)
        ensures
            verbosity == Verbosity::named(level@),
    {
        if text_eq(level, "trace") {
            Verbosity::Trace
        } else if text_eq(level, "debug") {
            Verbosity::Debug
        } else if text_eq(level, "info") {
            Verbosity::Info
        } else if text_eq(level, "warn") {
            Verbosity::Warn
        } else if text_eq(level, "error") {
            Verbosity::Error
        } else {
            Verbosity::Info
        }
    }
}

/// How logging is to be set up.
#[derive(Debug, PartialEq)]
pub struct LoggingPlan {
    pub level: Verbosity,
    /// The filter used where the environment gives none.
    pub filter: String,
    /// The log file as the first log line names it.
    pub file_label: String,
}

/// The text of an optional file name.
pub open spec fn file_view(file: Option<&str>) -> Seq<char> {
    match file {
        Some(name) => name@,
        None => "none"@,
    }
}

/// Plans the set-up of logging: the level that `log_level` names, a filter
/// that lets this application log at that level, and the file to announce.
pub fn init_logging_with_config(log_file: Option<&str>, log_level: &str, append: bool) -> (r: Result<LoggingPlan, String>)
    ensures
        r matches Ok(plan) && {
            &&& plan.level == Verbosity::named(log_level@)
            &&& plan.filter@ == "rustwebui_app="@ + log_level@
            &&& plan.file_label@ == file_view(log_file)
        },
{
    let file_label = match log_file {
        Some(name) => name.to_owned(),
        None => "none".to_owned(),
    };
    Ok(LoggingPlan { level: Verbosity::of(log_level), filter: join("rustwebui_app=", log_level), file_label })
}

} // verus!
