//! How logging is set up, and how errors are written to the log.

use vstd::prelude::*;
use vstd::string::*;
use crate::serialization::communication_config::{pad_right, padded};

pub mod error_logger;

verus! {

/// How the log is to be kept.
#[derive(Debug, PartialEq)]
pub struct LoggingConfig {
    pub level: String,
    pub file: Option<String>,
    pub append: bool,
    pub webui_verbose: bool,
    pub json_output: bool,
    pub show_target: bool,
    pub show_line_numbers: bool,
}

impl Default for LoggingConfig {
    fn default() -> (config: Self)
        ensures
            config.level@ == "debug"@,
            config.file matches Some(file) && file@ == "application.log"@,
            config.append,
            !config.webui_verbose,
            !config.json_output,
            config.show_target,
            config.show_line_numbers,
    {
        LoggingConfig {
            level: "debug".to_owned(),
            file: Some("application.log".to_owned()),
            append: true,
            webui_verbose: false,
            json_output: false,
            show_target: true,
            show_line_numbers: true,
        }
    }
}

/// What setting up the log comes to.
#[derive(Debug, PartialEq)]
pub struct LoggingSetup {
    /// The filter used where the environment gives none.
    pub filter: String,
    /// What is written to the terminal once the log is set up.
    pub banner: Vec<String>,
    /// The log file as the first log line names it.
    pub file_label: String,
}

/// The filter: this application at the level configured, the window library at
/// `debug` or only its errors, and the libraries below at their warnings.
pub open spec fn filter_text(level: Seq<char>, webui_verbose: bool) -> Seq<char> {
    "rustwebui_app="@ + level + ",webui_rs="@ + (if webui_verbose {
        "debug"@
    } else {
        "error"@
    }) + ",tungstenite=warn,tokio_tungstenite=warn,hyper=warn,h2=warn"@
}

/// A line of the banner: a label, and a value filled up to ten characters.
pub open spec fn banner_row(label: Seq<char>, value: Seq<char>) -> Seq<char> {
    "\x1b[36m║\x1b[0m  "@ + label + "\x1b[33m"@ + padded(value, 10)
        + "\x1b[0m                              \x1b[36m║\x1b[0m"@
}

/// The file that a configuration names, or `none`.
pub open spec fn file_label(file: Option<String>) -> Seq<char> {
    match file {
        Some(name) => name@,
        None => "none"@,
    }
}

fn banner_line(label: &str, value: &str) -> (line: String)
    ensures
        line@ == banner_row(label@, value@),
{
    let mut line = "\x1b[36m║\x1b[0m  ".to_owned();
    line.append(label);
    line.append("\x1b[33m");
    line.append(pad_right(value, 10).as_str());
    line.append("\x1b[0m                              \x1b[36m║\x1b[0m");
    line
}

/// Plans the set-up of the log: the filter, and the banner that announces the
/// level and the file.
pub fn init_logging(config: &LoggingConfig) -> (r: Result<LoggingSetup, String>)
    ensures
        r matches Ok(setup) && {
            &&& setup.filter@ == filter_text(config.level@, config.webui_verbose)
            &&& setup.file_label@ == file_label(config.file)
            &&& setup.banner@.len() == 6
            &&& setup.banner@[3]@ == banner_row("Level: "@, config.level@)
            &&& setup.banner@[4]@ == banner_row("File:  "@, file_label(config.file))
        },
{
    let mut filter = "rustwebui_app=".to_owned();
    filter.append(config.level.as_str());
    filter.append(",webui_rs=");
    filter.append(if config.webui_verbose { "debug" } else { "error" });
    filter.append(",tungstenite=warn,tokio_tungstenite=warn,hyper=warn,h2=warn");
    let file_label = match &config.file {
        Some(name) => name.clone(),
        None => "none".to_owned(),
    };
    let mut banner: Vec<String> = Vec::new();
    banner.push("\x1b[36m╔══════════════════════════════════════════════════════════╗\x1b[0m".to_owned());
    banner.push(
        "\x1b[36m║\x1b[0m              \x1b[1mLogging System Initialized\x1b[0m                   \x1b[36m║\x1b[0m".to_owned(),
    );
    banner.push("\x1b[36m╠══════════════════════════════════════════════════════════╣\x1b[0m".to_owned());
    banner.push(banner_line("Level: ", config.level.as_str()));
    banner.push(banner_line("File:  ", file_label.as_str()));
    banner.push("\x1b[36m╚══════════════════════════════════════════════════════════╝\x1b[0m".to_owned());
    Ok(LoggingSetup { filter, banner, file_label })
}

} // verus!
