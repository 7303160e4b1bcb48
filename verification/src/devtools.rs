//! What the backend tells the developer tools of itself.

use vstd::prelude::*;
use vstd::string::*;
use crate::json::{
    bool_value, insert_field, json_as_i64, json_field, json_model, new_fields, no_fields, null_value,
    object_value, text_value, u64_value, value_as_i64, value_field, Json,
};
use crate::stamp::{is_clock_time, now_millis};
use crate::text::{join, text_eq};
use crate::timefmt::{format_rfc3339, timestamp_text};

verus! {

/// The connections that are open, and the requests answered.
#[derive(Debug, Clone, Copy, PartialEq, Eq, Structural)]
pub struct ConnectionMetrics {
    pub websocket_active: usize,
    pub http_requests_total: u64,
}

/// The rows of one table.
#[derive(Debug, PartialEq)]
pub struct TableStats {
    pub name: String,
    pub row_count: i64,
}

/// The tables of the store and the rows in all of them.
#[derive(Debug, PartialEq)]
pub struct DatabaseMetrics {
    pub tables: Vec<TableStats>,
    pub total_records: i64,
}

/// An event that was emitted of late.
#[derive(Debug, PartialEq)]
pub struct RecentEvent {
    pub id: String,
    pub name: String,
    /// Milliseconds since the Unix epoch.
    pub timestamp: u64,
    pub source: String,
}

/// The events emitted.
#[derive(Debug, PartialEq)]
pub struct EventMetrics {
    pub total_emitted: u64,
    pub recent_events: Vec<RecentEvent>,
}

/// Answers the developer tools.
#[derive(Debug, PartialEq)]
pub struct DevToolsApi {
    start_time: u64,
}

/// The number of users that the statistics of the store tell, if they tell
/// one.
pub open spec fn users_in(stats: Option<Json>) -> Option<i64> {
    match stats {
        Some(doc) => match json_field(doc, "users"@) {
            Some(field) => json_as_i64(field),
            None => None,
        },
        None => None,
    }
}

/// The content of optional statistics.
pub open spec fn stats_view(stats: Option<&serde_json::Value>) -> Option<Json> {
    match stats {
        Some(value) => Some(json_model(*value)),
        None => None,
    }
}

/// The time in a response: as RFC 3339 writes it, or `null` for a time that no
/// calendar date stands for.
pub open spec fn time_json(now: u64) -> Json {
    match timestamp_text(now) {
        Some(text) => Json::Text(text),
        None => Json::Null,
    }
}

/// The whole seconds between two times in milliseconds, none where the second
/// is the earlier.
pub open spec fn seconds_between(from: u64, to: u64) -> u64 {
    if to < from {
        0
    } else {
        ((to - from) / 1000) as u64
    }
}

/// The answer to a command of the developer tools.
pub open spec fn command_json(command: Seq<char>, uptime: u64, now: u64, version: Seq<char>, debug: bool) -> Json {
    if command == "ping"@ {
        Json::Object(no_fields().insert("pong"@, Json::Bool(true)).insert("timestamp"@, time_json(now)))
    } else if command == "health"@ {
        Json::Object(
            no_fields().insert("status"@, Json::Text("healthy"@)).insert(
                "uptime_secs"@,
                Json::Integer(uptime as int),
            ).insert("version"@, Json::Text(version)),
        )
    } else if command == "info"@ {
        Json::Object(
            no_fields().insert("rust_version"@, Json::Text(version)).insert("debug"@, Json::Bool(debug)),
        )
    } else {
        Json::Object(no_fields().insert("error"@, Json::Text("Unknown command: "@ + command)))
    }
}

impl DevToolsApi {
    /// The tools of a backend that starts now, as the clock reads it.
    pub fn new() -> (api: Self)
        ensures
            is_clock_time(api.started()),
    {
        DevToolsApi { start_time: now_millis() }
    }

    /// The tools of a backend that started at `start_time`.
    pub fn started_at(start_time: u64) -> (api: Self)
        ensures
            api.started() == start_time,
    {
        DevToolsApi { start_time }
    }

    pub closed spec fn started(&self) -> u64 {
        self.start_time
    }

    /// For how many whole seconds the backend has run at the time `now`.
    pub fn uptime_secs(&self, now: u64) -> (seconds: u64)
        ensures
            seconds == seconds_between(self.started(), now),
    {
        if now < self.start_time {
            0
        } else {
            (now - self.start_time) / 1000
        }
    }

    /// The connections: none are counted.
    pub fn get_connection_metrics(&self) -> (metrics: ConnectionMetrics)
        ensures
            metrics.websocket_active == 0,
            metrics.http_requests_total == 0,
    {
        ConnectionMetrics { websocket_active: 0, http_requests_total: 0 }
    }

    /// The store, given its statistics: the table of users with its rows where
    /// the statistics tell their number, else nothing.
    pub fn get_database_metrics(&self, stats: Option<&serde_json::Value>) -> (metrics: DatabaseMetrics)
        ensures
            match users_in(stats_view(stats)) {
                Some(users) => metrics.tables@.len() == 1 && metrics.tables@[0].name@ == "users"@
                    && metrics.tables@[0].row_count == users && metrics.total_records == users,
                None => metrics.tables@.len() == 0 && metrics.total_records == 0,
            },
    {
        let mut tables: Vec<TableStats> = Vec::new();
        let mut total_records: i64 = 0;
        match stats {
            Some(value) => match value_field(value, "users") {
                Some(field) => match value_as_i64(field) {
                    Some(users) => {
                        tables.push(TableStats { name: "users".to_owned(), row_count: users });
                        total_records = users;
                    },
                    None => {},
                },
                None => {},
            },
            None => {},
        }
        DatabaseMetrics { tables, total_records }
    }

    /// The events: none are counted.
    pub fn get_event_metrics(&self) -> (metrics: EventMetrics)
        ensures
            metrics.total_emitted == 0,
            metrics.recent_events@.len() == 0,
    {
        EventMetrics { total_emitted: 0, recent_events: Vec::new() }
    }

    /// Answers a command at the time `now`, given the version of the package
    /// and whether this is a debug build. `ping` is answered with the time,
    /// `health` with the time the backend has run, `info` with the version;
    /// any other command with an error that names it.
    pub fn execute_command(&self, command: &str, args: serde_json::Value, now: u64, version: &str, debug: bool) -> (answer: serde_json::Value)
        ensures
            json_model(answer) == command_json(
                command@,
                seconds_between(self.started(), now),
                now,
                version@,
                debug,
            ),
    {
        let mut fields = new_fields();
        if text_eq(command, "ping") {
            let time = match format_rfc3339(now) {
                Some(text) => text_value(text),
                None => null_value(),
            };
            insert_field(&mut fields, "pong".to_owned(), bool_value(true));
            insert_field(&mut fields, "timestamp".to_owned(), time);
        } else if text_eq(command, "health") {
            insert_field(&mut fields, "status".to_owned(), text_value("healthy".to_owned()));
            insert_field(&mut fields, "uptime_secs".to_owned(), u64_value(self.uptime_secs(now)));
            insert_field(&mut fields, "version".to_owned(), text_value(version.to_owned()));
        } else if text_eq(command, "info") {
            insert_field(&mut fields, "rust_version".to_owned(), text_value(version.to_owned()));
            insert_field(&mut fields, "debug".to_owned(), bool_value(debug));
        } else {
            insert_field(&mut fields, "error".to_owned(), text_value(join("Unknown command: ", command)));
        }
        object_value(fields)
    }
}

impl Default for DevToolsApi {
    fn default() -> (api: Self) {
        DevToolsApi::new()
    }
}

} // verus!
