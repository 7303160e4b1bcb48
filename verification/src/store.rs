//! What the data store holds and tells, apart from the store itself: the
//! statements, the sample data, and the shapes in which rows leave it.

use vstd::prelude::*;
use vstd::string::*;
use crate::json::{
    array_value, i64_value, insert_field, json_model, json_models, new_fields, no_fields,
    object_value, text_value, u64_value, Json,
};

verus! {

/// Sets the journal of the store to write-ahead logging.
pub const JOURNAL_STATEMENT: &'static str = "PRAGMA journal_mode=WAL;";

/// Creates the table of users, unless it is there.
pub const SCHEMA_STATEMENT: &'static str =
    "CREATE TABLE IF NOT EXISTS users (
                id INTEGER PRIMARY KEY,
                name TEXT NOT NULL,
                email TEXT NOT NULL,
                role TEXT NOT NULL
            )";

/// Counts the users.
pub const COUNT_STATEMENT: &'static str = "SELECT COUNT(*) FROM users";

/// Adds a user.
pub const INSERT_STATEMENT: &'static str = "INSERT INTO users (name, email, role) VALUES (?1, ?2, ?3)";

/// Reads all users.
pub const USERS_STATEMENT: &'static str = "SELECT id, name, email, role FROM users";

/// Reads the names of the tables.
pub const TABLES_STATEMENT: &'static str = "SELECT name FROM sqlite_master WHERE type='table'";

/// A user of the sample data.
#[derive(Debug, Clone, Copy, PartialEq)]
pub struct SampleUser {
    pub name: &'static str,
    pub email: &'static str,
    pub role: &'static str,
}

/// How many users the sample data has.
pub const SAMPLE_USER_COUNT: usize = 4;

/// The users with which an empty store is seeded.
pub fn sample_users() -> (users: Vec<SampleUser>)
    ensures
        users@.len() == SAMPLE_USER_COUNT,
        users@[0].name@ == "John Doe"@ && users@[0].email@ == "john@example.com"@ && users@[0].role@
            == "admin"@,
        users@[1].name@ == "Jane Smith"@ && users@[1].email@ == "jane@example.com"@ && users@[1].role@
            == "editor"@,
        users@[2].name@ == "Bob Johnson"@ && users@[2].email@ == "bob@example.com"@ && users@[2].role@
            == "user"@,
        users@[3].name@ == "Alice Brown"@ && users@[3].email@ == "alice@example.com"@ && users@[3].role@
            == "user"@,
{
    let mut users: Vec<SampleUser> = Vec::new();
    users.push(SampleUser { name: "John Doe", email: "john@example.com", role: "admin" });
    users.push(SampleUser { name: "Jane Smith", email: "jane@example.com", role: "editor" });
    users.push(SampleUser { name: "Bob Johnson", email: "bob@example.com", role: "user" });
    users.push(SampleUser { name: "Alice Brown", email: "alice@example.com", role: "user" });
    users
}

/// Whether a store with `count` users is seeded: only an empty one is.
pub fn needs_sample_data(count: i64) -> (yes: bool)
    ensures
        yes == (count == 0),
{
    count == 0
}

/// A row of the table of users.
#[derive(Debug, PartialEq)]
pub struct UserRow {
    pub id: i32,
    pub name: String,
    pub email: String,
    pub role: String,
}

impl UserRow {
    /// The row as a JSON object of its four fields.
    pub open spec fn json(self) -> Json {
        Json::Object(
            no_fields().insert("id"@, Json::Integer(self.id as int)).insert(
                "name"@,
                Json::Text(self.name@),
            ).insert("email"@, Json::Text(self.email@)).insert("role"@, Json::Text(self.role@)),
        )
    }

    /// The row as a JSON value.
    pub fn to_json(&self) -> (value: serde_json::Value)
        ensures
            json_model(value) == self.json(),
    {
        let mut fields = new_fields();
        insert_field(&mut fields, "id".to_owned(), i64_value(self.id as i64));
        insert_field(&mut fields, "name".to_owned(), text_value(self.name.clone()));
        insert_field(&mut fields, "email".to_owned(), text_value(self.email.clone()));
        insert_field(&mut fields, "role".to_owned(), text_value(self.role.clone()));
        object_value(fields)
    }
}

/// The JSON of each row, in order.
pub open spec fn rows_json(rows: Seq<UserRow>) -> Seq<Json> {
    rows.map_values(|row: UserRow| row.json())
}

/// All users as JSON values, in the order of the rows.
pub fn get_all_users(rows: &Vec<UserRow>) -> (users: Vec<serde_json::Value>)
    ensures
        json_models(users@) == rows_json(rows@),
{
    let mut users: Vec<serde_json::Value> = Vec::new();
    let mut i: usize = 0;
    while i < rows.len()
        invariant
            i <= rows@.len(),
            json_models(users@) == rows_json(rows@).take(i as int),
        decreases rows@.len() - i,
    {
        let ghost before = users@;
        let user = rows[i].to_json();
        users.push(user);
        assert(json_models(users@) =~= json_models(before).push(json_model(user)));
        assert(json_models(users@) =~= rows_json(rows@).take(i + 1));
        i = i + 1;
    }
    assert(rows_json(rows@).take(i as int) =~= rows_json(rows@));
    users
}

/// The text of each name, as a JSON string.
pub open spec fn names_json(names: Seq<String>) -> Seq<Json> {
    names.map_values(|name: String| Json::Text(name@))
}

/// The statistics of a store: how many users, which tables, and as of when.
pub open spec fn stats_json(users: i64, tables: Seq<String>, now: u64) -> Json {
    Json::Object(
        no_fields().insert("users"@, Json::Integer(users as int)).insert(
            "tables"@,
            Json::Array(names_json(tables)),
        ).insert("timestamp"@, Json::Integer(now as int)),
    )
}

/// The statistics of a store as a JSON value.
pub fn get_db_stats(users: i64, tables: &Vec<String>, now: u64) -> (stats: serde_json::Value)
    ensures
        json_model(stats) == stats_json(users, tables@, now),
{
    let mut names: Vec<serde_json::Value> = Vec::new();
    let mut i: usize = 0;
    while i < tables.len()
        invariant
            i <= tables@.len(),
            json_models(names@) == names_json(tables@).take(i as int),
        decreases tables@.len() - i,
    {
        let ghost before = names@;
        let name = text_value(tables[i].clone());
        names.push(name);
        assert(json_models(names@) =~= json_models(before).push(json_model(name)));
        assert(json_models(names@) =~= names_json(tables@).take(i + 1));
        i = i + 1;
    }
    assert(names_json(tables@).take(i as int) =~= names_json(tables@));
    let mut fields = new_fields();
    insert_field(&mut fields, "users".to_owned(), i64_value(users));
    insert_field(&mut fields, "tables".to_owned(), array_value(names));
    insert_field(&mut fields, "timestamp".to_owned(), u64_value(now));
    object_value(fields)
}

/// What the store does, as the bus is told.
#[derive(Debug, PartialEq)]
pub enum StoreOperation {
    Connect { database: String },
    InitSchema,
    InsertSampleData { count: u64 },
    GetUsers { count: u64 },
    GetStats { stats: serde_json::Value },
}

pub enum StoreOperationView {
    Connect { database: Seq<char> },
    InitSchema,
    InsertSampleData { count: u64 },
    GetUsers { count: u64 },
    GetStats { stats: Json },
}

impl View for StoreOperation {
    type V = StoreOperationView;

    open spec fn view(&self) -> StoreOperationView {
        match self {
            StoreOperation::Connect { database } => StoreOperationView::Connect { database: database@ },
            StoreOperation::InitSchema => StoreOperationView::InitSchema,
            StoreOperation::InsertSampleData { count } => StoreOperationView::InsertSampleData { count: *count },
            StoreOperation::GetUsers { count } => StoreOperationView::GetUsers { count: *count },
            StoreOperation::GetStats { stats } => StoreOperationView::GetStats { stats: json_model(*stats) },
        }
    }
}

impl StoreOperationView {
    /// The topic under which the operation is published: seeding changes data,
    /// everything else is an operation of the store.
    pub open spec fn topic(self) -> Seq<char> {
        match self {
            StoreOperationView::InsertSampleData { .. } => "data.changed"@,
            _ => "database.operation"@,
        }
    }

    /// What is published of the operation at the time `now`.
    pub open spec fn payload(self, now: u64) -> Json {
        let stamp = Json::Integer(now as int);
        match self {
            StoreOperationView::Connect { database } => Json::Object(
                no_fields().insert("operation"@, Json::Text("connect"@)).insert(
                    "database"@,
                    Json::Text(database),
                ).insert("timestamp"@, stamp),
            ),
            StoreOperationView::InitSchema => Json::Object(
                no_fields().insert("operation"@, Json::Text("init_schema"@)).insert(
                    "table"@,
                    Json::Text("users"@),
                ).insert("timestamp"@, stamp),
            ),
            StoreOperationView::InsertSampleData { count } => Json::Object(
                no_fields().insert("operation"@, Json::Text("insert_sample_data"@)).insert(
                    "table"@,
                    Json::Text("users"@),
                ).insert("count"@, Json::Integer(count as int)).insert("timestamp"@, stamp),
            ),
            StoreOperationView::GetUsers { count } => Json::Object(
                no_fields().insert("operation"@, Json::Text("get_users"@)).insert(
                    "count"@,
                    Json::Integer(count as int),
                ).insert("timestamp"@, stamp),
            ),
            StoreOperationView::GetStats { stats } => Json::Object(
                no_fields().insert("operation"@, Json::Text("get_stats"@)).insert("stats"@, stats).insert(
                    "timestamp"@,
                    stamp,
                ),
            ),
        }
    }
}

/// What is published of an operation of the store: the topic and the payload.
pub fn store_event(operation: StoreOperation, now: u64) -> (event: (String, serde_json::Value))
    ensures
        event.0@ == operation@.topic(),
        json_model(event.1) == operation@.payload(now),
{
    let mut fields = new_fields();
    let topic = match operation {
        StoreOperation::Connect { database } => {
            insert_field(&mut fields, "operation".to_owned(), text_value("connect".to_owned()));
            insert_field(&mut fields, "database".to_owned(), text_value(database));
            "database.operation"
        },
        StoreOperation::InitSchema => {
            insert_field(&mut fields, "operation".to_owned(), text_value("init_schema".to_owned()));
            insert_field(&mut fields, "table".to_owned(), text_value("users".to_owned()));
            "database.operation"
        },
        StoreOperation::InsertSampleData { count } => {
            insert_field(&mut fields, "operation".to_owned(), text_value("insert_sample_data".to_owned()));
            insert_field(&mut fields, "table".to_owned(), text_value("users".to_owned()));
            insert_field(&mut fields, "count".to_owned(), u64_value(count));
            "data.changed"
        },
        StoreOperation::GetUsers { count } => {
            insert_field(&mut fields, "operation".to_owned(), text_value("get_users".to_owned()));
            insert_field(&mut fields, "count".to_owned(), u64_value(count));
            "database.operation"
        },
        StoreOperation::GetStats { stats } => {
            insert_field(&mut fields, "operation".to_owned(), text_value("get_stats".to_owned()));
            insert_field(&mut fields, "stats".to_owned(), stats);
            "database.operation"
        },
    };
    insert_field(&mut fields, "timestamp".to_owned(), u64_value(now));
    (topic.to_owned(), object_value(fields))
}

} // verus!
