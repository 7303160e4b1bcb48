//! What the file server does with a request, apart from serving it.

use vstd::prelude::*;
use vstd::string::*;
use crate::json::{insert_field, json_model, new_fields, no_fields, object_value, text_value, Json};
use crate::text::{join, starts_with, strip_leading, text_eq, without_leading};

verus! {

/// What a request is for.
#[derive(Debug, PartialEq)]
pub enum Route {
    /// The script that connects a page to the backend.
    Bridge,
    /// The metrics of the system.
    DevToolsMetrics,
    /// The health of the backend.
    DevToolsHealth,
    /// What the backend is.
    DevToolsInfo,
    /// An endpoint of the developer tools that there is not.
    DevToolsUnknown,
    /// A file of the frontend, by its path below the frontend's directory.
    File(String),
}

pub enum RouteView {
    Bridge,
    DevToolsMetrics,
    DevToolsHealth,
    DevToolsInfo,
    DevToolsUnknown,
    File(Seq<char>),
}

impl View for Route {
    type V = RouteView;

    open spec fn view(&self) -> RouteView {
        match self {
            Route::Bridge => RouteView::Bridge,
            Route::DevToolsMetrics => RouteView::DevToolsMetrics,
            Route::DevToolsHealth => RouteView::DevToolsHealth,
            Route::DevToolsInfo => RouteView::DevToolsInfo,
            Route::DevToolsUnknown => RouteView::DevToolsUnknown,
            Route::File(path) => RouteView::File(path@),
        }
    }
}

/// What a request for `url` is for. The bridge has its own address; what
/// begins with `/api/devtools/` is for the developer tools; everything else is
/// a file, `/` being `index.html`.
pub open spec fn route_of(url: Seq<char>) -> RouteView {
    if url == "/webui.js"@ {
        RouteView::Bridge
    } else if "/api/devtools/"@.is_prefix_of(url) {
        if url == "/api/devtools/metrics"@ {
            RouteView::DevToolsMetrics
        } else if url == "/api/devtools/health"@ {
            RouteView::DevToolsHealth
        } else if url == "/api/devtools/info"@ {
            RouteView::DevToolsInfo
        } else {
            RouteView::DevToolsUnknown
        }
    } else if url == "/"@ {
        RouteView::File("index.html"@)
    } else {
        RouteView::File(without_leading(url, '/'))
    }
}

/// What a request for `url` is for.
pub fn route(url: &str) -> (route: Route)
    ensures
        route@ == route_of(url@),
{
    if text_eq(url, "/webui.js") {
        Route::Bridge
    } else if starts_with(url, "/api/devtools/") {
        if text_eq(url, "/api/devtools/metrics") {
            Route::DevToolsMetrics
        } else if text_eq(url, "/api/devtools/health") {
            Route::DevToolsHealth
        } else if text_eq(url, "/api/devtools/info") {
            Route::DevToolsInfo
        } else {
            Route::DevToolsUnknown
        }
    } else if text_eq(url, "/") {
        Route::File("index.html".to_owned())
    } else {
        Route::File(strip_leading(url, '/').to_owned())
    }
}

/// What became of the file that a request is for.
#[derive(Debug, PartialEq)]
pub enum FileLookup {
    /// The file is there and was read.
    Found,
    /// The file is there and could not be read.
    Unreadable(String),
    /// There is no such file.
    Missing,
}

/// How a request for a file is answered, apart from the file itself.
#[derive(Debug, PartialEq)]
pub struct FileAnswer {
    pub status: u16,
    /// The body, where it is not the file.
    pub body: Option<String>,
}

/// How a request for a file is answered: with the file, with the error that
/// kept it from being read, or with `Not Found`.
pub fn file_answer(lookup: FileLookup) -> (answer: FileAnswer)
    ensures
        match lookup {
            FileLookup::Found => answer.status == 200 && answer.body is None,
            FileLookup::Unreadable(e) => answer.status == 500 && (answer.body matches Some(body) && body@
                == "Error: "@ + e@),
            FileLookup::Missing => answer.status == 404 && (answer.body matches Some(body) && body@
                == "Not Found"@),
        },
{
    match lookup {
        FileLookup::Found => FileAnswer { status: 200, body: None },
        FileLookup::Unreadable(e) => FileAnswer { status: 500, body: Some(join("Error: ", e.as_str())) },
        FileLookup::Missing => FileAnswer { status: 404, body: Some("Not Found".to_owned()) },
    }
}

/// The answer to a request for an endpoint of the developer tools that there
/// is not.
pub fn unknown_endpoint() -> (answer: serde_json::Value)
    ensures
        json_model(answer) == Json::Object(
            no_fields().insert("error"@, Json::Text("Unknown DevTools endpoint"@)),
        ),
{
    let mut fields = new_fields();
    insert_field(&mut fields, "error".to_owned(), text_value("Unknown DevTools endpoint".to_owned()));
    object_value(fields)
}

/// The headers of an answer, name and value each.
#[derive(Debug, Clone, Copy, PartialEq)]
pub struct Header {
    pub name: &'static str,
    pub value: &'static str,
}

/// The headers that go with the bridge: it is a script, and not to be kept.
pub fn bridge_headers() -> (headers: Vec<Header>)
    ensures
        headers@.len() == 2,
        headers@[0].name@ == "Content-Type"@ && headers@[0].value@ == "application/javascript"@,
        headers@[1].name@ == "Cache-Control"@ && headers@[1].value@ == "no-cache, no-store, must-revalidate"@,
{
    let mut headers: Vec<Header> = Vec::new();
    headers.push(Header { name: "Content-Type", value: "application/javascript" });
    headers.push(Header { name: "Cache-Control", value: "no-cache, no-store, must-revalidate" });
    headers
}

/// The headers that go with an answer of the developer tools: it is JSON, and
/// any page may read it.
pub fn devtools_headers() -> (headers: Vec<Header>)
    ensures
        headers@.len() == 2,
        headers@[0].name@ == "Content-Type"@ && headers@[0].value@ == "application/json"@,
        headers@[1].name@ == "Access-Control-Allow-Origin"@ && headers@[1].value@ == "*"@,
{
    let mut headers: Vec<Header> = Vec::new();
    headers.push(Header { name: "Content-Type", value: "application/json" });
    headers.push(Header { name: "Access-Control-Allow-Origin", value: "*" });
    headers
}

} // verus!
