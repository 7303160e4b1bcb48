//! The log of the windows of the frontend: which exist, and what state each is
//! in.

use vstd::prelude::*;
use vstd::string::*;
use crate::json::{json_as_text, json_field, json_model, value_as_text, value_field, Json};
use crate::text::text_eq;

verus! {

/// What is known of one window.
#[derive(Debug, PartialEq)]
pub struct WindowInfo {
    pub id: String,
    pub title: String,
    pub focused: bool,
    pub minimized: bool,
    pub maximized: bool,
    /// When the window was registered, in milliseconds since the Unix epoch.
    pub created_at: u64,
    /// When the window last changed.
    pub last_activity: u64,
}

pub struct WindowInfoView {
    pub id: Seq<char>,
    pub title: Seq<char>,
    pub focused: bool,
    pub minimized: bool,
    pub maximized: bool,
    pub created_at: u64,
    pub last_activity: u64,
}

impl View for WindowInfo {
    type V = WindowInfoView;

    open spec fn view(&self) -> WindowInfoView {
        WindowInfoView {
            id: self.id@,
            title: self.title@,
            focused: self.focused,
            minimized: self.minimized,
            maximized: self.maximized,
            created_at: self.created_at,
            last_activity: self.last_activity,
        }
    }
}

impl Clone for WindowInfo {
    fn clone(&self) -> (copy: Self)
        ensures
            copy@ == self@,
    {
        WindowInfo {
            id: self.id.clone(),
            title: self.title.clone(),
            focused: self.focused,
            minimized: self.minimized,
            maximized: self.maximized,
            created_at: self.created_at,
            last_activity: self.last_activity,
        }
    }
}

impl WindowInfoView {
    /// A window that was just registered.
    pub open spec fn registered(id: Seq<char>, title: Seq<char>, now: u64) -> WindowInfoView {
        WindowInfoView {
            id,
            title,
            focused: false,
            minimized: false,
            maximized: false,
            created_at: now,
            last_activity: now,
        }
    }

    /// The window after something happened to it at the time `now`.
    pub open spec fn after(self, change: WindowChange, now: u64) -> WindowInfoView {
        match change {
            WindowChange::Focused => WindowInfoView { focused: true, last_activity: now, ..self },
            WindowChange::Blurred => WindowInfoView { focused: false, last_activity: now, ..self },
            WindowChange::Minimized => WindowInfoView {
                minimized: true,
                focused: false,
                last_activity: now,
                ..self
            },
            WindowChange::Restored => WindowInfoView { minimized: false, last_activity: now, ..self },
            WindowChange::Maximized => WindowInfoView { maximized: true, last_activity: now, ..self },
        }
    }

    /// The state of the window in one word: focus counts first, then whether
    /// the window is minimized, then whether it is maximized.
    pub open spec fn status(self) -> Seq<char> {
        if self.focused {
            "FOCUSED"@
        } else if self.minimized {
            "MINIMIZED"@
        } else if self.maximized {
            "MAXIMIZED"@
        } else {
            "ACTIVE"@
        }
    }
}

/// What can happen to a window that exists.
#[derive(Debug, Clone, Copy, PartialEq, Eq, Structural)]
pub enum WindowChange {
    Focused,
    Blurred,
    Minimized,
    Restored,
    Maximized,
}

/// What a report from the frontend did to the log.
#[derive(Debug, Clone, Copy, PartialEq, Eq, Structural)]
pub enum WindowLogOutcome {
    /// The report names no window or no action.
    Incomplete,
    /// The action is none that the log knows.
    UnknownAction,
    /// A window was registered.
    Registered,
    /// A window was to be registered, and the report gives it no title.
    Untitled,
    /// The window changed.
    Changed(WindowChange),
    /// The window was closed.
    Closed,
    /// The report is about a window that the log does not know.
    NoSuchWindow,
}

/// What a report from the frontend asks for.
pub enum WindowRequest {
    Incomplete,
    UnknownAction,
    Register { id: Seq<char>, title: Seq<char> },
    Untitled,
    Change { id: Seq<char>, change: WindowChange },
    Close { id: Seq<char> },
}

/// The field `key` of a report, where it is a string.
pub open spec fn report_text(report: Json, key: Seq<char>) -> Option<Seq<char>> {
    match json_field(report, key) {
        Some(field) => json_as_text(field),
        None => None,
    }
}

/// What a report asks for: it names the window under `id` and what happened
/// under `action`; a new window has its title under `windowTitle`.
pub open spec fn request_of(report: Json) -> WindowRequest {
    match (report_text(report, "id"@), report_text(report, "action"@)) {
        (Some(id), Some(action)) => {
            if action == "focused"@ {
                WindowRequest::Change { id, change: WindowChange::Focused }
            } else if action == "blurred"@ {
                WindowRequest::Change { id, change: WindowChange::Blurred }
            } else if action == "minimized"@ {
                WindowRequest::Change { id, change: WindowChange::Minimized }
            } else if action == "restored"@ {
                WindowRequest::Change { id, change: WindowChange::Restored }
            } else if action == "maximized"@ {
                WindowRequest::Change { id, change: WindowChange::Maximized }
            } else if action == "closed"@ {
                WindowRequest::Close { id }
            } else if action == "created"@ {
                match report_text(report, "windowTitle"@) {
                    Some(title) => WindowRequest::Register { id, title },
                    None => WindowRequest::Untitled,
                }
            } else {
                WindowRequest::UnknownAction
            }
        },
        _ => WindowRequest::Incomplete,
    }
}

/// The position of the first window with the identifier `id` among the first
/// `upto` windows.
pub open spec fn find_window(windows: Seq<WindowInfoView>, id: Seq<char>, upto: int) -> Option<int>
    decreases upto,
{
    if upto <= 0 {
        None
    } else {
        match find_window(windows, id, upto - 1) {
            Some(at) => Some(at),
            None => if windows[upto - 1].id == id {
                Some(upto - 1)
            } else {
                None
            },
        }
    }
}

/// The position of the first focused window among the first `upto` windows.
pub open spec fn find_focused(windows: Seq<WindowInfoView>, upto: int) -> Option<int>
    decreases upto,
{
    if upto <= 0 {
        None
    } else {
        match find_focused(windows, upto - 1) {
            Some(at) => Some(at),
            None => if windows[upto - 1].focused {
                Some(upto - 1)
            } else {
                None
            },
        }
    }
}

/// The position of the window `id`.
pub open spec fn position_of(windows: Seq<WindowInfoView>, id: Seq<char>) -> Option<int> {
    find_window(windows, id, windows.len() as int)
}

/// The windows after one was registered: a window of the same identifier is
/// replaced, any other comes last.
pub open spec fn with_registered(windows: Seq<WindowInfoView>, id: Seq<char>, title: Seq<char>, now: u64) -> Seq<
    WindowInfoView,
> {
    match position_of(windows, id) {
        Some(at) => windows.update(at, WindowInfoView::registered(id, title, now)),
        None => windows.push(WindowInfoView::registered(id, title, now)),
    }
}

/// The windows after a change to the window `id`, if there is one.
pub open spec fn with_change(windows: Seq<WindowInfoView>, id: Seq<char>, change: WindowChange, now: u64) -> Seq<
    WindowInfoView,
> {
    match position_of(windows, id) {
        Some(at) => windows.update(at, windows[at].after(change, now)),
        None => windows,
    }
}

/// The windows without the window `id`.
pub open spec fn without_window(windows: Seq<WindowInfoView>, id: Seq<char>) -> Seq<WindowInfoView> {
    match position_of(windows, id) {
        Some(at) => windows.remove(at),
        None => windows,
    }
}

/// The windows after a report, and what the report did.
pub open spec fn after_report(windows: Seq<WindowInfoView>, report: Json, now: u64) -> (
    Seq<WindowInfoView>,
    WindowLogOutcome,
) {
    match request_of(report) {
        WindowRequest::Incomplete => (windows, WindowLogOutcome::Incomplete),
        WindowRequest::UnknownAction => (windows, WindowLogOutcome::UnknownAction),
        WindowRequest::Untitled => (windows, WindowLogOutcome::Untitled),
        WindowRequest::Register { id, title } => (
            with_registered(windows, id, title, now),
            WindowLogOutcome::Registered,
        ),
        WindowRequest::Change { id, change } => (
            with_change(windows, id, change, now),
            if position_of(windows, id) is Some {
                WindowLogOutcome::Changed(change)
            } else {
                WindowLogOutcome::NoSuchWindow
            },
        ),
        WindowRequest::Close { id } => (
            without_window(windows, id),
            if position_of(windows, id) is Some {
                WindowLogOutcome::Closed
            } else {
                WindowLogOutcome::NoSuchWindow
            },
        ),
    }
}

/// The view of each window of a sequence.
pub open spec fn window_views(windows: Seq<WindowInfo>) -> Seq<WindowInfoView> {
    windows.map_values(|w: WindowInfo| w@)
}

/// The log of the windows.
#[derive(Debug, PartialEq)]
pub struct WindowLogger {
    windows: Vec<WindowInfo>,
}

impl View for WindowLogger {
    type V = Seq<WindowInfoView>;

    closed spec fn view(&self) -> Seq<WindowInfoView> {
        window_views(self.windows@)
    }
}

impl WindowLogger {
    /// A log without windows.
    pub fn new() -> (logger: Self)
        ensures
            logger@.len() == 0,
    {
        WindowLogger { windows: Vec::new() }
    }

    fn position(&self, id: &str) -> (at: Option<usize>)
        ensures
            match at {
                Some(at) => position_of(self@, id@) == Some(at as int) && at < self.windows@.len(),
                None => position_of(self@, id@).is_none(),
            },
    {
        let mut i: usize = 0;
        while i < self.windows.len()
            invariant
                i <= self.windows@.len(),
                find_window(self@, id@, i as int).is_none(),
            decreases self.windows@.len() - i,
        {
            if text_eq(self.windows[i].id.as_str(), id) {
                assert(find_window(self@, id@, i + 1) == Some(i as int));
                proof {
                    lemma_found_stays(self@, id@, i + 1, self.windows@.len() as int);
                }
                return Some(i);
            }
            i = i + 1;
        }
        None
    }

    /// Registers a window, as of the time `now`. A window registered before
    /// under the same identifier is forgotten.
    pub fn register_window(&mut self, id: String, title: String, now: u64)
        ensures
            final(self)@ == with_registered(old(self)@, id@, title@, now),
    {
        let at = self.position(id.as_str());
        let window = WindowInfo {
            id,
            title,
            focused: false,
            minimized: false,
            maximized: false,
            created_at: now,
            last_activity: now,
        };
        match at {
            Some(at) => {
                self.windows.set(at, window);
                assert(self@ =~= old(self)@.update(at as int, window@));
            },
            None => {
                self.windows.push(window);
                assert(self@ =~= old(self)@.push(window@));
            },
        }
    }

    fn change(&mut self, id: &str, change: WindowChange, now: u64) -> (found: bool)
        ensures
            final(self)@ == with_change(old(self)@, id@, change, now),
            found == position_of(old(self)@, id@).is_some(),
    {
        match self.position(id) {
            Some(at) => {
                let mut window = self.windows[at].clone();
                match change {
                    WindowChange::Focused => {
                        window.focused = true;
                    },
                    WindowChange::Blurred => {
                        window.focused = false;
                    },
                    WindowChange::Minimized => {
                        window.minimized = true;
                        window.focused = false;
                    },
                    WindowChange::Restored => {
                        window.minimized = false;
                    },
                    WindowChange::Maximized => {
                        window.maximized = true;
                    },
                }
                window.last_activity = now;
                assert(window@ == old(self)@[at as int].after(change, now));
                self.windows.set(at, window);
                assert(self@ =~= old(self)@.update(at as int, window@));
                true
            },
            None => false,
        }
    }

    /// Notes that the window `id` got the focus. Returns whether there is such
    /// a window.
    pub fn window_focused(&mut self, id: &str, now: u64) -> (found: bool)
        ensures
            final(self)@ == with_change(old(self)@, id@, WindowChange::Focused, now),
            found == position_of(old(self)@, id@).is_some(),
    {
        self.change(id, WindowChange::Focused, now)
    }

    /// Notes that the window `id` lost the focus.
    pub fn window_blurred(&mut self, id: &str, now: u64) -> (found: bool)
        ensures
            final(self)@ == with_change(old(self)@, id@, WindowChange::Blurred, now),
            found == position_of(old(self)@, id@).is_some(),
    {
        self.change(id, WindowChange::Blurred, now)
    }

    /// Notes that the window `id` was minimized, and so lost the focus.
    pub fn window_minimized(&mut self, id: &str, now: u64) -> (found: bool)
        ensures
            final(self)@ == with_change(old(self)@, id@, WindowChange::Minimized, now),
            found == position_of(old(self)@, id@).is_some(),
    {
        self.change(id, WindowChange::Minimized, now)
    }

    /// Notes that the window `id` is no longer minimized.
    pub fn window_restored(&mut self, id: &str, now: u64) -> (found: bool)
        ensures
            final(self)@ == with_change(old(self)@, id@, WindowChange::Restored, now),
            found == position_of(old(self)@, id@).is_some(),
    {
        self.change(id, WindowChange::Restored, now)
    }

    /// Notes that the window `id` was maximized.
    pub fn window_maximized(&mut self, id: &str, now: u64) -> (found: bool)
        ensures
            final(self)@ == with_change(old(self)@, id@, WindowChange::Maximized, now),
            found == position_of(old(self)@, id@).is_some(),
    {
        self.change(id, WindowChange::Maximized, now)
    }

    /// Forgets the window `id`. Returns whether there was such a window.
    pub fn window_closed(&mut self, id: &str) -> (found: bool)
        ensures
            final(self)@ == without_window(old(self)@, id@),
            found == position_of(old(self)@, id@).is_some(),
    {
        match self.position(id) {
            Some(at) => {
                self.windows.remove(at);
                assert(self@ =~= old(self)@.remove(at as int));
                true
            },
            None => false,
        }
    }

    /// What is known of the window `id`.
    pub fn get_window_info(&self, id: &str) -> (info: Option<WindowInfo>)
        ensures
            match info {
                Some(window) => position_of(self@, id@) matches Some(at) && window@ == self@[at],
                None => position_of(self@, id@).is_none(),
            },
    {
        match self.position(id) {
            Some(at) => Some(self.windows[at].clone()),
            None => None,
        }
    }

    /// All windows, in the order in which they were registered.
    pub fn get_all_windows(&self) -> (all: Vec<WindowInfo>)
        ensures
            window_views(all@) == self@,
    {
        let mut all: Vec<WindowInfo> = Vec::new();
        let mut i: usize = 0;
        while i < self.windows.len()
            invariant
                i <= self.windows@.len(),
                window_views(all@) == self@.take(i as int),
            decreases self.windows@.len() - i,
        {
            let ghost before = all@;
            let copy = self.windows[i].clone();
            all.push(copy);
            assert(window_views(all@) =~= window_views(before).push(copy@));
            assert(self@[i as int] == self.windows@[i as int]@);
            assert(window_views(all@) =~= self@.take(i + 1));
            i = i + 1;
        }
        assert(self@.take(i as int) =~= self@);
        all
    }

    /// The first window that has the focus.
    pub fn get_focused_window(&self) -> (info: Option<WindowInfo>)
        ensures
            match info {
                Some(window) => find_focused(self@, self@.len() as int) matches Some(at) && window@ == self@[at],
                None => find_focused(self@, self@.len() as int).is_none(),
            },
    {
        let mut i: usize = 0;
        while i < self.windows.len()
            invariant
                i <= self.windows@.len(),
                find_focused(self@, i as int).is_none(),
            decreases self.windows@.len() - i,
        {
            if self.windows[i].focused {
                assert(find_focused(self@, i + 1) == Some(i as int));
                proof {
                    lemma_focused_stays(self@, i + 1, self.windows@.len() as int);
                }
                return Some(self.windows[i].clone());
            }
            i = i + 1;
        }
        None
    }

    /// Takes a report of the frontend on a window, as of the time `now`, and
    /// says what it did to the log.
    pub fn log_window_state_change(&mut self, payload: &serde_json::Value, now: u64) -> (outcome: WindowLogOutcome)
        ensures
            final(self)@ == after_report(old(self)@, json_model(*payload), now).0,
            outcome == after_report(old(self)@, json_model(*payload), now).1,
    {
        let id = match value_field(payload, "id") {
            Some(field) => match value_as_text(field) {
                Some(text) => text,
                None => { return WindowLogOutcome::Incomplete; },
            },
            None => { return WindowLogOutcome::Incomplete; },
        };
        let action = match value_field(payload, "action") {
            Some(field) => match value_as_text(field) {
                Some(text) => text,
                None => { return WindowLogOutcome::Incomplete; },
            },
            None => { return WindowLogOutcome::Incomplete; },
        };
        if text_eq(action, "focused") {
            self.reported(id, WindowChange::Focused, now)
        } else if text_eq(action, "blurred") {
            self.reported(id, WindowChange::Blurred, now)
        } else if text_eq(action, "minimized") {
            self.reported(id, WindowChange::Minimized, now)
        } else if text_eq(action, "restored") {
            self.reported(id, WindowChange::Restored, now)
        } else if text_eq(action, "maximized") {
            self.reported(id, WindowChange::Maximized, now)
        } else if text_eq(action, "closed") {
            if self.window_closed(id) {
                WindowLogOutcome::Closed
            } else {
                WindowLogOutcome::NoSuchWindow
            }
        } else if text_eq(action, "created") {
            let title = match value_field(payload, "windowTitle") {
                Some(field) => match value_as_text(field) {
                    Some(text) => text,
                    None => { return WindowLogOutcome::Untitled; },
                },
                None => { return WindowLogOutcome::Untitled; },
            };
            self.register_window(id.to_owned(), title.to_owned(), now);
            WindowLogOutcome::Registered
        } else {
            WindowLogOutcome::UnknownAction
        }
    }

    fn reported(&mut self, id: &str, change: WindowChange, now: u64) -> (outcome: WindowLogOutcome)
        ensures
            final(self)@ == with_change(old(self)@, id@, change, now),
            outcome == if position_of(old(self)@, id@) is Some {
                WindowLogOutcome::Changed(change)
            } else {
                WindowLogOutcome::NoSuchWindow
            },
    {
        if self.change(id, change, now) {
            WindowLogOutcome::Changed(change)
        } else {
            WindowLogOutcome::NoSuchWindow
        }
    }
}

proof fn lemma_found_stays(windows: Seq<WindowInfoView>, id: Seq<char>, from: int, upto: int)
    requires
        from <= upto,
        find_window(windows, id, from) is Some,
    ensures
        find_window(windows, id, upto) == find_window(windows, id, from),
    decreases upto - from,
{
    if from < upto {
        lemma_found_stays(windows, id, from, upto - 1);
    }
}

proof fn lemma_focused_stays(windows: Seq<WindowInfoView>, from: int, upto: int)
    requires
        from <= upto,
        find_focused(windows, from) is Some,
    ensures
        find_focused(windows, upto) == find_focused(windows, from),
    decreases upto - from,
{
    if from < upto {
        lemma_focused_stays(windows, from, upto - 1);
    }
}

/// The state of a window in one word.
pub fn window_status(window: &WindowInfo) -> (status: &'static str)
    ensures
        status@ == window@.status(),
{
    if window.focused {
        "FOCUSED"
    } else if window.minimized {
        "MINIMIZED"
    } else if window.maximized {
        "MAXIMIZED"
    } else {
        "ACTIVE"
    }
}

/// The line that shows a window in a report of all windows, given the time of
/// its creation as a text.
pub open spec fn status_row(window: WindowInfoView, created: Seq<char>) -> Seq<char> {
    "["@ + window.status() + "] ID: "@ + window.id + " | Title: "@ + window.title + " | Created: "@ + created
}

/// Whether `line` shows `window`, with some text for the time of its creation.
pub open spec fn shows(line: Seq<char>, window: WindowInfoView) -> bool {
    exists|created: Seq<char>| line == #[trigger] status_row(window, created)
}

/// The line that shows `window` in a report of all windows.
pub fn window_status_line(window: &WindowInfo, created: &str) -> (line: String)
    ensures
        line@ == status_row(window@, created@),
{
    let mut line = "[".to_owned();
    line.append(window_status(window));
    line.append("] ID: ");
    line.append(window.id.as_str());
    line.append(" | Title: ");
    line.append(window.title.as_str());
    line.append(" | Created: ");
    line.append(created);
    line
}

/// The seconds and the nanoseconds of a time given in milliseconds.
pub fn split_millis(timestamp: u64) -> (parts: (i64, u32))
    ensures
        parts.0 == timestamp / 1000,
        parts.1 == (timestamp % 1000) * 1_000_000,
{
    ((timestamp / 1000) as i64, ((timestamp % 1000) * 1_000_000) as u32)
}

/// Whether a character is a decimal digit.
pub open spec fn is_digit(c: char) -> bool {
    '0' <= c <= '9'
}

/// Whether a text has the shape of a time of day: two digits each for the hour,
/// the minute and the second, with colons between them, then a dot and three
/// digits for the milliseconds.
pub open spec fn is_time_of_day(text: Seq<char>) -> bool {
    &&& text.len() == 12
    &&& is_digit(text[0]) && is_digit(text[1]) && text[2] == ':'
    &&& is_digit(text[3]) && is_digit(text[4]) && text[5] == ':'
    &&& is_digit(text[6]) && is_digit(text[7]) && text[8] == '.'
    &&& is_digit(text[9]) && is_digit(text[10]) && is_digit(text[11])
}

/// Trusted: `TimeZone::timestamp_opt` of `chrono::Local`, then the time of day
/// by `DateTime::format`; none where no single local time stands for the
/// instant. Which time of day it is depends on the time zone of the machine;
/// what is claimed is the shape that the format gives every time: hour, minute
/// and second in two digits each, the milliseconds in three.
#[verifier::external_body]
fn local_time_of_day(seconds: i64, nanos: u32) -> (text: Option<String>)
    ensures
        text matches Some(time) ==> is_time_of_day(time@),
{
    match chrono::TimeZone::timestamp_opt(&chrono::Local, seconds, nanos).single() {
        Some(time) => Some(time.format("%H:%M:%S%.3f").to_string()),
        None => None,
    }
}

/// What is shown for a local time of day, or for the lack of one.
pub open spec fn time_label(local: Option<String>) -> Seq<char> {
    match local {
        Some(time) => time@,
        None => "Invalid timestamp"@,
    }
}

/// What is shown for a local time of day: the time itself, or `Invalid
/// timestamp` where there is none.
pub fn label_time(local: Option<String>) -> (text: String)
    ensures
        text@ == time_label(local),
{
    match local {
        Some(time) => time,
        None => "Invalid timestamp".to_owned(),
    }
}

/// The time of day of a time given in milliseconds, in the time zone of the
/// machine: a text in the shape of a time of day, or `Invalid timestamp` where
/// no local time stands for the instant.
pub fn format_timestamp(timestamp: u64) -> (text: String)
    ensures
        is_time_of_day(text@) || text@ == "Invalid timestamp"@,
{
    let (seconds, nanos) = split_millis(timestamp);
    label_time(local_time_of_day(seconds, nanos))
}

/// The report of all windows, line by line.
pub fn print_window_status(windows: &Vec<WindowInfo>) -> (lines: Vec<String>)
    ensures
        lines@.len() == if windows@.len() == 0 {
            3
        } else {
            windows@.len() + 2
        },
        lines@[0]@ == "\n=== Window Status ==="@,
        lines@.last()@ == "=====================\n"@,
        windows@.len() == 0 ==> lines@[1]@ == "No windows currently active."@,
        forall|k: int| 0 <= k < windows@.len() ==> shows(#[trigger] lines@[k + 1]@, windows@[k]@),
{
    let mut lines: Vec<String> = Vec::new();
    lines.push("\n=== Window Status ===".to_owned());
    if windows.len() == 0 {
        lines.push("No windows currently active.".to_owned());
    } else {
        let mut i: usize = 0;
        while i < windows.len()
            invariant
                i <= windows@.len(),
                lines@.len() == i + 1,
                lines@[0]@ == "\n=== Window Status ==="@,
                forall|k: int| 0 <= k < i ==> shows(#[trigger] lines@[k + 1]@, windows@[k]@),
            decreases windows@.len() - i,
        {
            let created = format_timestamp(windows[i].created_at);
            let line = window_status_line(&windows[i], created.as_str());
            assert(shows(line@, windows@[i as int]@));
            lines.push(line);
            i = i + 1;
        }
    }
    lines.push("=====================\n".to_owned());
    lines
}

} // verus!
