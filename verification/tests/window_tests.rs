use rustwebui_app::window_logger::{
    format_timestamp, label_time, print_window_status, split_millis, window_status, window_status_line,
    WindowChange, WindowInfo, WindowLogOutcome, WindowLogger,
};

fn parse(text: &str) -> serde_json::Value {
    serde_json::from_str(text).unwrap()
}

fn window(id: &str, title: &str, at: u64) -> WindowInfo {
    WindowInfo {
        id: id.to_string(),
        title: title.to_string(),
        focused: false,
        minimized: false,
        maximized: false,
        created_at: at,
        last_activity: at,
    }
}

#[test]
fn windows_are_registered_and_found() {
    let mut log = WindowLogger::new();
    assert_eq!(log.get_all_windows(), vec![]);
    assert_eq!(log.get_window_info("a"), None);
    log.register_window("a".to_string(), "First".to_string(), 10);
    log.register_window("b".to_string(), "Second".to_string(), 20);
    assert_eq!(log.get_window_info("a"), Some(window("a", "First", 10)));
    assert_eq!(log.get_all_windows(), vec![window("a", "First", 10), window("b", "Second", 20)]);
    log.register_window("a".to_string(), "Again".to_string(), 30);
    assert_eq!(log.get_all_windows(), vec![window("a", "Again", 30), window("b", "Second", 20)]);
}

#[test]
fn windows_change_state() {
    let mut log = WindowLogger::new();
    log.register_window("a".to_string(), "First".to_string(), 10);
    log.register_window("b".to_string(), "Second".to_string(), 20);
    assert_eq!(log.get_focused_window(), None);
    assert!(log.window_focused("b", 30));
    assert!(!log.window_focused("zz", 30));
    let mut expected = window("b", "Second", 20);
    expected.focused = true;
    expected.last_activity = 30;
    assert_eq!(log.get_focused_window(), Some(expected));
    assert!(log.window_focused("a", 31));
    assert_eq!(log.get_focused_window().unwrap().id, "a");
    assert!(log.window_maximized("a", 32));
    assert!(log.window_minimized("a", 33));
    let a = log.get_window_info("a").unwrap();
    assert!(a.minimized && a.maximized && !a.focused);
    assert_eq!(a.last_activity, 33);
    assert_eq!(a.created_at, 10);
    assert!(log.window_restored("a", 34));
    assert!(!log.get_window_info("a").unwrap().minimized);
    assert!(log.window_blurred("b", 35));
    assert_eq!(log.get_focused_window(), None);
    assert!(!log.window_blurred("c", 36));
    assert!(!log.window_minimized("c", 36));
    assert!(!log.window_restored("c", 36));
    assert!(!log.window_maximized("c", 36));
    assert!(log.window_closed("a"));
    assert!(!log.window_closed("a"));
    assert_eq!(log.get_all_windows().len(), 1);
    assert_eq!(log.get_window_info("a"), None);
}

#[test]
fn reports_of_the_frontend_are_taken() {
    let mut log = WindowLogger::new();
    assert_eq!(
        log.log_window_state_change(&parse("{\"id\":\"w\",\"action\":\"created\",\"windowTitle\":\"Main\"}"), 5),
        WindowLogOutcome::Registered
    );
    assert_eq!(log.get_window_info("w"), Some(window("w", "Main", 5)));
    assert_eq!(
        log.log_window_state_change(&parse("{\"id\":\"w\",\"action\":\"focused\"}"), 6),
        WindowLogOutcome::Changed(WindowChange::Focused)
    );
    assert!(log.get_window_info("w").unwrap().focused);
    assert_eq!(
        log.log_window_state_change(&parse("{\"id\":\"w\",\"action\":\"minimized\"}"), 7),
        WindowLogOutcome::Changed(WindowChange::Minimized)
    );
    assert_eq!(
        log.log_window_state_change(&parse("{\"id\":\"w\",\"action\":\"restored\"}"), 8),
        WindowLogOutcome::Changed(WindowChange::Restored)
    );
    assert_eq!(
        log.log_window_state_change(&parse("{\"id\":\"w\",\"action\":\"maximized\"}"), 9),
        WindowLogOutcome::Changed(WindowChange::Maximized)
    );
    assert_eq!(
        log.log_window_state_change(&parse("{\"id\":\"w\",\"action\":\"blurred\"}"), 10),
        WindowLogOutcome::Changed(WindowChange::Blurred)
    );
    let w = log.get_window_info("w").unwrap();
    assert!(!w.focused && !w.minimized && w.maximized);
    assert_eq!(w.last_activity, 10);
    assert_eq!(
        log.log_window_state_change(&parse("{\"id\":\"x\",\"action\":\"focused\"}"), 11),
        WindowLogOutcome::NoSuchWindow
    );
    assert_eq!(
        log.log_window_state_change(&parse("{\"id\":\"x\",\"action\":\"closed\"}"), 11),
        WindowLogOutcome::NoSuchWindow
    );
    assert_eq!(
        log.log_window_state_change(&parse("{\"id\":\"w\",\"action\":\"shaken\"}"), 11),
        WindowLogOutcome::UnknownAction
    );
    assert_eq!(
        log.log_window_state_change(&parse("{\"id\":\"v\",\"action\":\"created\"}"), 11),
        WindowLogOutcome::Untitled
    );
    assert_eq!(
        log.log_window_state_change(&parse("{\"id\":\"v\",\"action\":\"created\",\"windowTitle\":7}"), 11),
        WindowLogOutcome::Untitled
    );
    assert_eq!(log.log_window_state_change(&parse("{\"action\":\"focused\"}"), 11), WindowLogOutcome::Incomplete);
    assert_eq!(log.log_window_state_change(&parse("{\"id\":\"w\"}"), 11), WindowLogOutcome::Incomplete);
    assert_eq!(log.log_window_state_change(&parse("{\"id\":3,\"action\":\"focused\"}"), 11), WindowLogOutcome::Incomplete);
    assert_eq!(log.log_window_state_change(&parse("[]"), 11), WindowLogOutcome::Incomplete);
    assert_eq!(log.get_all_windows().len(), 1);
    assert_eq!(
        log.log_window_state_change(&parse("{\"id\":\"w\",\"action\":\"closed\"}"), 12),
        WindowLogOutcome::Closed
    );
    assert_eq!(log.get_all_windows(), vec![]);
}

#[test]
fn the_status_of_a_window_is_one_word() {
    let mut w = window("w", "Main", 0);
    assert_eq!(window_status(&w), "ACTIVE");
    w.maximized = true;
    assert_eq!(window_status(&w), "MAXIMIZED");
    w.minimized = true;
    assert_eq!(window_status(&w), "MINIMIZED");
    w.focused = true;
    assert_eq!(window_status(&w), "FOCUSED");
    assert_eq!(window_status_line(&w, "12:00:00.000"), "[FOCUSED] ID: w | Title: Main | Created: 12:00:00.000");
}

#[test]
fn the_report_of_all_windows() {
    assert_eq!(
        print_window_status(&vec![]),
        vec!["\n=== Window Status ===", "No windows currently active.", "=====================\n"]
    );
    let lines = print_window_status(&vec![window("a", "First", 1_000), window("b", "Second", 2_000)]);
    assert_eq!(lines.len(), 4);
    assert_eq!(lines[0], "\n=== Window Status ===");
    assert!(lines[1].starts_with("[ACTIVE] ID: a | Title: First | Created: "));
    assert!(lines[2].starts_with("[ACTIVE] ID: b | Title: Second | Created: "));
    assert_eq!(lines[3], "=====================\n");
}

#[test]
fn times_are_split_and_shown() {
    assert_eq!(split_millis(0), (0, 0));
    assert_eq!(split_millis(1_234), (1, 234_000_000));
    assert_eq!(split_millis(u64::MAX), (18_446_744_073_709_551, 615_000_000));
    let shown = format_timestamp(1_700_000_000_123);
    assert_eq!(shown.len(), 12);
    assert!(shown.ends_with(".123"));
    for (at, c) in shown.chars().enumerate() {
        match at {
            2 | 5 => assert_eq!(c, ':'),
            8 => assert_eq!(c, '.'),
            _ => assert!(c.is_ascii_digit()),
        }
    }
    assert_eq!(format_timestamp(u64::MAX), "Invalid timestamp");
    assert_eq!(label_time(Some("01:02:03.004".to_string())), "01:02:03.004");
    assert_eq!(label_time(None), "Invalid timestamp");
    assert!(rustwebui_app::stamp::now_millis() <= i64::MAX as u64);
}
