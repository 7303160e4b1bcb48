use rustwebui_app::event_bus::{
    EmitReport, Event, EventBus, EventHandler, HandlerFailure, BROADCAST_CAPACITY,
};
use std::cell::RefCell;
use std::rc::Rc;

struct Recorder {
    label: &'static str,
    fails: bool,
    seen: Rc<RefCell<Vec<String>>>,
}

impl EventHandler for Recorder {
    fn handle(&self, event: &Event) -> Result<(), String> {
        self.seen.borrow_mut().push(format!("{}:{}", self.label, event.id));
        if self.fails {
            Err(format!("{} failed", self.label))
        } else {
            Ok(())
        }
    }
}

fn event(id: &str, name: &str) -> Event {
    Event::stamped(id.to_string(), name.to_string(), serde_json::Value::Null, 1, "backend".to_string())
}

fn test_data() -> serde_json::Value {
    let mut fields = serde_json::Map::new();
    fields.insert("test".to_string(), serde_json::Value::String("data".to_string()));
    serde_json::Value::Object(fields)
}

#[test]
fn test_event_bus_basic() {
    let mut bus = EventBus::new();
    let seen = Rc::new(RefCell::new(Vec::new()));
    bus.subscribe("test.event", Recorder { label: "h", fails: false, seen: seen.clone() }).unwrap();

    let report = bus.emit_simple("test.event", test_data()).unwrap();

    assert_eq!(report.invoked, vec![0]);
    assert_eq!(seen.borrow().len(), 1);
}

#[test]
fn emitting_on_an_empty_bus_does_nothing_and_succeeds() {
    let mut bus: EventBus<Recorder> = EventBus::new();
    assert_eq!(bus.subscription_count(), 0);
    assert_eq!(bus.emit(event("1", "any")), Ok(EmitReport { invoked: vec![], failures: vec![] }));
    assert_eq!(bus.emit_simple("any", test_data()), Ok(EmitReport { invoked: vec![], failures: vec![] }));
    assert_eq!(bus.receive(0), None);
    assert_eq!(bus.pending_count(0), 0);
}

#[test]
fn handlers_run_in_the_order_of_subscription_whatever_the_others_do() {
    let seen = Rc::new(RefCell::new(Vec::new()));
    let mut bus = EventBus::new();
    bus.subscribe("a", Recorder { label: "first", fails: false, seen: seen.clone() }).unwrap();
    bus.subscribe("b", Recorder { label: "other", fails: false, seen: seen.clone() }).unwrap();
    bus.subscribe("a", Recorder { label: "second", fails: true, seen: seen.clone() }).unwrap();
    bus.register_event_handler("a", Recorder { label: "first", fails: false, seen: seen.clone() }).unwrap();
    bus.subscribe("A", Recorder { label: "upper", fails: false, seen: seen.clone() }).unwrap();
    assert_eq!(bus.subscription_count(), 5);

    let report = bus.emit(event("7", "a")).unwrap();
    assert_eq!(report.invoked, vec![0, 2, 3]);
    assert_eq!(report.failures, vec![HandlerFailure { position: 2, message: "second failed".to_string() }]);
    assert_eq!(*seen.borrow(), vec!["first:7", "second:7", "first:7"]);

    let report = bus.emit(event("8", "c")).unwrap();
    assert_eq!(report.invoked, Vec::<usize>::new());
    assert_eq!(seen.borrow().len(), 3);
}

#[test]
fn listeners_see_the_same_events_in_the_order_of_emission() {
    let mut bus: EventBus<Recorder> = EventBus::new();
    bus.emit(event("before", "n")).unwrap();
    let a = bus.listen();
    let b = bus.listen();
    let c = bus.listen();
    assert_eq!((a, b, c), (0, 1, 2));
    for i in 0..5 {
        bus.emit(event(&i.to_string(), "n")).unwrap();
    }
    for listener in [a, b, c] {
        assert_eq!(bus.pending_count(listener), 5);
        let ids: Vec<String> = (0..5).map(|_| bus.receive(listener).unwrap().id).collect();
        assert_eq!(ids, vec!["0", "1", "2", "3", "4"]);
        assert_eq!(bus.receive(listener), None);
    }
}

#[test]
fn a_listener_that_lags_loses_the_oldest_events() {
    let mut bus: EventBus<Recorder> = EventBus::new();
    let slow = bus.listen();
    assert_eq!(BROADCAST_CAPACITY, 100);
    for i in 0..100 {
        bus.emit(event(&i.to_string(), "n")).unwrap();
    }
    assert_eq!(bus.pending_count(slow), 100);
    assert_eq!(bus.take_lost(slow), 0);
    let fast = bus.listen();
    for i in 100..103 {
        bus.emit(event(&i.to_string(), "n")).unwrap();
    }
    assert_eq!(bus.pending_count(slow), 100);
    assert_eq!(bus.take_lost(fast), 0);
    assert_eq!(bus.take_lost(slow), 3);
    assert_eq!(bus.take_lost(slow), 0);
    assert_eq!(bus.take_lost(99), 0);
    assert_eq!(bus.pending_count(slow), 100);
    assert_eq!(bus.receive(slow).unwrap().id, "3");
    assert_eq!(bus.receive(slow).unwrap().id, "4");
    assert_eq!(bus.pending_count(slow), 98);
    assert_eq!(bus.pending_count(fast), 3);
    assert_eq!(bus.receive(fast).unwrap().id, "100");
    let mut last = String::new();
    while let Some(event) = bus.receive(slow) {
        last = event.id;
    }
    assert_eq!(last, "102");
}

#[test]
fn a_loss_is_counted_until_the_listener_asks() {
    let mut bus: EventBus<Recorder> = EventBus::new();
    let slow = bus.listen();
    for i in 0..250 {
        bus.emit(event(&i.to_string(), "n")).unwrap();
    }
    assert_eq!(bus.take_lost(slow), 150);
    let ids: Vec<String> = (0..100).map(|_| bus.receive(slow).unwrap().id).collect();
    let expected: Vec<String> = (150..250).map(|i| i.to_string()).collect();
    assert_eq!(ids, expected);
    assert_eq!(bus.receive(slow), None);
    bus.emit(event("250", "n")).unwrap();
    assert_eq!(bus.take_lost(slow), 0);
    for i in 0..101 {
        bus.emit(event(&i.to_string(), "n")).unwrap();
    }
    bus.unlisten(slow);
    assert_eq!(bus.take_lost(slow), 0);
    let again = bus.listen();
    assert_eq!(again, slow);
    assert_eq!(bus.take_lost(again), 0);
}

#[test]
fn each_subscription_keeps_its_own_handler() {
    let seen = Rc::new(RefCell::new(Vec::new()));
    let mut bus = EventBus::new();
    bus.subscribe("a", Recorder { label: "one", fails: true, seen: seen.clone() }).unwrap();
    bus.subscribe("b", Recorder { label: "two", fails: false, seen: seen.clone() }).unwrap();
    bus.subscribe("a", Recorder { label: "three", fails: true, seen: seen.clone() }).unwrap();
    let listener = bus.listen();
    let report = bus.emit(event("1", "b")).unwrap();
    assert_eq!(report, EmitReport { invoked: vec![1], failures: vec![] });
    assert_eq!(*seen.borrow(), vec!["two:1"]);
    let report = bus.emit(event("2", "a")).unwrap();
    assert_eq!(
        report,
        EmitReport {
            invoked: vec![0, 2],
            failures: vec![
                HandlerFailure { position: 0, message: "one failed".to_string() },
                HandlerFailure { position: 2, message: "three failed".to_string() },
            ],
        }
    );
    assert_eq!(*seen.borrow(), vec!["two:1", "one:2", "three:2"]);
    bus.receive(listener);
    bus.take_lost(listener);
    bus.unlisten(listener);
    assert_eq!(bus.emit(event("3", "b")).unwrap().invoked, vec![1]);
    assert_eq!(seen.borrow().last().unwrap(), "two:3");
}

#[test]
fn a_cancelled_listener_receives_nothing_and_its_number_is_given_out_again() {
    let mut bus: EventBus<Recorder> = EventBus::new();
    let a = bus.listen();
    let b = bus.listen();
    bus.emit(event("1", "n")).unwrap();
    bus.unlisten(a);
    bus.unlisten(17);
    assert_eq!(bus.pending_count(a), 0);
    assert_eq!(bus.receive(a), None);
    bus.emit(event("2", "n")).unwrap();
    assert_eq!(bus.receive(a), None);
    assert_eq!(bus.pending_count(b), 2);
    let again = bus.listen();
    assert_eq!(again, a);
    assert_eq!(bus.pending_count(again), 0);
    bus.emit(event("3", "n")).unwrap();
    assert_eq!(bus.receive(again).unwrap().id, "3");
    assert_eq!(bus.listen(), 2);
}

#[test]
fn events_carry_what_they_were_made_of() {
    let made = Event::new("topic".to_string(), test_data(), "backend".to_string());
    let other = Event::new("topic".to_string(), test_data(), "backend".to_string());
    assert_eq!(made.name, "topic");
    assert_eq!(made.payload, test_data());
    assert_eq!(made.source, "backend");
    assert_eq!(made.id.len(), 36);
    assert_ne!(made.id, other.id);
    assert!(made.timestamp > 1_600_000_000_000);
    assert!(made.timestamp <= i64::MAX as u64);
    assert_eq!(made.clone(), made);
    let mut bus: EventBus<Recorder> = EventBus::new();
    let listener = bus.listen();
    bus.emit_simple("simple", test_data()).unwrap();
    let seen = bus.receive(listener).unwrap();
    assert_eq!(seen.id.len(), 36);
    assert!(seen.timestamp > 1_600_000_000_000);
    assert_eq!(seen.name, "simple");
    assert_eq!(seen.source, "backend");
    assert_eq!(seen.payload, test_data());
}
