use synapse_mcp::geometry::Rect;
use synapse_mcp::json::{Json, JsonNumber};
use synapse_mcp::m1::observation::{ElementId, ForegroundContext};
use synapse_mcp::m3::a11y_events::{
    event_filter_requires_a11y_bridge, event_foreground_context, event_from_accessible,
    event_kind_name, is_a11y_event_kind, kinds_require_a11y_bridge, recorded_kind, AccessibleEvent,
    AccessibleEventKind, EventNumbers,
};
use synapse_mcp::m3::activity_recorder::WindowEventKind;
use synapse_mcp::m3::events::{DataPredicate, EventFilter, EventSource};

type Filter = EventFilter<u8, u8>;

fn kind(name: &str) -> Filter {
    EventFilter::Kind { kind: name.to_owned() }
}

#[test]
fn interface_kinds_are_recognised_in_any_spelling() {
    assert!(is_a11y_event_kind("foreground-changed"));
    assert!(is_a11y_event_kind("  Foreground_Changed\n"));
    assert!(is_a11y_event_kind("MENUSTART"));
    assert!(!is_a11y_event_kind("menu-start"));
    assert!(!is_a11y_event_kind("clipboard"));
    assert!(kinds_require_a11y_bridge(&["x".to_owned(), "alert".to_owned()]));
    assert!(!kinds_require_a11y_bridge(&["x".to_owned()]));
    assert!(!kinds_require_a11y_bridge(&[]));
    for kind in [
        AccessibleEventKind::ForegroundChanged,
        AccessibleEventKind::FocusChanged,
        AccessibleEventKind::ValueChanged,
        AccessibleEventKind::NameChanged,
        AccessibleEventKind::ElementAppeared,
        AccessibleEventKind::ElementDisappeared,
        AccessibleEventKind::SelectionChanged,
        AccessibleEventKind::MenuStart,
        AccessibleEventKind::MenuEnd,
        AccessibleEventKind::Alert,
    ] {
        assert!(is_a11y_event_kind(event_kind_name(kind)));
    }
}

#[test]
fn filters_ask_for_the_interface_through_their_parts() {
    let source = |source| Filter::Source { source };
    assert!(event_filter_requires_a11y_bridge(&source(EventSource::A11yUia)));
    assert!(event_filter_requires_a11y_bridge(&source(EventSource::A11yCdp)));
    assert!(event_filter_requires_a11y_bridge(&source(EventSource::A11yWinEvent)));
    assert!(!event_filter_requires_a11y_bridge(&source(EventSource::Filesystem)));
    assert!(event_filter_requires_a11y_bridge(&kind("value_changed")));
    assert!(!event_filter_requires_a11y_bridge(&Filter::OtherSource { source: 1 }));
    let data = EventFilter::Data {
        path: "/x".to_owned(),
        predicate: DataPredicate::Other { predicate: 2 },
    };
    let nested = EventFilter::And {
        args: vec![data, EventFilter::Or { args: vec![kind("x"), kind("alert")] }],
    };
    assert!(event_filter_requires_a11y_bridge(&nested));
    let negated = EventFilter::Not { arg: Box::new(kind("alert")) };
    assert!(!event_filter_requires_a11y_bridge(&negated));
    assert!(!event_filter_requires_a11y_bridge(&EventFilter::Or { args: vec![negated] }));
    assert!(!event_filter_requires_a11y_bridge(&Filter::Everything));
    assert!(!event_filter_requires_a11y_bridge(&Filter::Nothing));
}

fn context(hwnd: i64, title: &str) -> ForegroundContext {
    ForegroundContext {
        hwnd,
        pid: 12,
        process_name: "app.exe".to_owned(),
        process_path: "C:\\app.exe".to_owned(),
        window_title: title.to_owned(),
        window_bounds: Rect { x: 0, y: 0, w: 1, h: 1 },
    }
}

#[test]
fn events_are_about_their_window_or_the_foreground() {
    let hwnd = |event: Option<ForegroundContext>, current: Option<ForegroundContext>| {
        event_foreground_context(event, current).map(|context| context.hwnd)
    };
    assert_eq!(hwnd(Some(context(1, "Title")), Some(context(2, "Other"))), Some(1));
    assert_eq!(hwnd(Some(context(1, "  ")), Some(context(2, "Other"))), Some(2));
    assert_eq!(hwnd(Some(context(1, "")), None), Some(1));
    assert_eq!(hwnd(None, Some(context(2, ""))), Some(2));
    assert_eq!(hwnd(None, None), None);
}

#[test]
fn events_are_published_with_their_window() {
    let event = AccessibleEvent {
        seq: 5,
        at_ms: 6,
        window_id: -7,
        element_id: Some(ElementId { hwnd: 0x10, runtime_id_hex: "0a".to_owned() }),
        kind: AccessibleEventKind::NameChanged,
        name: Some("Save".to_owned()),
        value: None,
    };
    let published = event_from_accessible(
        &event,
        Json::Text("name_changed".to_owned()),
        &Some(context(9, "Doc")),
        3,
    );
    assert_eq!(published.seq, 3);
    assert_eq!(published.source, EventSource::A11yWinEvent);
    assert_eq!(published.kind, "name-changed");
    let unsigned = |n: u64| Json::Number(JsonNumber::Unsigned(n));
    let entries = match published.data {
        Json::Object(entries) => entries,
        other => panic!("object expected: {other:?}"),
    };
    let pairs: Vec<(&str, &Json)> =
        entries.iter().map(|entry| (entry.key.as_str(), &entry.value)).collect();
    assert_eq!(
        pairs,
        [
            ("element_id", &Json::Text("0x10:0a".to_owned())),
            ("event_kind", &Json::Text("name_changed".to_owned())),
            ("foreground_window_id", &unsigned(9)),
            ("name", &Json::Text("Save".to_owned())),
            ("pid", &unsigned(12)),
            ("process_name", &Json::Text("app.exe".to_owned())),
            ("value", &Json::Null),
            ("win_event_at_ms", &unsigned(6)),
            ("win_event_seq", &unsigned(5)),
            ("window_id", &Json::Number(JsonNumber::Negative(-7))),
            ("window_title", &Json::Text("Doc".to_owned())),
        ]
    );
    let blind = event_from_accessible(&event, Json::Null, &None, 4);
    match blind.data {
        Json::Object(entries) => {
            assert_eq!(entries[2].value, Json::Null);
            assert_eq!(entries[4].value, unsigned(0));
            assert_eq!(entries[10].value, Json::Text(String::new()));
        }
        other => panic!("object expected: {other:?}"),
    }
    assert_eq!(recorded_kind(AccessibleEventKind::NameChanged), WindowEventKind::NameChanged);
    assert_eq!(
        recorded_kind(AccessibleEventKind::ForegroundChanged),
        WindowEventKind::ForegroundChanged
    );
    assert_eq!(recorded_kind(AccessibleEventKind::Alert), WindowEventKind::Other);
}

#[test]
fn published_events_are_numbered_from_one() {
    let mut numbers = EventNumbers::new();
    assert_eq!(numbers.take(), 1);
    assert_eq!(numbers.take(), 2);
    numbers.next_seq = u64::MAX;
    assert_eq!(numbers.take(), u64::MAX);
    assert_eq!(numbers.take(), u64::MAX);
}
