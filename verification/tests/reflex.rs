use synapse_mcp::json::{Json, JsonNumber};
use synapse_mcp::m2::action::{Backend, Key, KeyCode};
use synapse_mcp::m2::stroke::MouseButton;
use synapse_mcp::m3::events::{DataPredicate, EventFilter, EventSource};
use synapse_mcp::m3::reflex::common::{
    actions_from_then, apply_backend_default, button_down_action, check_regex,
    combo_steps_from_params, default_backend, default_file_jsonl_tail_poll_interval_ms,
    empty_params, is_local_file_jsonl_tail_host, is_windows_absolute_path, json_path_to_pointer,
    machine_name, normalize_window_event_kind, required_then, validate_file_jsonl_tail_host,
    validate_file_jsonl_tail_path, validate_regex, ButtonAction, ComboInput, ComboStep,
    FileJsonlTailKind, FileJsonlTailPredicate, FileJsonlTailWhen, MadeAction, ReflexAction,
    ReflexButtonTarget, ReflexComboStepParam, ReflexError, ReflexThen, ReflexThenAuditActionParam,
    ReflexThenParam, ReflexThenStep, ReflexTimedThenStep, ReflexWhenParam, WindowEventMatch,
    WindowEventWhen,
};

fn detail<T: std::fmt::Debug>(result: Result<T, ReflexError>) -> String {
    match result {
        Err(ReflexError::ParamsInvalid { detail }) => detail,
        Ok(value) => panic!("refusal expected: {value:?}"),
    }
}

fn tail() -> FileJsonlTailWhen {
    FileJsonlTailWhen {
        kind: FileJsonlTailKind::FileJsonlTail,
        host: " localhost ".to_owned(),
        path: " /var/log/run.jsonl ".to_owned(),
        predicate: FileJsonlTailPredicate {
            json_path: " $.job.state ".to_owned(),
            equals: Json::Text("done".to_owned()),
        },
        min_lines: 3,
        poll_interval_ms: 1000,
    }
}

fn key() -> Key {
    Key { code: KeyCode::Symbol { value: 'a' }, use_scancode: false }
}

type Filter = EventFilter<&'static str, u8>;
type When = ReflexWhenParam<&'static str, u8>;

fn press(hold_ms: u32, backend: Backend) -> ReflexAction<u8> {
    ReflexAction::KeyPress { key: key(), hold_ms, backend }
}

fn made(action: ReflexAction<u8>) -> ReflexThenStep<u8> {
    ReflexThenStep {
        action: " act_press ".to_owned(),
        made: Ok(MadeAction { action, text: "Routed".to_owned() }),
    }
}

#[test]
fn tails_become_filters() {
    let filter: Filter = tail().into_event_filter(None, false).expect("filter");
    let field = |path: &str, predicate| Filter::Data { path: path.to_owned(), predicate };
    assert_eq!(
        filter,
        EventFilter::And {
            args: vec![
                EventFilter::Source { source: EventSource::Filesystem },
                EventFilter::Kind { kind: "file_jsonl_tail".to_owned() },
                field("/host", DataPredicate::Eq { value: Json::Text("localhost".to_owned()) }),
                field(
                    "/path",
                    DataPredicate::Eq { value: Json::Text("/var/log/run.jsonl".to_owned()) }
                ),
                field(
                    "/line_count",
                    DataPredicate::Ge { value: Json::Number(JsonNumber::Unsigned(3)) }
                ),
                field(
                    "/last_json/job/state",
                    DataPredicate::Eq { value: Json::Text("done".to_owned()) }
                ),
            ],
        }
    );
}

#[test]
fn tails_are_validated() {
    let validated = tail().validate(None, false).expect("valid");
    assert!(validated.local_host);
    assert_eq!(validated.json_path, "$.job.state");
    assert_eq!(validated.json_pointer, "/job/state");
    let refused = |change: &dyn Fn(&mut FileJsonlTailWhen)| {
        let mut when = tail();
        change(&mut when);
        detail(when.validate(None, false))
    };
    assert_eq!(
        refused(&|when| when.min_lines = 0),
        "file_jsonl_tail min_lines must be at least 1"
    );
    let bounds = "file_jsonl_tail poll_interval_ms must be between 50 and 600000";
    assert_eq!(refused(&|when| when.poll_interval_ms = 49), bounds);
    assert_eq!(refused(&|when| when.poll_interval_ms = 600_001), bounds);
    assert_eq!(
        refused(&|when| when.host = "  ".to_owned()),
        "file_jsonl_tail host must not be empty"
    );
    assert_eq!(
        refused(&|when| when.predicate.json_path = "job".to_owned()),
        "file_jsonl_tail predicate.json_path must be '$' or a simple '$.field[.field]' path"
    );
    assert_eq!(
        refused(&|when| when.path = "run.jsonl".to_owned()),
        "file_jsonl_tail local path must be absolute"
    );
    assert_eq!(default_file_jsonl_tail_poll_interval_ms(), 1000);
}

#[test]
fn hosts_are_plain_names() {
    assert_eq!(validate_file_jsonl_tail_host(" build-1.lan_x "), Ok("build-1.lan_x".to_owned()));
    let unsupported = "file_jsonl_tail host contains unsupported characters";
    for host in ["a b", "a;b", "a\u{1}b", "a\\b", "a/b", "$(x)", "`x`"] {
        assert_eq!(detail(validate_file_jsonl_tail_host(host)), unsupported, "{host:?}");
    }
    let letters = "file_jsonl_tail host must contain only letters, digits, '.', '_' or '-'";
    assert_eq!(detail(validate_file_jsonl_tail_host("höst")), letters);
    assert_eq!(detail(validate_file_jsonl_tail_host("a:b")), letters);
}

#[test]
fn local_hosts_are_recognised() {
    assert!(is_local_file_jsonl_tail_host("LocalHost", None));
    assert!(is_local_file_jsonl_tail_host("127.0.0.1", None));
    assert!(is_local_file_jsonl_tail_host("desk", Some("DESK")));
    assert!(!is_local_file_jsonl_tail_host("desk", Some("table")));
    assert!(!is_local_file_jsonl_tail_host("desk", None));
    assert_eq!(machine_name(Some("a"), Some("b")), Some("a"));
    assert_eq!(machine_name(None, Some("b")), Some("b"));
    assert_eq!(machine_name(None, None), None);
}

#[test]
fn paths_are_absolute() {
    assert_eq!(validate_file_jsonl_tail_path(" /a ", true, false), Ok("/a".to_owned()));
    assert_eq!(validate_file_jsonl_tail_path(r"C:\a", true, false), Ok(r"C:\a".to_owned()));
    assert_eq!(validate_file_jsonl_tail_path("odd", true, true), Ok("odd".to_owned()));
    assert_eq!(
        detail(validate_file_jsonl_tail_path(r"C:\a", false, true)),
        "file_jsonl_tail remote path must be POSIX absolute"
    );
    assert_eq!(
        detail(validate_file_jsonl_tail_path("/a\u{7f}", true, true)),
        "file_jsonl_tail path contains unsupported control characters"
    );
    assert_eq!(
        detail(validate_file_jsonl_tail_path(" ", true, true)),
        "file_jsonl_tail path must not be empty"
    );
    assert!(is_windows_absolute_path("z:/x"));
    assert!(is_windows_absolute_path(r"\\server\share"));
    assert!(!is_windows_absolute_path("z:x"));
    assert!(!is_windows_absolute_path("z:"));
    assert!(!is_windows_absolute_path("é:/x"));
}

#[test]
fn json_paths_become_pointers() {
    assert_eq!(json_path_to_pointer("$"), Ok(String::new()));
    assert_eq!(json_path_to_pointer("$.a"), Ok("/a".to_owned()));
    assert_eq!(json_path_to_pointer("$.a-1.b_2"), Ok("/a-1/b_2".to_owned()));
    assert_eq!(
        detail(json_path_to_pointer("$.")),
        "file_jsonl_tail predicate.json_path must not end at '$.'"
    );
    assert_eq!(
        detail(json_path_to_pointer("$.a..b")),
        "file_jsonl_tail predicate.json_path has an empty segment"
    );
    assert_eq!(
        detail(json_path_to_pointer("$.a.b[0]")),
        "file_jsonl_tail predicate.json_path supports only simple object fields"
    );
}

#[test]
fn window_events_become_filters() {
    let when = |kind: &str, pattern: Option<&str>| WindowEventWhen {
        kind: kind.to_owned(),
        match_clause: WindowEventMatch { window_title_regex: pattern.map(str::to_owned) },
    };
    assert_eq!(
        when(" Foreground_Changed ", None).into_event_filter(),
        Ok(Filter::Kind { kind: "foreground-changed".to_owned() })
    );
    assert_eq!(
        when("name", Some("^In(box|voice)$")).into_event_filter(),
        Ok(Filter::And {
            args: vec![
                EventFilter::Kind { kind: "name".to_owned() },
                EventFilter::Data {
                    path: "/window_title".to_owned(),
                    predicate: DataPredicate::Regex { pattern: "^In(box|voice)$".to_owned() },
                },
            ],
        })
    );
    assert_eq!(
        detail(when(" ", None).into_event_filter::<&str, u8>()),
        "window event kind must not be empty"
    );
    let refused = detail(when("name", Some("a(b")).into_event_filter::<&str, u8>());
    assert!(refused.starts_with("window_title_regex is invalid: "), "{refused}");
    assert!(refused.contains("unclosed group"), "{refused}");
    assert_eq!(
        when("name", Some("a(b")).checked_event_filter::<&str, u8>(Err("broken".to_owned())),
        Err(ReflexError::ParamsInvalid {
            detail: "window_title_regex is invalid: broken".to_owned(),
        })
    );
    assert_eq!(normalize_window_event_kind("A_B"), Ok("a-b".to_owned()));
}

#[test]
fn patterns_are_compiled() {
    assert_eq!(validate_regex("a+"), Ok(()));
    assert_eq!(detail(validate_regex(" ")), "window_title_regex must not be empty");
    assert!(detail(validate_regex("+")).starts_with("window_title_regex is invalid: "));
    assert_eq!(check_regex("x", Ok(())), Ok(()));
    assert_eq!(
        detail(check_regex("x", Err("no".to_owned()))),
        "window_title_regex is invalid: no"
    );
    assert_eq!(
        detail(check_regex("", Ok(()))),
        "window_title_regex must not be empty"
    );
}

#[test]
fn waiting_conditions_know_what_they_need() {
    let window = When::WindowEvent(WindowEventWhen {
        kind: "x".to_owned(),
        match_clause: WindowEventMatch { window_title_regex: None },
    });
    assert!(window.requires_a11y_event_bridge());
    assert!(window.file_jsonl_tail().is_none());
    assert_eq!(
        window.into_event_filter(None, false),
        Ok(EventFilter::Kind { kind: "x".to_owned() })
    );
    let filter = When::Filter(EventFilter::Source { source: EventSource::A11yUia });
    assert!(filter.requires_a11y_event_bridge());
    assert_eq!(
        filter.into_event_filter(None, false),
        Ok(EventFilter::Source { source: EventSource::A11yUia })
    );
    let given = || EventFilter::And {
        args: vec![
            EventFilter::OtherSource { source: "audio" },
            EventFilter::Data {
                path: "/level".to_owned(),
                predicate: DataPredicate::Other { predicate: 9 },
            },
        ],
    };
    let filter = When::Filter(given());
    assert!(!filter.requires_a11y_event_bridge());
    assert_eq!(filter.into_event_filter(None, false), Ok(given()));
    let waiting = When::FileJsonlTail(tail());
    assert!(!waiting.requires_a11y_event_bridge());
    assert_eq!(waiting.file_jsonl_tail().map(|when| when.min_lines), Some(3));
    assert!(matches!(
        waiting.into_event_filter(None, false),
        Ok(EventFilter::And { args }) if args.len() == 6
    ));
}

#[test]
fn fallback_backends_replace_auto_only() {
    assert_eq!(
        apply_backend_default(press(1, Backend::Auto), Backend::Hardware),
        press(1, Backend::Hardware)
    );
    assert_eq!(
        apply_backend_default(press(1, Backend::Software), Backend::Hardware),
        press(1, Backend::Software)
    );
    assert_eq!(
        apply_backend_default(press(1, Backend::Auto), Backend::Auto),
        press(1, Backend::Auto)
    );
    assert_eq!(
        apply_backend_default(ReflexAction::Fixed { action: 7u8 }, Backend::Hardware),
        ReflexAction::Fixed { action: 7 }
    );
    assert_eq!(default_backend(), Backend::Auto);
}

#[test]
fn reactions_become_actions() {
    assert_eq!(
        actions_from_then(
            ReflexThenParam::Core(ReflexThen::Action { action: press(5, Backend::Auto) }),
            Backend::Software
        ),
        Ok(vec![press(5, Backend::Software)])
    );
    assert_eq!(
        actions_from_then(
            ReflexThenParam::Core(ReflexThen::Actions {
                actions: vec![press(1, Backend::Auto), press(2, Backend::Vigem)],
            }),
            Backend::Auto
        ),
        Ok(vec![press(1, Backend::Auto), press(2, Backend::Vigem)])
    );
    let audit = |action: &str| {
        actions_from_then::<u8>(
            ReflexThenParam::AuditAction(ReflexThenAuditActionParam { action: action.to_owned() }),
            Backend::Auto,
        )
    };
    assert_eq!(audit("audit/readback"), Ok(Vec::new()));
    assert_eq!(
        detail(audit("a\"b")),
        "then.action \"a\\\"b\" is unsupported; supported actions: audit/readback"
    );
    assert_eq!(
        actions_from_then(
            ReflexThenParam::Steps { steps: vec![made(press(3, Backend::Auto))] },
            Backend::Hardware
        ),
        Ok(vec![press(3, Backend::Hardware)])
    );
    assert_eq!(
        detail(actions_from_then::<u8>(
            ReflexThenParam::Steps { steps: Vec::new() },
            Backend::Auto
        )),
        "then.steps must contain at least one action"
    );
    assert_eq!(
        detail(actions_from_then::<u8>(
            ReflexThenParam::Steps {
                steps: vec![
                    made(press(3, Backend::Auto)),
                    ReflexThenStep { action: "act_type".to_owned(), made: Err("bad".to_owned()) },
                ],
            },
            Backend::Auto
        )),
        "then.steps[1].act_type params invalid: bad"
    );
    assert_eq!(
        detail(actions_from_then::<u8>(
            ReflexThenParam::Steps {
                steps: vec![ReflexThenStep {
                    action: " act_fly\t".to_owned(),
                    made: Err(String::new()),
                }],
            },
            Backend::Auto
        )),
        "then.steps[0].action \"act_fly\" is unsupported; supported actions: act_type, act_press"
    );
}

#[test]
fn buttons_go_down() {
    assert_eq!(
        button_down_action::<u8>(
            ReflexButtonTarget::Mouse { button: MouseButton::Left },
            Backend::Hardware
        ),
        ReflexAction::MouseButton {
            button: MouseButton::Left,
            action: ButtonAction::Down,
            hold_ms: 0,
            backend: Backend::Hardware,
        }
    );
    assert_eq!(
        button_down_action(ReflexButtonTarget::Pad { target: 9u8 }, Backend::Hardware),
        ReflexAction::PadButton { target: 9, action: ButtonAction::Down, hold_ms: 0 }
    );
}

#[test]
fn combos_are_made_of_timed_inputs() {
    let step = |at_ms, hold_ms| ComboStep {
        at_ms,
        input: ComboInput::KeyPress { key: key(), hold_ms },
    };
    let timed = |at_ms, action| {
        ReflexComboStepParam::Tool(ReflexTimedThenStep { at_ms, step: made(action) })
    };
    assert_eq!(
        combo_steps_from_params(
            Some(vec![
                ReflexComboStepParam::Core(step(0, 1)),
                timed(20, press(65_535, Backend::Auto)),
            ]),
            None
        ),
        Ok(vec![step(0, 1), step(20, 65_535)])
    );
    assert_eq!(
        detail(combo_steps_from_params(Some(vec![timed(0, press(65_536, Backend::Auto))]), None)),
        "combo steps[0] hold_ms exceeds u16::MAX"
    );
    assert_eq!(
        detail(combo_steps_from_params(
            Some(vec![timed(0, ReflexAction::Routed { action: 1u8, backend: Backend::Auto })]),
            None
        )),
        "combo steps[0] action Routed cannot be used as one timed combo input"
    );
    let empty = "combo steps must contain at least one step";
    assert_eq!(detail(combo_steps_from_params::<u8>(Some(Vec::new()), None)), empty);
    let combo = |steps| {
        Some(ReflexThenParam::Core(ReflexThen::Combo { steps, backend: Backend::Auto }))
    };
    assert_eq!(detail(combo_steps_from_params::<u8>(None, combo(Vec::new()))), empty);
    assert_eq!(combo_steps_from_params(None, combo(vec![step(4, 5)])), Ok(vec![step(4, 5)]));
    assert_eq!(
        combo_steps_from_params(
            None,
            Some(ReflexThenParam::Steps { steps: vec![made(press(6, Backend::Auto))] })
        ),
        Ok(vec![step(0, 6)])
    );
    assert_eq!(
        detail(combo_steps_from_params::<u8>(
            None,
            Some(ReflexThenParam::AuditAction(ReflexThenAuditActionParam {
                action: "audit/readback".to_owned(),
            }))
        )),
        "combo reflex cannot use then.action=audit/readback"
    );
    assert_eq!(
        detail(combo_steps_from_params::<u8>(None, None)),
        "combo reflex requires steps or then.kind=combo"
    );
}

#[test]
fn reactions_are_required() {
    assert_eq!(required_then(Some(4u8), "on_event"), Ok(4));
    assert_eq!(
        detail(required_then::<u8>(None, "on_event")),
        "on_event reflex requires then"
    );
    assert_eq!(empty_params(), Json::Object(Vec::new()));
}
