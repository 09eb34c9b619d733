use synapse_mcp::error::ToolError;
use synapse_mcp::geometry::Point;
use synapse_mcp::ieee::Real64;
use synapse_mcp::json::Json;
use synapse_mcp::m2::action::{
    backend_used_name, cap_ms, key_label, print_point, ActError, ActionError, Backend, Key, KeyCode,
};
use synapse_mcp::m2::clipboard::{
    act_clipboard, default_clipboard_format, plan_clipboard, validate_params, ActClipboardFormat,
    ActClipboardParams, ActClipboardVerb, ClipboardDeltaError, ClipboardError, ClipboardReading,
};
use synapse_mcp::m2::press::{
    act_press_with_handle, default_hold_ms, default_press_backend, event_sequence, plan_press,
    validate_hold_ms, ActPressParams, PressAction, PressBackend, PressEvent,
};
use synapse_mcp::m2::scroll::{
    act_scroll_with_handle, best_child_hwnd_for_screen_point, plan_scroll, post_failed,
    post_wheel_message, rect_area, rect_contains_point, scheduled_smooth_total_ms, screen_lparam,
    scroll_actions, smooth_step_count, take_tick, targeted_scroll_unavailable, waits_after,
    wheel_delta_chunks, wheel_wparam, window_rect_error, windows_hwnd_message_scroll_readback,
    ActScrollParams, ActScrollPoint, PointFacts, RootFacts, ScrollEvent, ScrollPlan, ScrollTarget,
    WheelMessage, WindowFacts, WindowRect, OUT_OF_RANGE, WM_MOUSEHWHEEL, WM_MOUSEWHEEL,
};
use synapse_mcp::m2::stroke::{
    act_stroke_with_handle, action_of_step, recording_steps, validate_and_plan, ActStrokeParams,
    MouseButton, PathShape, PrintedReal, StrokeAction, StrokeBackend, StrokeEvent, StrokeModifier,
    StrokePath, StrokePlan, StrokeRun, StrokeStep, StrokeTiming,
};

fn tool_error(code: &str) -> ToolError {
    ToolError { code: code.to_owned(), message: "said".to_owned() }
}

fn key(name: &str) -> Key {
    Key { code: KeyCode::Named { value: name.to_owned() }, use_scancode: false }
}

// ---------------------------------------------------------------------------------------------
// Clipboard
// ---------------------------------------------------------------------------------------------

fn clipboard(verb: ActClipboardVerb, text: Option<&str>, verify_delta: bool) -> ActClipboardParams {
    ActClipboardParams {
        verb,
        text: text.map(str::to_owned),
        format: ActClipboardFormat::Text,
        verify_delta,
        verify_timeout_ms: 1000,
    }
}

#[test]
fn text_format_non_ascii_reaches_backend_validation() {
    let params = clipboard(ActClipboardVerb::Write, Some("unicode-clipboard-edge-雪"), false);
    assert!(validate_params(&params).is_ok());
}

#[test]
fn clipboard_texts_belong_to_writes() {
    let missing = validate_params(&clipboard(ActClipboardVerb::Write, None, false))
        .expect_err("no text");
    assert_eq!(missing.code, "TOOL_PARAMS_INVALID");
    assert_eq!(missing.message, "act_clipboard verb=write requires text");
    for verb in [ActClipboardVerb::Read, ActClipboardVerb::Clear] {
        let extra = validate_params(&clipboard(verb, Some("x"), false)).expect_err("extra");
        assert_eq!(extra.message, "act_clipboard text is only valid with verb=write");
    }
    assert_eq!(default_clipboard_format(), ActClipboardFormat::Unicode);
    let plan = plan_clipboard(&clipboard(ActClipboardVerb::Read, None, true)).expect("plan");
    assert!(!plan.verify);
    let plan = plan_clipboard(&clipboard(ActClipboardVerb::Clear, None, true)).expect("plan");
    assert!(plan.verify);
}

fn reading(text: &str) -> Result<ClipboardReading, ToolError> {
    Ok(ClipboardReading { text: text.to_owned(), signature: format!("sig:{}", text.len()) })
}

#[test]
fn clipboard_calls_report_what_they_did() {
    let unused = || Err(tool_error("UNUSED"));
    let read = act_clipboard(
        &clipboard(ActClipboardVerb::Read, None, true),
        unused(),
        Ok("héllo".to_owned()),
        unused(),
        7,
    )
    .expect("read");
    assert_eq!(read.text.as_deref(), Some("héllo"));
    assert_eq!(read.text_len, Some(5));
    assert!(!read.written && !read.cleared && read.ok);
    assert_eq!(read.elapsed_ms, 7);
    assert_eq!(read.postcondition.tool, "act_clipboard");
    assert_eq!(read.postcondition.source_of_truth, "clipboard_text");
    assert!(read.postcondition.delta.is_none());

    let written = act_clipboard(
        &clipboard(ActClipboardVerb::Write, Some("abc"), false),
        unused(),
        Ok(String::new()),
        unused(),
        u128::MAX,
    )
    .expect("written");
    assert!(written.written && !written.cleared);
    assert_eq!(written.text, None);
    assert_eq!(written.text_len, Some(3));
    assert_eq!(written.elapsed_ms, u32::MAX);

    let cleared = act_clipboard(
        &clipboard(ActClipboardVerb::Clear, None, false),
        unused(),
        Ok(String::new()),
        unused(),
        0,
    )
    .expect("cleared");
    assert!(cleared.cleared && !cleared.written);
    assert_eq!(cleared.text_len, None);
}

#[test]
fn verified_writes_must_leave_the_text() {
    let params = clipboard(ActClipboardVerb::Write, Some("new"), true);
    let done = || Ok(String::new());
    let text = reading;
    let seen = act_clipboard(&params, text("older"), done(), text("new"), 1).expect("seen");
    let delta = seen.postcondition.delta.expect("delta");
    assert_eq!(delta.before, "sig:5");
    assert_eq!(delta.after, "sig:3");
    assert_eq!(delta.detail, "observed clipboard text Source-of-Truth change");

    match act_clipboard(&params, text("new"), done(), text("new"), 1) {
        Err(ClipboardError::Delta(ClipboardDeltaError::NoObservedDelta {
            timeout_ms,
            before,
            after,
            details,
        })) => {
            assert_eq!(timeout_ms, 1000);
            assert_eq!(before, "sig:3");
            assert_eq!(after, "sig:3");
            match details {
                Json::Object(entries) => {
                    let keys: Vec<&str> =
                        entries.iter().map(|entry| entry.key.as_str()).collect();
                    assert_eq!(keys, ["after_len", "before_len", "format", "verb"]);
                    assert_eq!(entries[3].value, Json::Text("write".to_owned()));
                }
                other => panic!("object expected: {other:?}"),
            }
        }
        other => panic!("no delta expected: {other:?}"),
    }
    match act_clipboard(&params, text("old"), done(), text("other"), 1) {
        Err(ClipboardError::Delta(ClipboardDeltaError::PostconditionFailed {
            reason,
            before,
            after,
            ..
        })) => {
            assert_eq!(before, "sig:3");
            assert_eq!(after, "sig:5");
            assert_eq!(reason, "clipboard text changed but did not equal requested write text");
        }
        other => panic!("failure expected: {other:?}"),
    }
    let clear = clipboard(ActClipboardVerb::Clear, None, true);
    match act_clipboard(&clear, text("old"), done(), text("left"), 1) {
        Err(ClipboardError::Delta(ClipboardDeltaError::PostconditionFailed { reason, .. })) => {
            assert_eq!(reason, "clipboard text changed but was not empty after clear");
        }
        other => panic!("failure expected: {other:?}"),
    }
    assert!(act_clipboard(&clear, text("old"), done(), text(""), 1).is_ok());
}

#[test]
fn clipboard_failures_come_in_order() {
    let params = clipboard(ActClipboardVerb::Write, Some("new"), true);
    let fails = |code: &str| Err(tool_error(code));
    let text = || reading("old");
    let fails_to_read = |code: &str| Err(tool_error(code));
    assert_eq!(
        act_clipboard(&params, fails_to_read("A"), fails("B"), fails_to_read("C"), 1),
        Err(ClipboardError::Tool(tool_error("A")))
    );
    assert_eq!(
        act_clipboard(&params, text(), fails("B"), fails_to_read("C"), 1),
        Err(ClipboardError::Tool(tool_error("B")))
    );
    assert_eq!(
        act_clipboard(&params, text(), Ok(String::new()), fails_to_read("C"), 1),
        Err(ClipboardError::Tool(tool_error("C")))
    );
}

// ---------------------------------------------------------------------------------------------
// Press
// ---------------------------------------------------------------------------------------------

fn press(hold_ms: u32) -> ActPressParams {
    ActPressParams { keys: vec!["a".to_owned()], hold_ms, backend: PressBackend::Auto }
}

#[test]
fn hold_times_run_from_one_millisecond_to_thirty_seconds() {
    assert_eq!(validate_hold_ms(1), Ok(()));
    assert_eq!(validate_hold_ms(30_000), Ok(()));
    match validate_hold_ms(0) {
        Err(ActError::Tool(error)) => {
            assert_eq!(error.message, "act_press hold_ms must be at least 1");
        }
        other => panic!("refusal expected: {other:?}"),
    }
    assert_eq!(
        validate_hold_ms(30_001),
        Err(ActError::Action(ActionError::HoldExceededMax {
            detail: "act_press hold_ms 30001 exceeds max 30000".to_owned()
        }))
    );
    assert_eq!(default_hold_ms(), 33);
    assert_eq!(default_press_backend(), PressBackend::Auto);
}

#[test]
fn one_key_is_pressed_and_several_are_pressed_together() {
    let one = plan_press(&press(33), Ok(vec![key("a")])).expect("one");
    assert_eq!(one.key_count, 1);
    assert_eq!(
        one.action,
        PressAction::KeyPress { key: key("a"), hold_ms: 33, backend: Backend::Auto }
    );
    let two = plan_press(&press(5), Ok(vec![key("ctrl"), key("c")])).expect("two");
    assert_eq!(
        two.action,
        PressAction::KeyChord {
            keys: vec![key("ctrl"), key("c")],
            hold_ms: 5,
            backend: Backend::Auto
        }
    );
    assert!(matches!(
        plan_press(&press(5), Err(tool_error("KEYS"))),
        Err(ActError::Tool(error)) if error == tool_error("KEYS")
    ));
    let response = act_press_with_handle(&two, Ok(()), 12).expect("pressed");
    assert_eq!(response.keys_pressed, 2);
    assert_eq!(response.backend_used, "software");
    assert_eq!(response.elapsed_ms, 12);
    assert_eq!(
        act_press_with_handle(&two, Err(tool_error("LIVE")), 12),
        Err(tool_error("LIVE"))
    );
    assert_eq!(backend_used_name(Backend::Hardware), "hardware");
    assert_eq!(backend_used_name(Backend::Vigem), "vigem");
    assert_eq!(cap_ms(u128::from(u32::MAX) + 1), u32::MAX);
}

#[test]
fn recorded_presses_print_one_after_another() {
    let symbol = Key { code: KeyCode::Symbol { value: 'é' }, use_scancode: false };
    let hid = Key { code: KeyCode::HidCode { value: 40 }, use_scancode: true };
    assert_eq!(key_label(&symbol), "é");
    let events = vec![
        PressEvent::KeyDown { key: key("ctrl") },
        PressEvent::DelayMs { ms: 33 },
        PressEvent::KeyUp { key: hid },
        PressEvent::Other { text: "ReleaseAll".to_owned() },
    ];
    assert_eq!(event_sequence(&events), "down:ctrl>delay:33>up:hid:40>ReleaseAll");
    assert_eq!(event_sequence(&Vec::new()), "");
}

// ---------------------------------------------------------------------------------------------
// Scroll
// ---------------------------------------------------------------------------------------------

fn scroll(dy: i32, dx: i32, smooth: bool, at: Option<(i32, i32)>) -> ActScrollParams {
    ActScrollParams {
        dy,
        dx,
        at: at.map(|(x, y)| ActScrollPoint { x, y }),
        smooth,
        verify_delta: false,
        verify_timeout_ms: 1000,
    }
}

#[test]
fn targeted_wheel_chunks_fit_signed_message_delta() {
    let before_ticks = 2400;
    let after = wheel_delta_chunks(before_ticks)
        .unwrap_or_else(|error| panic!("targeted scroll chunking should fit: {error:?}"));
    assert_eq!(
        after.iter().map(|delta| i32::from(*delta)).sum::<i32>(),
        before_ticks * 120
    );
    assert!(after.iter().all(|delta| delta.unsigned_abs() <= 32_760));
}

#[test]
fn targeted_wheel_chunks_preserve_negative_direction() {
    let before_ticks = -20;
    let after = wheel_delta_chunks(before_ticks)
        .unwrap_or_else(|error| panic!("negative targeted scroll should fit: {error:?}"));
    assert_eq!(after, [-2400]);
}

#[test]
fn targeted_wheel_chunks_end_at_a_thousand_and_twenty_four() {
    assert_eq!(wheel_delta_chunks(0), Ok(Vec::new()));
    assert_eq!(wheel_delta_chunks(273), Ok(vec![32_760]));
    assert_eq!(wheel_delta_chunks(274), Ok(vec![32_760, 120]));
    assert_eq!(wheel_delta_chunks(-279_552).expect("most").len(), 1024);
    assert_eq!(
        wheel_delta_chunks(279_553),
        Err(ActionError::TargetInvalid {
            detail: "act_scroll targeted wheel message count exceeds 1024 for ticks=279553"
                .to_owned()
        })
    );
    assert!(wheel_delta_chunks(i32::MIN).is_err());
}

#[test]
fn smooth_scrolls_take_one_tick_at_a_time() {
    let actions = scroll_actions(&scroll(-3, 1, true, Some((5, 6))));
    let parts: Vec<(i32, i32, Option<Point>)> =
        actions.iter().map(|action| (action.dy, action.dx, action.at)).collect();
    assert_eq!(
        parts,
        [(-1, 1, Some(Point { x: 5, y: 6 })), (-1, 0, None), (-1, 0, None)]
    );
    let whole = scroll_actions(&scroll(-3, 1, false, None));
    assert_eq!(whole.len(), 1);
    assert_eq!((whole[0].dy, whole[0].dx, whole[0].at), (-3, 1, None));
    assert_eq!(smooth_step_count(i32::MIN, 4), 2_147_483_648);
    let mut ticks = -1;
    assert_eq!(take_tick(&mut ticks), -1);
    assert_eq!(take_tick(&mut ticks), 0);
    assert_eq!(ticks, 0);
    assert!(waits_after(true, 3, 1));
    assert!(!waits_after(true, 3, 2));
    assert!(!waits_after(false, 3, 0));
    assert_eq!(scheduled_smooth_total_ms(true, 5), 120);
    assert_eq!(scheduled_smooth_total_ms(true, 0), 0);
    assert_eq!(scheduled_smooth_total_ms(false, 5), 0);
    assert_eq!(scheduled_smooth_total_ms(true, u32::MAX), u32::MAX);
}

#[test]
fn scroll_plans_follow_the_call() {
    assert!(matches!(plan_scroll(&scroll(0, 0, true, None), true), Ok(ScrollPlan::Nothing)));
    assert!(matches!(
        plan_scroll(&scroll(1, 0, false, Some((1, 2))), true),
        Ok(ScrollPlan::Record { .. })
    ));
    assert!(matches!(
        plan_scroll(&scroll(1, 0, false, Some((1, 2))), false),
        Ok(ScrollPlan::Targeted { point: Point { x: 1, y: 2 } })
    ));
    assert!(matches!(
        plan_scroll(&scroll(1, 0, false, None), false),
        Ok(ScrollPlan::Live { .. })
    ));
    let error = plan_scroll(&scroll(0, -121, true, None), false).expect_err("too smooth");
    assert_eq!(error.message, "act_scroll smooth=true step count 121 exceeds max 120");
    assert!(plan_scroll(&scroll(0, -121, false, None), false).is_ok());
}

#[test]
fn scroll_answers_count_what_was_sent() {
    let none = act_scroll_with_handle(&scroll(0, 0, true, None), false, Err(tool_error("X")), 3)
        .expect("nothing to do");
    assert!(!none.scrolled);
    assert_eq!(none.backend_used, "none");
    assert_eq!(none.wheel_event_count, 0);
    assert_eq!(none.smooth_interval_ms, 30);
    let smooth = act_scroll_with_handle(&scroll(4, 2, true, None), false, Ok(0), 3).expect("live");
    assert!(smooth.scrolled);
    assert_eq!(smooth.wheel_event_count, 4);
    assert_eq!(smooth.scheduled_smooth_total_ms, 90);
    assert_eq!(smooth.backend_used, "software");
    assert_eq!(
        smooth.postcondition.source_of_truth,
        "target_point_pixels_or_foreground_ui"
    );
    let sent = act_scroll_with_handle(&scroll(4, 2, false, Some((1, 1))), false, Ok(9), 3)
        .expect("sent");
    assert_eq!(sent.wheel_event_count, 9);
    assert_eq!(sent.smooth_interval_ms, 0);
    assert_eq!(sent.backend_used, "software_window_message");
    let recorded = act_scroll_with_handle(&scroll(4, 2, false, Some((1, 1))), true, Ok(9), 3)
        .expect("recorded");
    assert_eq!(recorded.wheel_event_count, 1);
    assert_eq!(
        act_scroll_with_handle(&scroll(4, 2, false, None), false, Err(tool_error("X")), 3),
        Err(tool_error("X"))
    );
}

#[test]
fn wheel_messages_pack_ticks_and_points() {
    assert_eq!(wheel_wparam(120), 120 << 16);
    assert_eq!(wheel_wparam(-120), 65_416 << 16);
    assert_eq!(screen_lparam(Point { x: 3, y: 4 }), Ok((4 << 16) | 3));
    assert_eq!(screen_lparam(Point { x: -1, y: 0 }), Ok(0xffff));
    assert_eq!(OUT_OF_RANGE, i16::try_from(40_000i32).expect_err("range").to_string());
    assert_eq!(
        screen_lparam(Point { x: 40_000, y: 0 }),
        Err(ActionError::TargetInvalid {
            detail: format!(
                "act_scroll screen x 40000 cannot fit a WM_MOUSE*WHEEL lParam i16: {OUT_OF_RANGE}"
            )
        })
    );
    assert_eq!(
        screen_lparam(Point { x: 0, y: -32_769 }),
        Err(ActionError::TargetInvalid {
            detail: format!(
                "act_scroll screen y -32769 cannot fit a WM_MOUSE*WHEEL lParam i16: {OUT_OF_RANGE}"
            )
        })
    );
    let messages = post_wheel_message(0x55, WM_MOUSEWHEEL, -274, Point { x: 1, y: 2 })
        .expect("messages");
    assert_eq!(messages.len(), 2);
    assert_eq!(messages[0].delta, -32_760);
    assert_eq!(messages[1].delta, -120);
    assert_eq!(messages[1].wparam, 65_416 << 16);
    assert_eq!(messages[1].lparam, (2 << 16) | 1);
    assert_eq!(
        post_wheel_message(0, WM_MOUSEHWHEEL, 1, Point { x: 1, y: 2 }),
        Err(ActionError::TargetInvalid { detail: "act_scroll target hwnd is null".to_owned() })
    );
    assert_eq!(post_wheel_message(0, WM_MOUSEHWHEEL, 0, Point { x: 1, y: 2 }), Ok(Vec::new()));
    let message =
        WheelMessage { hwnd: 0x55, message: WM_MOUSEWHEEL, delta: -120, wparam: 0, lparam: 0 };
    assert_eq!(
        post_failed(&message, Point { x: 1, y: 2 }, "denied"),
        ActionError::BackendUnavailable {
            detail: "PostMessageW act_scroll wheel message 0x20a failed for hwnd 0x55 screen_point=Point { x: 1, y: 2 } delta=-120: denied".to_owned()
        }
    );
    assert_eq!(print_point(Point { x: 1, y: 2 }), format!("{:?}", Point { x: 1, y: 2 }));
}

fn window(hwnd: i64, visible: bool, rect: Option<(i32, i32, i32, i32)>) -> WindowFacts {
    WindowFacts {
        hwnd,
        visible,
        rect: rect.map(|(left, top, right, bottom)| WindowRect { left, top, right, bottom }),
        class_name: format!("class-{hwnd}"),
    }
}

fn facts(seed: Option<WindowFacts>, children: Vec<WindowFacts>) -> PointFacts {
    PointFacts {
        seed,
        root: RootFacts {
            hwnd: 100,
            live: true,
            rect: Ok(WindowRect { left: 0, top: 0, right: 100, bottom: 100 }),
            class_name: "root".to_owned(),
        },
        children,
    }
}

#[test]
fn the_smallest_window_at_the_point_takes_the_messages() {
    let point = Point { x: 10, y: 10 };
    let hidden = || Some(window(1, false, Some((0, 0, 50, 50))));
    let seed = windows_hwnd_message_scroll_readback(
        point,
        facts(Some(window(1, true, Some((0, 0, 50, 50)))), Vec::new()),
    );
    assert_eq!(seed, Ok(ScrollTarget { hwnd: 1, class_name: "class-1".to_owned() }));
    let children = vec![
        window(2, true, Some((0, 0, 40, 40))),
        window(3, true, Some((5, 5, 25, 25))),
        window(4, true, Some((0, 0, 20, 20))),
        window(5, false, Some((9, 9, 11, 11))),
        window(6, true, Some((11, 11, 12, 12))),
        window(7, true, None),
    ];
    let child = windows_hwnd_message_scroll_readback(point, facts(hidden(), children));
    assert_eq!(child, Ok(ScrollTarget { hwnd: 3, class_name: "class-3".to_owned() }));
    let root = windows_hwnd_message_scroll_readback(point, facts(hidden(), Vec::new()));
    assert_eq!(root, Ok(ScrollTarget { hwnd: 100, class_name: "root".to_owned() }));
    assert_eq!(best_child_hwnd_for_screen_point(&Vec::new(), point), None);
    let rect = WindowRect { left: 0, top: 0, right: 10, bottom: 10 };
    assert!(!rect_contains_point(&rect, point));
    assert!(rect_contains_point(&rect, Point { x: 9, y: 0 }));
    assert_eq!(rect_area(&rect), 100);
    assert_eq!(rect_area(&WindowRect { left: 5, top: 0, right: 0, bottom: 10 }), 0);
    assert_eq!(
        rect_area(&WindowRect { left: i32::MIN, top: i32::MIN, right: i32::MAX, bottom: i32::MAX }),
        4_611_686_014_132_420_609
    );
}

#[test]
fn points_without_a_window_are_refused() {
    let point = Point { x: 10, y: 10 };
    let detail = |facts: PointFacts, point: Point| {
        match windows_hwnd_message_scroll_readback(point, facts) {
            Err(ActionError::TargetInvalid { detail }) => detail,
            other => panic!("refusal expected: {other:?}"),
        }
    };
    assert_eq!(
        detail(facts(None, Vec::new()), point),
        "act_scroll at point Point { x: 10, y: 10 } is not over a live window"
    );
    let mut dead = facts(Some(window(1, true, None)), Vec::new());
    dead.root.live = false;
    assert_eq!(
        detail(dead, point),
        "act_scroll root hwnd 0x64 for point Point { x: 10, y: 10 } is not a live window"
    );
    assert_eq!(
        detail(facts(Some(window(1, true, None)), Vec::new()), Point { x: 100, y: 0 }),
        "act_scroll point Point { x: 100, y: 0 } is outside root hwnd 0x64 rect (0, 0, 100, 100)"
    );
    let mut unread = facts(Some(window(1, true, None)), Vec::new());
    unread.root.rect = Err(window_rect_error(100, "denied"));
    assert_eq!(
        windows_hwnd_message_scroll_readback(point, unread),
        Err(ActionError::ElementNotResolved {
            detail: "GetWindowRect failed for act_scroll hwnd 0x64: denied".to_owned()
        })
    );
    let mut far = facts(Some(window(1, true, None)), Vec::new());
    far.root.rect = Ok(WindowRect { left: 0, top: 0, right: 50_000, bottom: 50_000 });
    assert!(detail(far, Point { x: 40_000, y: 1 }).starts_with("act_scroll screen x 40000"));
    assert_eq!(
        targeted_scroll_unavailable(point),
        ActionError::BackendUnavailable {
            detail: "act_scroll at=Point { x: 10, y: 10 } targeted window-message path requires Windows".to_owned()
        }
    );
}

#[test]
fn recorded_scrolls_print_one_after_another() {
    let events = vec![
        ScrollEvent::MouseScroll { dy: -1, dx: 0, at: Some(Point { x: 3, y: -4 }) },
        ScrollEvent::MouseScroll { dy: 2, dx: 1, at: None },
        ScrollEvent::Other { text: "KeyUp".to_owned() },
    ];
    assert_eq!(
        synapse_mcp::m2::scroll::event_sequence(&events),
        "mouse_scroll:dy=-1:dx=0:at=screen(3,-4)>mouse_scroll:dy=2:dx=1:at=none>KeyUp"
    );
}

#[test]
fn scroll_points_convert_to_points() {
    assert_eq!(Point::from(ActScrollPoint { x: 1, y: 2 }), Point { x: 1, y: 2 });
}

// ---------------------------------------------------------------------------------------------
// Stroke
// ---------------------------------------------------------------------------------------------

fn printed(value: f64) -> PrintedReal {
    PrintedReal { value: Real64::from_bits(value.to_bits()), text: format!("{value}") }
}

fn timing(speed: Option<f64>, duration_ms: f64) -> StrokeTiming {
    StrokeTiming {
        speed: speed.map(printed),
        duration_ms: printed(duration_ms),
        duration_text_3: format!("{duration_ms:.3}"),
    }
}

fn stroke_plan(sample_count: usize) -> StrokePlan {
    StrokePlan {
        sample_count,
        path_length_px: Real64::from_bits(10.0f64.to_bits()),
        duration_ms: Real64::from_bits(20.0f64.to_bits()),
    }
}

#[test]
fn strokes_are_checked_in_order() {
    let message = |path, measured: Result<(), String>, timing: StrokeTiming, planned| {
        validate_and_plan(path, measured, &timing, planned).expect_err("refused").message
    };
    let line = PathShape::Line;
    assert_eq!(
        validate_and_plan(line, Ok(()), &timing(None, 60_000.0), Ok(stroke_plan(60_001))),
        Ok(stroke_plan(60_001))
    );
    assert_eq!(
        message(PathShape::Polyline { points: 4097 }, Ok(()), timing(None, 1.0), Ok(stroke_plan(1))),
        "act_stroke path control point count 4097 exceeds max 4096"
    );
    assert_eq!(
        message(line, Err("no length".to_owned()), timing(None, 1.0), Ok(stroke_plan(1))),
        "act_stroke path invalid: no length"
    );
    assert_eq!(
        message(line, Ok(()), timing(Some(-2.5), 1.0), Ok(stroke_plan(1))),
        "act_stroke speed px_per_sec must be finite and greater than zero, got -2.5"
    );
    assert_eq!(
        message(line, Ok(()), timing(Some(f64::NAN), 1.0), Ok(stroke_plan(1))),
        "act_stroke speed px_per_sec must be finite and greater than zero, got NaN"
    );
    assert_eq!(
        message(line, Ok(()), timing(None, 0.0), Ok(stroke_plan(1))),
        "act_stroke duration_ms must be finite and greater than zero, got 0"
    );
    assert_eq!(
        message(line, Ok(()), timing(Some(1.0), 60_000.5), Ok(stroke_plan(1))),
        "act_stroke planned duration_ms 60000.500 exceeds max 60000"
    );
    assert_eq!(
        message(line, Ok(()), timing(None, 1.0), Err("planner".to_owned())),
        "act_stroke params invalid: planner"
    );
    assert_eq!(
        message(line, Ok(()), timing(None, 1.0), Ok(stroke_plan(60_002))),
        "act_stroke planned point stream count 60002 exceeds max 60001"
    );
}

fn drive(modifiers: usize, failing: &[(StrokeStep, &str)]) -> (Vec<StrokeStep>, Result<(), ToolError>) {
    let mut run = StrokeRun::begin(modifiers);
    let mut steps = Vec::new();
    loop {
        let step = run.next_step();
        steps.push(step);
        if step == StrokeStep::Finish {
            return (steps, run.execute_with_modifiers());
        }
        let failure = failing
            .iter()
            .find(|(failed, _)| *failed == step)
            .map(|(_, code)| tool_error(code));
        run.absorb(failure);
    }
}

#[test]
fn modifiers_are_held_while_the_stroke_is_drawn() {
    let (steps, outcome) = drive(2, &[]);
    assert_eq!(
        steps,
        [
            StrokeStep::Press(0),
            StrokeStep::Press(1),
            StrokeStep::Draw,
            StrokeStep::Settle,
            StrokeStep::Release(1),
            StrokeStep::Release(0),
            StrokeStep::Finish,
        ]
    );
    assert_eq!(outcome, Ok(()));
    let (steps, _) = drive(0, &[]);
    assert_eq!(steps, [StrokeStep::Draw, StrokeStep::Finish]);
}

#[test]
fn modifiers_are_released_whatever_fails() {
    let (steps, outcome) = drive(3, &[(StrokeStep::Press(1), "PRESS"), (StrokeStep::Release(0), "UP")]);
    assert_eq!(
        steps,
        [StrokeStep::Press(0), StrokeStep::Press(1), StrokeStep::Release(0), StrokeStep::Finish]
    );
    assert_eq!(outcome, Err(tool_error("PRESS")));
    let (steps, outcome) = drive(1, &[(StrokeStep::Draw, "DRAW"), (StrokeStep::Release(0), "UP")]);
    assert_eq!(
        steps,
        [StrokeStep::Press(0), StrokeStep::Draw, StrokeStep::Release(0), StrokeStep::Finish]
    );
    assert_eq!(outcome, Err(tool_error("DRAW")));
    let (_, outcome) =
        drive(2, &[(StrokeStep::Release(1), "FIRST"), (StrokeStep::Release(0), "SECOND")]);
    assert_eq!(outcome, Err(tool_error("FIRST")));
}

#[test]
fn recorded_strokes_take_the_same_steps() {
    assert_eq!(
        recording_steps(2),
        [
            StrokeStep::Press(0),
            StrokeStep::Press(1),
            StrokeStep::Draw,
            StrokeStep::Release(1),
            StrokeStep::Release(0),
        ]
    );
    assert_eq!(recording_steps(0), [StrokeStep::Draw]);
    let events = vec![
        StrokeEvent::KeyDown { key: StrokeModifier::Ctrl.to_key() },
        StrokeEvent::MouseButtonDown { button: MouseButton::Left },
        StrokeEvent::MouseStrokePoint {
            elapsed_ms: format!("{:.3}", 1.5),
            point: Point { x: 2, y: 3 },
        },
        StrokeEvent::MouseButtonUp { button: MouseButton::X2 },
        StrokeEvent::KeyUp { key: StrokeModifier::Super.to_key() },
        StrokeEvent::Other { text: "x".to_owned() },
    ];
    assert_eq!(
        synapse_mcp::m2::stroke::event_sequence(&events),
        "key_down:ctrl>down:left>stroke_point:1.500:screen(2,3)>up:x2>key_up:super>x"
    );
}

fn stroke() -> ActStrokeParams<&'static str, &'static str, u32, u8> {
    ActStrokeParams {
        path: StrokePath { shape: PathShape::CatmullRom { waypoints: 9 }, drawn: "waypoints" },
        button: Some(MouseButton::Right),
        velocity_profile: "min_jerk",
        duration_or_speed: 250,
        humanize: Some(4),
        backend: StrokeBackend::Hardware,
        modifiers: vec![StrokeModifier::Shift, StrokeModifier::Alt],
    }
}

#[test]
fn strokes_are_drawn_as_the_call_says() {
    let params = stroke();
    match action_of_step(&params, StrokeStep::Draw) {
        Some(StrokeAction::MouseStroke { path, button, profile, timing, humanize, backend }) => {
            assert_eq!(path.drawn, "waypoints");
            assert_eq!(path.shape, PathShape::CatmullRom { waypoints: 9 });
            assert_eq!(button, Some(MouseButton::Right));
            assert_eq!(*profile, "min_jerk");
            assert_eq!(*timing, 250);
            assert_eq!(*humanize, Some(4));
            assert_eq!(backend, Backend::Hardware);
        }
        other => panic!("stroke expected: {other:?}"),
    }
    match action_of_step(&params, StrokeStep::Press(1)) {
        Some(StrokeAction::KeyDown { key, backend }) => {
            assert_eq!(key, StrokeModifier::Alt.to_key());
            assert_eq!(backend, Backend::Hardware);
        }
        other => panic!("key expected: {other:?}"),
    }
    match action_of_step(&params, StrokeStep::Release(0)) {
        Some(StrokeAction::KeyUp { key, .. }) => assert_eq!(key, StrokeModifier::Shift.to_key()),
        other => panic!("key expected: {other:?}"),
    }
    assert!(action_of_step(&params, StrokeStep::Settle).is_none());
    assert!(action_of_step(&params, StrokeStep::Finish).is_none());
    assert!(action_of_step(&params, StrokeStep::Press(2)).is_none());
}

#[test]
fn stroke_answers_repeat_the_call() {
    let response = act_stroke_with_handle(stroke(), &stroke_plan(17), Ok(()), 5).expect("drawn");
    assert_eq!(response.velocity_profile_used, "min_jerk");
    assert_eq!(response.duration_or_speed_used, 250);
    assert_eq!(response.path_kind, "catmull_rom");
    assert_eq!(response.control_point_count, 9);
    assert_eq!(response.button_used, Some(MouseButton::Right));
    assert!(response.humanized);
    assert_eq!(response.point_stream_count, 17);
    assert_eq!(response.duration_ms, Real64::from_bits(20.0f64.to_bits()));
    assert_eq!(response.modifiers_used, [StrokeModifier::Shift, StrokeModifier::Alt]);
    assert_eq!(response.backend_used, "hardware");
    assert_eq!(
        act_stroke_with_handle(stroke(), &stroke_plan(17), Err(tool_error("X")), 5),
        Err(tool_error("X"))
    );
    let plain = ActStrokeParams { humanize: None, button: None, ..stroke() };
    let response = act_stroke_with_handle(plain, &stroke_plan(1), Ok(()), 5).expect("drawn");
    assert!(!response.humanized);
    assert_eq!(response.button_used, None);
}
