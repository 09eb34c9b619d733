use synapse_mcp::error::ToolError;
use synapse_mcp::geometry::Rect;
use synapse_mcp::m1::capture::{
    observation_capture_from_capture_config, observation_capture_from_profile_capture,
    validate_element_window_rect, ActiveCapture, CaptureBackend, CaptureConfig, CaptureTarget,
    CaptureThreadPriority, ControllerReading, LatestFrame, ObservationCaptureTarget,
    ProfileCapture, ProfileCaptureTarget, MIN_CAPTURE_UPDATE_INTERVAL_MS_U32,
};
use synapse_mcp::m1::observation::{
    input_limited_to_depth, AccessibleNode, ElementId, FocusedElement, ForegroundContext,
    ObservationInput, PerceptionMode, UiaPattern,
};
use synapse_mcp::m1::ocr::{
    effective_ocr_backend, normalize_confidence, ocr_result_from_web_bitmap, text_source,
    web_bitmap_region, OcrBackend, TextSource,
};
use synapse_mcp::m1::browser::TextRegion;
use synapse_mcp::m1::{
    apply_profile_runtime_config_in_state, build_find_input, current_input, env_switch,
    find_cdp_max_nodes, find_snapshot_depth, mode_rationale, observe_include, observe_input,
    plan_capture_target, plan_profile_capture, read_text_request_from_bgra,
    read_text_request_uncached, resolve_read_text_request, set_capture_target_in_state,
    set_perception_mode_in_state, wants_notepad_fixture, CaptureTargetParam, CaptureTargetWire,
    M1State, ObserveInclude, ObserveParams, ObserveSlot, ObserveSource, Profile, ReadTextParams,
    ResolvedCapture, ResolvedReadTextRequest, SetCaptureTargetParams, SwitchedCapture,
};
use synapse_mcp::ieee::Real32;

const CAPTURE_CHANNEL_CAPACITY: usize = 4;

fn config() -> CaptureConfig {
    CaptureConfig {
        target: CaptureTarget::Primary,
        min_update_interval_ms: 33,
        cursor_visible: true,
        dirty_region_only: false,
        selected_backend: CaptureBackend::GraphicsCaptureApi,
    }
}

fn idle_controller() -> ControllerReading {
    ControllerReading {
        generation: 0,
        default_channel_capacity: CAPTURE_CHANNEL_CAPACITY,
        active: None,
    }
}

fn state() -> M1State<&'static str> {
    M1State::initial(&config(), config(), idle_controller(), "detect:default", None, None, None)
}

fn synthetic_state() -> M1State<&'static str> {
    M1State::initial(
        &config(),
        config(),
        idle_controller(),
        "detect:default",
        Some("NotePad"),
        None,
        None,
    )
}

fn node(runtime_id: &str, name: &str, depth: u32, bbox: Rect) -> AccessibleNode {
    AccessibleNode {
        element_id: ElementId { hwnd: 0x2200, runtime_id_hex: runtime_id.to_owned() },
        parent: None,
        name: name.to_owned(),
        role: "edit".to_owned(),
        automation_id: None,
        value: None,
        bbox,
        enabled: true,
        focused: false,
        patterns: Vec::new(),
        children_count: 0,
        depth,
    }
}

type Input = ObservationInput<&'static str, u8>;

fn notepad() -> Input {
    let mut input = ObservationInput::new(ForegroundContext {
        hwnd: 0x2200,
        pid: 41,
        process_name: "notepad.exe".to_owned(),
        process_path: "C:\\Windows\\notepad.exe".to_owned(),
        window_title: "Untitled - Notepad".to_owned(),
        window_bounds: Rect { x: 0, y: 0, w: 800, h: 600 },
    });
    input.elements = vec![
        node("01", "Editor", 1, Rect { x: 8, y: 48, w: 640, h: 400 }),
        node("02", "Deep", 3, Rect { x: 0, y: 0, w: 1, h: 1 }),
    ];
    input.focused = Some(FocusedElement {
        element_id: ElementId { hwnd: 0x2200, runtime_id_hex: "01".to_owned() },
        name: "Editor".to_owned(),
        role: "edit".to_owned(),
        automation_id: None,
        bbox: Rect { x: 8, y: 48, w: 640, h: 400 },
        enabled: true,
        patterns: vec![UiaPattern::Invoke],
        value: None,
        selected_text: None,
    });
    input
}

fn profile_with_mode(mode: PerceptionMode) -> Profile {
    Profile {
        id: "test-profile".to_owned(),
        mode,
        capture: ProfileCapture {
            target: ProfileCaptureTarget::ForegroundWindow,
            min_update_interval_ms: 50,
            cursor_visible: true,
        },
    }
}

fn tool_error(code: &str) -> ToolError {
    ToolError { code: code.to_owned(), message: "said".to_owned() }
}

#[test]
fn capture_interval_floor_applies_to_manual_and_profile_metadata() {
    let config = CaptureConfig { min_update_interval_ms: 1, ..config() };
    let manual = observation_capture_from_capture_config(&config, 42, "manual-test".to_owned());
    assert_eq!(manual.min_update_interval_ms, MIN_CAPTURE_UPDATE_INTERVAL_MS_U32);

    let profile = ProfileCapture {
        target: ProfileCaptureTarget::PrimaryMonitor,
        min_update_interval_ms: 1,
        cursor_visible: true,
    };
    let from_profile =
        observation_capture_from_profile_capture(&profile, true, 43, "profile:test".to_owned());
    assert_eq!(from_profile.min_update_interval_ms, MIN_CAPTURE_UPDATE_INTERVAL_MS_U32);
}

#[test]
fn inactive_capture_runtime_readback_reports_controller_state() {
    let mut state = state();
    state.capture_config.min_update_interval_ms = 1;

    let readback = state.capture_runtime_readback();

    assert_eq!(readback.status, "inactive");
    assert!(readback.target.is_none());
    assert!(readback.backend.is_none());
    assert_eq!(readback.generation, 0);
    assert_eq!(readback.min_update_interval_ms, Some(MIN_CAPTURE_UPDATE_INTERVAL_MS_U32));
    assert_eq!(readback.frames_captured, 0);
    assert_eq!(readback.frames_dropped, 0);
    assert_eq!(readback.channel_len, 0);
    assert_eq!(readback.channel_capacity, CAPTURE_CHANNEL_CAPACITY);
    assert!(!readback.stop_requested);
}

#[test]
fn running_capture_readback_reports_the_active_capture() {
    let mut state = state();
    state.capture_controller = ControllerReading {
        generation: 7,
        default_channel_capacity: CAPTURE_CHANNEL_CAPACITY,
        active: Some(ActiveCapture {
            target: CaptureTarget::Window { hwnd: 5 },
            backend: CaptureBackend::DxgiDuplication,
            effective_backend: Some(CaptureBackend::GraphicsCaptureApi),
            min_update_interval_ms: u64::MAX,
            cursor_visible: false,
            dirty_region_only: true,
            frames_captured: 11,
            frames_dropped: 2,
            latest_frame: Some(LatestFrame { frame_seq: 11, width: 640, height: 480 }),
            channel_len: 3,
            channel_capacity: 9,
            thread_priority: CaptureThreadPriority::TimeCritical,
            stop_requested: true,
        }),
    };
    let readback = state.capture_runtime_readback();
    assert_eq!(readback.status, "running");
    assert_eq!(readback.target, Some(ObservationCaptureTarget::Window { window_hwnd: 5 }));
    assert_eq!(readback.generation, 7);
    assert_eq!(readback.min_update_interval_ms, Some(u32::MAX));
    assert_eq!(readback.cursor_visible, Some(false));
    assert_eq!(readback.dirty_region_only, Some(true));
    assert_eq!(readback.frames_captured, 11);
    assert_eq!(readback.frames_dropped, 2);
    assert_eq!(readback.latest_frame_seq, Some(11));
    assert_eq!(readback.latest_frame_width, Some(640));
    assert_eq!(readback.latest_frame_height, Some(480));
    assert_eq!(readback.channel_len, 3);
    assert_eq!(readback.channel_capacity, 9);
    assert!(readback.stop_requested);
}

#[test]
fn element_window_rect_validation_requires_non_empty_bounds() {
    let element_id = ElementId { hwnd: 1, runtime_id_hex: "00000001".to_owned() };
    assert_eq!(element_id.to_text(), "0x1:00000001");
    let positive = Rect { x: 10, y: 20, w: 1, h: 1 };
    assert!(validate_element_window_rect(&element_id, positive).is_ok());

    for rect in [
        Rect { x: 0, y: 0, w: 0, h: 10 },
        Rect { x: 0, y: 0, w: 10, h: 0 },
        Rect { x: 0, y: 0, w: -1, h: 10 },
        Rect { x: 0, y: 0, w: 10, h: -1 },
    ] {
        let error = validate_element_window_rect(&element_id, rect)
            .expect_err("empty element_window bounds must fail closed");
        assert!(error.message.contains("non-empty UI rectangle"));
        assert_eq!(error.code, "CAPTURE_TARGET_INVALID");
    }
    let error = validate_element_window_rect(&element_id, Rect { x: -3, y: 4, w: 0, h: 10 })
        .expect_err("empty");
    assert_eq!(
        error.message,
        "element_window target is not displaying a non-empty UI rectangle: element_id=0x1:00000001 bbox=(-3, 4, 0, 10)"
    );
}

#[test]
fn manual_perception_mode_survives_profile_runtime_apply() {
    let mut state = state();
    set_perception_mode_in_state(&mut state, Ok(PerceptionMode::PixelOnly))
        .expect("manual mode parses");

    apply_profile_runtime_config_in_state(
        &mut state,
        &profile_with_mode(PerceptionMode::Hybrid),
        "detect:profile",
        Ok(()),
    )
    .expect("profile config applies");

    assert_eq!(state.perception_mode, PerceptionMode::PixelOnly);
    assert_eq!(state.manual_perception_mode, Some(PerceptionMode::PixelOnly));
}

#[test]
fn auto_perception_mode_releases_profile_runtime_apply() {
    let mut state = state();
    set_perception_mode_in_state(&mut state, Ok(PerceptionMode::PixelOnly))
        .expect("manual mode parses");
    set_perception_mode_in_state(&mut state, Ok(PerceptionMode::Auto)).expect("auto mode parses");

    apply_profile_runtime_config_in_state(
        &mut state,
        &profile_with_mode(PerceptionMode::Hybrid),
        "detect:profile",
        Ok(()),
    )
    .expect("profile config applies");

    assert_eq!(state.perception_mode, PerceptionMode::Hybrid);
    assert_eq!(state.manual_perception_mode, None);
}

#[test]
fn setting_the_mode_reports_what_was_and_why() {
    let mut state = state();
    let response =
        set_perception_mode_in_state(&mut state, Ok(PerceptionMode::A11yOnly)).expect("set");
    assert_eq!(response.previous, PerceptionMode::Auto);
    assert_eq!(response.mode, PerceptionMode::A11yOnly);
    assert_eq!(response.rationale, "manual_a11y_only");
    let refused = set_perception_mode_in_state(&mut state, Err(tool_error("BAD_MODE")));
    assert_eq!(refused, Err(tool_error("BAD_MODE")));
    assert_eq!(state.perception_mode, PerceptionMode::A11yOnly);
    assert_eq!(
        mode_rationale(PerceptionMode::Auto),
        "auto_select_by_foreground_and_a11y_density"
    );
    assert_eq!(mode_rationale(PerceptionMode::PixelOnly), "manual_pixel_only");
    assert_eq!(mode_rationale(PerceptionMode::Hybrid), "manual_hybrid");
}

#[test]
fn profiles_advance_the_generation_only_on_change() {
    let mut state = state();
    let profile = profile_with_mode(PerceptionMode::Hybrid);
    let first = apply_profile_runtime_config_in_state(&mut state, &profile, "detect:a", Ok(()))
        .expect("first");
    assert_eq!(state.detection_config, "detect:a");
    assert_eq!(first.generation, 1);
    assert_eq!(first.source, "profile:test-profile");
    assert_eq!(first.target, ObservationCaptureTarget::ForegroundWindow);
    assert_eq!(first.min_update_interval_ms, 50);
    let again = apply_profile_runtime_config_in_state(&mut state, &profile, "detect:b", Ok(()))
        .expect("again");
    assert_eq!(state.detection_config, "detect:b");
    assert_eq!(again.generation, 1);
    assert_eq!(state.capture_generation, 1);
    assert_eq!(state.capture_config.min_update_interval_ms, 50);
    assert_eq!(state.capture_config.target, CaptureTarget::Primary);
}

#[test]
fn profiles_whose_target_fails_change_the_mode_and_the_detection_only() {
    let mut state = state();
    assert_eq!(state.detection_config, "detect:default");
    let mut profile = profile_with_mode(PerceptionMode::Hybrid);
    profile.capture.target = ProfileCaptureTarget::MonitorIndex { index: 3 };
    profile.capture.min_update_interval_ms = 1;
    let (planned, resolves) = plan_profile_capture(&state, &profile);
    assert!(resolves);
    assert_eq!(planned.target, CaptureTarget::Monitor { monitor_index: 3 });
    assert_eq!(planned.min_update_interval_ms, 16);
    let failed = apply_profile_runtime_config_in_state(
        &mut state,
        &profile,
        "detect:profile",
        Err(tool_error("NO_MONITOR")),
    );
    assert_eq!(failed, Err(tool_error("NO_MONITOR")));
    assert_eq!(state.detection_config, "detect:profile");
    assert_eq!(state.perception_mode, PerceptionMode::Hybrid);
    assert_eq!(state.capture_config, config());
    assert_eq!(state.capture_generation, 0);
}

#[test]
fn capture_targets_are_planned_resolved_and_switched() {
    let mut state = state();
    let params = SetCaptureTargetParams {
        target: CaptureTargetParam::Window { window_hwnd: 77 },
        min_update_interval_ms: Some(3),
        cursor_visible: Some(false),
        dirty_region_only: None,
    };
    let planned = plan_capture_target(&state, params, Err("unused".to_owned()));
    let config = planned.clone().expect("planned");
    assert_eq!(config.target, CaptureTarget::Window { hwnd: 77 });
    assert_eq!(config.min_update_interval_ms, 16);
    assert!(!config.cursor_visible);
    assert!(!config.dirty_region_only);
    let reading = ControllerReading { generation: 5, ..idle_controller() };
    let response = set_capture_target_in_state(
        &mut state,
        planned,
        Ok(ResolvedCapture {
            target: CaptureTarget::Window { hwnd: 77 },
            backend: CaptureBackend::GraphicsCaptureApi,
        }),
        Ok(SwitchedCapture { generation: 5, reading }),
    )
    .expect("switched");
    assert_eq!(response.previous, CaptureTargetWire::Primary);
    assert_eq!(response.current, CaptureTargetWire::Window { window_hwnd: 77 });
    assert_eq!(response.generation, 5);
    assert_eq!(response.capture_runtime.generation, 5);
    assert_eq!(state.capture_config, config);
    assert_eq!(state.active_capture_config.source, "manual");
    assert_eq!(state.active_capture_config.generation, 5);
}

#[test]
fn refused_capture_targets_leave_the_state() {
    let mut state = state();
    let element_id = ElementId { hwnd: 9, runtime_id_hex: "aa".to_owned() };
    let ask = |state: &M1State<&'static str>, rect: Result<Rect, String>| {
        plan_capture_target(
            state,
            SetCaptureTargetParams {
                target: CaptureTargetParam::ElementWindow { element_id: element_id.clone() },
                min_update_interval_ms: None,
                cursor_visible: None,
                dirty_region_only: None,
            },
            rect,
        )
    };
    let gone = ask(&state, Err("no such element".to_owned())).expect_err("gone");
    assert_eq!(
        gone.message,
        "element_window target could not be re-resolved: no such element"
    );
    let empty = ask(&state, Ok(Rect { x: 0, y: 0, w: 0, h: 0 }));
    assert!(empty.is_err());
    let seen = ask(&state, Ok(Rect { x: 0, y: 0, w: 2, h: 2 })).expect("seen");
    assert_eq!(seen.target, CaptureTarget::Window { hwnd: 9 });

    let switched = || Ok(SwitchedCapture { generation: 1, reading: idle_controller() });
    let resolved = || {
        Ok(ResolvedCapture {
            target: CaptureTarget::Primary,
            backend: CaptureBackend::GraphicsCaptureApi,
        })
    };
    let unplanned =
        set_capture_target_in_state(&mut state, Err(tool_error("A")), resolved(), switched());
    assert_eq!(unplanned, Err(tool_error("A")));
    let unresolved =
        set_capture_target_in_state(&mut state, Ok(seen), Err(tool_error("B")), switched());
    assert_eq!(unresolved, Err(tool_error("B")));
    let unswitched =
        set_capture_target_in_state(&mut state, Ok(seen), resolved(), Err(tool_error("C")));
    assert_eq!(unswitched, Err(tool_error("C")));
    assert_eq!(state.capture_config, config());
    assert_eq!(state.capture_generation, 0);
    assert_eq!(state.active_capture_config.source, "default");
}

#[test]
fn switches_and_fixtures_are_read_from_the_environment() {
    assert!(env_switch(Some("1")));
    assert!(env_switch(Some("TRUE")));
    assert!(!env_switch(Some("yes")));
    assert!(!env_switch(None));
    assert!(wants_notepad_fixture(Some("Notepad")));
    assert!(!wants_notepad_fixture(Some("calc")));
    let forced = M1State::initial(
        &config(),
        config(),
        idle_controller(),
        "detect:default",
        None,
        Some("1"),
        Some("true"),
    );
    assert!(forced.force_no_perception);
    assert!(forced.force_observe_internal);
    assert!(!forced.synthetic);
    assert!(synthetic_state().synthetic);
}

#[test]
fn observations_are_bounded_and_have_what_was_asked_for() {
    let default = ObserveInclude {
        focused: true,
        elements: true,
        entities: true,
        hud: true,
        audio: true,
        events: true,
        clipboard: true,
        fs: true,
        diagnostics: true,
        max_subtree_depth: 9,
        max_subtree_nodes: 9,
        element_offset: 9,
        max_entities: 17,
    };
    let parts = observe_include(&ObserveParams::default(), default);
    assert!(parts.focused && parts.diagnostics);
    assert_eq!(parts.max_subtree_depth, 2);
    assert_eq!(parts.max_subtree_nodes, 60);
    assert_eq!(parts.element_offset, 0);
    assert_eq!(parts.max_entities, 17);

    let parts = observe_include(
        &ObserveParams {
            slots: vec![ObserveSlot::Hud, ObserveSlot::Fs, ObserveSlot::Hud],
            depth: Some(40),
            max_elements: Some(0),
            element_offset: Some(usize::MAX),
            ..ObserveParams::default()
        },
        default,
    );
    assert!(parts.hud && parts.fs);
    assert!(!parts.focused && !parts.elements && !parts.entities && !parts.audio);
    assert!(!parts.events && !parts.clipboard && !parts.diagnostics);
    assert_eq!(parts.max_subtree_depth, 6);
    assert_eq!(parts.max_subtree_nodes, 1);
    assert_eq!(parts.element_offset, 100_000);
    assert_eq!(parts.max_entities, 60);
    let many = observe_include(
        &ObserveParams { max_elements: Some(501), ..ObserveParams::default() },
        default,
    );
    assert_eq!(many.max_subtree_nodes, 500);
}

#[test]
fn observations_come_from_the_subtree_or_the_screen() {
    assert!(matches!(
        observe_input(&ObserveParams::default()),
        ObserveSource::Current { depth: 2 }
    ));
    let within = ObserveParams {
        subtree_root: Some(ElementId { hwnd: 1, runtime_id_hex: "0a".to_owned() }),
        depth: Some(5),
        ..ObserveParams::default()
    };
    assert!(matches!(observe_input(&within), ObserveSource::Subtree { depth: 5 }));
    assert_eq!(find_cdp_max_nodes(), 300);
    assert_eq!(find_snapshot_depth(), 16);
}

#[test]
fn synthetic_inputs_are_limited_to_the_depth() {
    let mut state = synthetic_state();
    state.perception_mode = PerceptionMode::Hybrid;
    let input = current_input(&state, 2, Ok(notepad())).expect("synthetic");
    assert_eq!(input.elements.len(), 1);
    assert_eq!(input.elements[0].name, "Editor");
    assert_eq!(input.mode_override, Some(PerceptionMode::Hybrid));
    assert!(input.capture_config.is_some());
    assert!(input.capture_runtime.is_some());
    let mut seen = notepad();
    seen.entities = vec!["read"];
    let kept = current_input(&state, 2, Ok(seen)).expect("synthetic");
    assert_eq!(kept.entities, ["read"]);
    let found = build_find_input(&state, None, Ok(notepad()), vec!["enemy"]).expect("found");
    assert_eq!(found.elements.len(), 2);
    assert_eq!(found.entities, ["enemy"]);
    let window =
        build_find_input(&state, Some(5), Ok(notepad()), vec!["ally", "enemy"]).expect("window");
    assert_eq!(window.mode_override, None);
    assert_eq!(window.entities, ["ally", "enemy"]);
}

#[test]
fn limiting_moves_the_focus_to_what_is_left() {
    let mut input = notepad();
    input.elements.swap(0, 1);
    let kept = input_limited_to_depth(input, 1);
    assert_eq!(kept.focused.as_ref().expect("focus").name, "Editor");
    let mut input = notepad();
    input.elements.remove(0);
    let moved = input_limited_to_depth(input, 3);
    assert_eq!(moved.focused.as_ref().expect("focus").name, "Deep");
    assert!(moved.focused.expect("focus").selected_text.is_none());
    let none = input_limited_to_depth(notepad(), 0);
    assert!(none.elements.is_empty());
    assert!(none.focused.is_none());
}

#[test]
fn forced_errors_come_before_the_screen() {
    let mut state = state();
    state.force_no_perception = true;
    let error = current_input(&state, 2, Ok(notepad())).expect_err("forced");
    assert_eq!(error.code, "OBSERVE_NO_PERCEPTION_AVAILABLE");
    assert_eq!(error.message, "no perception source is available");
    state.force_observe_internal = true;
    let error = current_input(&state, 2, Ok(notepad())).expect_err("forced");
    assert_eq!(error.code, "OBSERVE_INTERNAL");
    assert_eq!(error.message, "forced observe internal error");
    state.force_no_perception = false;
    state.force_observe_internal = false;
    let error = current_input::<_, &str, u8>(&state, 2, Err(tool_error("PLATFORM")))
        .expect_err("platform");
    assert_eq!(error, tool_error("PLATFORM"));
}

#[test]
fn read_text_resolves_focused_region_when_target_is_omitted() {
    let state = synthetic_state();
    let focused = notepad().focused.expect("synthetic fixture has focused element").bbox;

    let request = resolve_read_text_request::<_, &str, u8>(
        &state,
        &ReadTextParams {
            region: None,
            element_id: None,
            backend: OcrBackend::Auto,
            lang_hint: Some(" en-US ".to_owned()),
        },
        Err("unused".to_owned()),
        Ok(notepad()),
    )
    .expect("focused fallback should resolve");

    assert_eq!(request.region, focused);
    assert_eq!(request.requested_backend, OcrBackend::Auto);
    assert_eq!(request.effective_backend, OcrBackend::Winrt);
    assert_eq!(request.lang(), "en-US");
    assert!(request.synthetic);
}

fn region_params(region: Rect, backend: OcrBackend) -> ReadTextParams {
    ReadTextParams { region: Some(region), element_id: None, backend, lang_hint: None }
}

#[test]
fn read_text_crnn_backend_fails_closed_until_provider_is_wired() {
    let state = synthetic_state();

    let error = resolve_read_text_request::<_, &str, u8>(
        &state,
        &region_params(Rect { x: 1, y: 2, w: 80, h: 24 }, OcrBackend::Crnn),
        Err("unused".to_owned()),
        Ok(notepad()),
    )
    .expect_err("unwired CRNN backend must not silently fall through");

    assert_eq!(error.code, "OCR_BACKEND_UNAVAILABLE");
    assert!(error.message.contains("CRNN OCR backend"));
}

#[test]
fn read_text_rejects_zero_sized_regions_before_ocr() {
    let state = synthetic_state();

    for region in [
        Rect { x: 1, y: 2, w: 0, h: 24 },
        Rect { x: 1, y: 2, w: 80, h: 0 },
        Rect { x: 1, y: 2, w: -1, h: 24 },
        Rect { x: 1, y: 2, w: 80, h: -1 },
    ] {
        let error = resolve_read_text_request::<_, &str, u8>(
            &state,
            &region_params(region, OcrBackend::Winrt),
            Err("unused".to_owned()),
            Ok(notepad()),
        )
        .expect_err("empty OCR regions must fail closed");
        assert_eq!(error.code, "OCR_NO_TEXT");
    }
    let error = resolve_read_text_request::<_, &str, u8>(
        &state,
        &region_params(Rect { x: 1, y: -2, w: 0, h: 24 }, OcrBackend::Crnn),
        Err("unused".to_owned()),
        Ok(notepad()),
    )
    .expect_err("empty");
    assert_eq!(
        error.message,
        "read_text OCR region must be non-empty: bbox=(1, -2, 0, 24)"
    );
}

#[test]
fn read_text_finds_elements_where_they_are() {
    let by_element = |runtime_id: &str| ReadTextParams {
        region: None,
        element_id: Some(ElementId { hwnd: 0x2200, runtime_id_hex: runtime_id.to_owned() }),
        backend: OcrBackend::Winrt,
        lang_hint: Some("   ".to_owned()),
    };
    let synthetic = synthetic_state();
    let request = resolve_read_text_request::<_, &str, u8>(
        &synthetic,
        &by_element("01"),
        Err("unused".to_owned()),
        Ok(notepad()),
    )
    .expect("known");
    assert_eq!(request.region, Rect { x: 8, y: 48, w: 640, h: 400 });
    assert_eq!(request.lang(), "und");
    let error = resolve_read_text_request::<_, &str, u8>(
        &synthetic,
        &by_element("02"),
        Err("unused".to_owned()),
        Ok(notepad()),
    )
    .expect_err("below the depth");
    assert_eq!(error.message, "element_id has no visible OCR region");

    let live = state();
    let request = resolve_read_text_request::<_, &str, u8>(
        &live,
        &by_element("02"),
        Ok(Rect { x: 1, y: 1, w: 3, h: 3 }),
        Err(tool_error("UNUSED")),
    )
    .expect("live bounds");
    assert_eq!(request.region, Rect { x: 1, y: 1, w: 3, h: 3 });
    assert!(!request.synthetic);
    let error = resolve_read_text_request::<_, &str, u8>(
        &live,
        &by_element("02"),
        Err("gone".to_owned()),
        Err(tool_error("UNUSED")),
    )
    .expect_err("no bounds");
    assert_eq!(error.message, "element_id has no live visible OCR region: gone");
    let mut unfocused = notepad();
    unfocused.focused = None;
    let error = resolve_read_text_request::<_, &str, u8>(
        &live,
        &ReadTextParams {
            region: None,
            element_id: None,
            backend: OcrBackend::Auto,
            lang_hint: None,
        },
        Err("unused".to_owned()),
        Ok(unfocused),
    )
    .expect_err("nothing to read");
    assert_eq!(
        error.message,
        "read_text requires region, element_id, or a focused element with a visible OCR region"
    );
}

fn float(value: f32) -> Real32 {
    Real32::from_bits(value.to_bits())
}

fn resolved(synthetic: bool, effective_backend: OcrBackend) -> ResolvedReadTextRequest {
    ResolvedReadTextRequest {
        region: Rect { x: 10, y: 20, w: 100, h: 40 },
        requested_backend: OcrBackend::Auto,
        effective_backend,
        lang_hint: Some("de".to_owned()),
        synthetic,
    }
}

#[test]
fn confidences_are_reported_between_zero_and_one() {
    assert_eq!(normalize_confidence(float(0.25)), float(0.25));
    assert_eq!(normalize_confidence(float(-0.5)), float(0.0));
    assert_eq!(normalize_confidence(float(1.5)), float(1.0));
    assert_eq!(normalize_confidence(float(f32::NAN)), float(0.0));
    assert_eq!(normalize_confidence(float(f32::INFINITY)), float(0.0));
    assert_eq!(normalize_confidence(float(-0.0)), float(-0.0));
}

#[test]
fn texts_come_from_the_synthetic_or_the_platform_recogniser() {
    match text_source(&resolved(true, OcrBackend::Crnn)).expect("synthetic") {
        TextSource::Synthetic(word) => {
            assert_eq!(word.text, "Synapse");
            assert_eq!(word.bbox, Rect { x: 14, y: 24, w: 72, h: 18 });
            assert_eq!(word.confidence, float(0.99));
        }
        TextSource::Platform => panic!("synthetic expected"),
    }
    assert!(matches!(
        text_source(&resolved(false, OcrBackend::Winrt)).expect("platform"),
        TextSource::Platform
    ));
    let error = text_source(&resolved(false, OcrBackend::Crnn)).expect_err("crnn");
    assert_eq!(error.code, "OCR_BACKEND_UNAVAILABLE");
    let error = text_source(&resolved(false, OcrBackend::Auto)).expect_err("auto");
    assert_eq!(
        error.message,
        "internal OCR backend resolution left backend=auto after request validation"
    );
    assert!(effective_ocr_backend(OcrBackend::Crnn).is_err());
    assert_eq!(effective_ocr_backend(OcrBackend::Winrt), Ok(OcrBackend::Winrt));
}

fn word(text: &str, confidence: f32) -> TextRegion {
    TextRegion {
        text: text.to_owned(),
        bbox: Rect { x: 1, y: 2, w: 3, h: 4 },
        confidence: float(confidence),
    }
}

#[test]
fn read_texts_are_joined_in_order() {
    let result = read_text_request_uncached(
        &resolved(false, OcrBackend::Winrt),
        Ok((vec![word("one", 2.0), word("two", 0.5)], float(0.75))),
    )
    .expect("read");
    assert_eq!(result.full_text, "one two");
    assert_eq!(result.words.len(), 2);
    assert_eq!(result.words[0].text, "one");
    assert_eq!(result.words[0].confidence, float(1.0));
    assert_eq!(result.words[1].confidence, float(0.5));
    assert_eq!(result.confidence, float(0.75));
    assert_eq!(result.region, Rect { x: 10, y: 20, w: 100, h: 40 });
    assert_eq!(result.lang, "de");
    let empty = read_text_request_from_bgra(
        &resolved(false, OcrBackend::Winrt),
        Ok((Vec::new(), float(0.0))),
    )
    .expect("empty");
    assert_eq!(empty.full_text, "");
    let failed =
        read_text_request_uncached(&resolved(true, OcrBackend::Winrt), Err(tool_error("OCR")));
    assert_eq!(failed, Err(tool_error("OCR")));
    let refused = read_text_request_uncached(
        &resolved(false, OcrBackend::Crnn),
        Ok((Vec::new(), float(0.0))),
    )
    .expect_err("crnn");
    assert_eq!(refused.code, "OCR_BACKEND_UNAVAILABLE");
}

#[test]
fn web_bitmaps_must_fit_the_coordinates() {
    assert_eq!(web_bitmap_region(3, 4), Ok(Rect { x: 0, y: 0, w: 3, h: 4 }));
    let wide = web_bitmap_region(2_147_483_648, 1).expect_err("wide");
    assert_eq!(wide.code, "OCR_NO_TEXT");
    assert_eq!(wide.message, "web element OCR bitmap width 2147483648 exceeds i32");
    let tall = ocr_result_from_web_bitmap(1, u32::MAX, Ok((Vec::new(), float(0.0))), None)
        .expect_err("tall");
    assert_eq!(tall.message, "web element OCR bitmap height 4294967295 exceeds i32");
    let read =
        ocr_result_from_web_bitmap(5, 6, Ok((vec![word("x", 1.0)], float(1.0))), None).expect("read");
    assert_eq!(read.region, Rect { x: 0, y: 0, w: 5, h: 6 });
    assert_eq!(read.lang, "und");
    let failed = ocr_result_from_web_bitmap(5, 6, Err(tool_error("OCR")), None);
    assert_eq!(failed, Err(tool_error("OCR")));
}
