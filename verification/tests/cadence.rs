use synapse_mcp::m3::interaction_cadence::{
    claim_hook, ctrl_down, hook_call_failed, hook_ready, key_signal_with_ctrl, keyboard_event,
    keyboard_event_now, mouse_event, mouse_event_now, wheel_delta, HookCall, HookFailure,
    InteractionEventKind, InteractionHookReadback, InteractionKeySignal, VK_BACK_CODE,
    VK_DELETE_CODE, VK_PACKET_CODE, VK_SPACE_CODE, VK_Z_CODE, WM_KEYDOWN, WM_LBUTTONDOWN,
    WM_MOUSEHWHEEL, WM_MOUSEWHEEL, WM_SYSKEYDOWN, WM_XBUTTONDOWN,
};

#[test]
fn unicode_sendinput_packet_is_text_like_without_raw_character() {
    assert_eq!(
        key_signal_with_ctrl(VK_PACKET_CODE, false),
        InteractionKeySignal::TextLikeKey
    );
    assert_eq!(
        key_signal_with_ctrl(VK_BACK_CODE, false),
        InteractionKeySignal::DeleteCommand
    );
    assert_eq!(
        key_signal_with_ctrl(VK_Z_CODE, true),
        InteractionKeySignal::UndoCommand
    );
}

#[test]
fn keys_are_told_apart_by_class_only() {
    assert_eq!(key_signal_with_ctrl(VK_Z_CODE, false), InteractionKeySignal::TextLikeKey);
    assert_eq!(key_signal_with_ctrl(VK_DELETE_CODE, true), InteractionKeySignal::DeleteCommand);
    for text_like in [VK_SPACE_CODE, 0x30, 0x39, 0x41, 0x60, 0x6f, 0xba, 0xc0, 0xdb, 0xdf] {
        assert_eq!(key_signal_with_ctrl(text_like, true), InteractionKeySignal::TextLikeKey);
    }
    for other in [0x2f, 0x3a, 0x40, 0x5b, 0x5f, 0x70, 0xb9, 0xc1, 0xda, 0xe0, 0x11] {
        assert_eq!(key_signal_with_ctrl(other, false), InteractionKeySignal::OtherKey);
    }
    assert!(ctrl_down(0, 0, i16::MIN));
    assert!(ctrl_down(-1, 0, 0));
    assert!(!ctrl_down(1, i16::MAX, 0));
}

#[test]
fn key_downs_are_counted_and_releases_are_not() {
    let event = keyboard_event(0, WM_SYSKEYDOWN, VK_Z_CODE, 0x10, true, 9).expect("counted");
    assert_eq!(event.ts_ns, 9);
    assert_eq!(event.kind, InteractionEventKind::Keystroke);
    assert!(event.injected);
    assert_eq!(event.key_signal, Some(InteractionKeySignal::UndoCommand));
    let own = keyboard_event(0, WM_KEYDOWN, VK_Z_CODE, 0x81, false, 9).expect("counted");
    assert!(!own.injected);
    assert_eq!(keyboard_event(0, 0x0101, VK_Z_CODE, 0, false, 9), None);
    assert_eq!(keyboard_event(0, 0x0105, VK_Z_CODE, 0, false, 9), None);
    assert_eq!(keyboard_event(-1, WM_KEYDOWN, VK_Z_CODE, 0, false, 9), None);
    let now = keyboard_event_now(0, WM_KEYDOWN, VK_Z_CODE, 0, false).expect("counted");
    assert!(now.ts_ns > 1_600_000_000_000_000_000);
    assert_eq!(keyboard_event_now(-1, WM_KEYDOWN, VK_Z_CODE, 0, false), None);
}

#[test]
fn clicks_and_wheel_turns_are_counted() {
    let click = mouse_event(0, WM_LBUTTONDOWN, 0, 1, 4).expect("click");
    assert_eq!(click.kind, InteractionEventKind::Click);
    assert!(click.injected);
    assert_eq!(click.key_signal, None);
    assert_eq!(
        mouse_event(0, WM_XBUTTONDOWN, 0, 4, 4).map(|event| (event.kind, event.injected)),
        Some((InteractionEventKind::Click, false))
    );
    assert_eq!(
        mouse_event(0, WM_MOUSEWHEEL, 0xff88_1234, 0, 4).map(|event| event.kind),
        Some(InteractionEventKind::VerticalScroll { delta: -120 })
    );
    assert_eq!(
        mouse_event(0, WM_MOUSEHWHEEL, 120 << 16, 0, 4).map(|event| event.kind),
        Some(InteractionEventKind::HorizontalScroll { delta: 120 })
    );
    assert_eq!(mouse_event(0, 0x0200, 0, 0, 4), None);
    assert_eq!(mouse_event(-1, WM_LBUTTONDOWN, 0, 0, 4), None);
    assert!(mouse_event_now(0, WM_LBUTTONDOWN, 0, 0).is_some());
    assert_eq!(wheel_delta(0x7fff_0000), 32_767);
    assert_eq!(wheel_delta(0x8000_ffff), -32_768);
}

#[test]
fn hooks_are_installed_once() {
    assert_eq!(claim_hook(Ok(false)), Ok(()));
    assert_eq!(
        claim_hook(Ok(true)).expect_err("taken").message(),
        "interaction cadence hook is already installed in this process"
    );
    assert_eq!(
        claim_hook(Err(())).expect_err("poisoned").message(),
        "interaction hook sender lock poisoned"
    );
    let readback = InteractionHookReadback {
        thread_id: 7,
        keyboard_hook_installed: true,
        mouse_hook_installed: true,
    };
    assert_eq!(hook_ready(Ok(Ok(readback))), Ok(readback));
    assert_eq!(
        hook_ready(Ok(Err("said".to_owned()))),
        Err(HookFailure::Thread("said".to_owned()))
    );
    assert_eq!(
        hook_ready(Err("closed".to_owned())).expect_err("early").message(),
        "interaction cadence hook thread exited before readiness: closed"
    );
    assert_eq!(
        HookFailure::UnsupportedPlatform.message(),
        "interaction cadence hook requires Windows"
    );
    assert_eq!(
        hook_call_failed(HookCall::ModuleHandle, "e"),
        "GetModuleHandleW failed for interaction cadence hook: e"
    );
    assert_eq!(
        hook_call_failed(HookCall::KeyboardHook, "e"),
        "SetWindowsHookExW(WH_KEYBOARD_LL) failed: e"
    );
    assert_eq!(
        hook_call_failed(HookCall::MouseHook, "e"),
        "SetWindowsHookExW(WH_MOUSE_LL) failed: e"
    );
}
