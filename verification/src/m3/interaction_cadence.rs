//! Interaction cadence.
//!
//! The rhythm of input is counted, not the input: an event says of what class it was and whether it
//! was made by software, never which key was pressed or where the pointer was.

use vstd::prelude::*;

use crate::clock::now_ts_ns;

verus! {

/// One counted input.
#[derive(Clone, Copy, Debug, PartialEq, Eq, Structural)]
pub struct InteractionEvent {
    pub ts_ns: u64,
    pub kind: InteractionEventKind,
    pub injected: bool,
    pub key_signal: Option<InteractionKeySignal>,
}

/// The class of an input.
#[derive(Clone, Copy, Debug, PartialEq, Eq, Structural)]
pub enum InteractionEventKind {
    Keystroke,
    Click,
    VerticalScroll { delta: i32 },
    HorizontalScroll { delta: i32 },
}

/// What is said of a key.
#[derive(Clone, Copy, Debug, PartialEq, Eq, Structural)]
pub enum InteractionKeySignal {
    UndoCommand,
    DeleteCommand,
    TextLikeKey,
    OtherKey,
}

/// What is known of the hook.
#[derive(Clone, Copy, Debug, PartialEq, Eq, Structural)]
pub struct InteractionHookReadback {
    pub thread_id: u32,
    pub keyboard_hook_installed: bool,
    pub mouse_hook_installed: bool,
}

/// The flags of a key that say that software pressed it.
pub const LLKHF_INJECTED_MASK: u32 = 0x12;

/// The flags of the mouse that say that software moved it.
pub const LLMHF_INJECTED_MASK: u32 = 0x03;

pub const VK_BACK_CODE: u32 = 0x08;

pub const VK_SPACE_CODE: u32 = 0x20;

pub const VK_DELETE_CODE: u32 = 0x2e;

pub const VK_CONTROL_CODE: u32 = 0x11;

pub const VK_LCONTROL_CODE: u32 = 0xa2;

pub const VK_RCONTROL_CODE: u32 = 0xa3;

pub const VK_Z_CODE: u32 = 0x5a;

pub const VK_PACKET_CODE: u32 = 0xe7;

pub const WM_KEYDOWN: u32 = 0x0100;

pub const WM_SYSKEYDOWN: u32 = 0x0104;

pub const WM_LBUTTONDOWN: u32 = 0x0201;

pub const WM_RBUTTONDOWN: u32 = 0x0204;

pub const WM_MBUTTONDOWN: u32 = 0x0207;

pub const WM_XBUTTONDOWN: u32 = 0x020b;

pub const WM_MOUSEWHEEL: u32 = 0x020a;

pub const WM_MOUSEHWHEEL: u32 = 0x020e;

// ---------------------------------------------------------------------------------------------
// Keys
// ---------------------------------------------------------------------------------------------

/// Whether a key enters text: the space bar, a character sent as such, digits, letters, the number
/// pad and punctuation.
pub open spec fn is_text_like(vk_code: u32) -> bool {
    ||| vk_code == VK_SPACE_CODE
    ||| vk_code == VK_PACKET_CODE
    ||| 0x30 <= vk_code <= 0x39
    ||| 0x41 <= vk_code <= 0x5a
    ||| 0x60 <= vk_code <= 0x6f
    ||| 0xba <= vk_code <= 0xc0
    ||| 0xdb <= vk_code <= 0xdf
}

/// Says whether a key enters text.
pub fn text_like_key(vk_code: u32) -> (r: bool)
    ensures
        r == is_text_like(vk_code),
{
    vk_code == VK_SPACE_CODE || vk_code == VK_PACKET_CODE || (0x30 <= vk_code && vk_code <= 0x39)
        || (0x41 <= vk_code && vk_code <= 0x5a) || (0x60 <= vk_code && vk_code <= 0x6f) || (0xba
        <= vk_code && vk_code <= 0xc0) || (0xdb <= vk_code && vk_code <= 0xdf)
}

/// What is said of a key.
pub open spec fn signal_of(vk_code: u32, ctrl_down: bool) -> InteractionKeySignal {
    if vk_code == VK_Z_CODE && ctrl_down {
        InteractionKeySignal::UndoCommand
    } else if vk_code == VK_BACK_CODE || vk_code == VK_DELETE_CODE {
        InteractionKeySignal::DeleteCommand
    } else if is_text_like(vk_code) {
        InteractionKeySignal::TextLikeKey
    } else {
        InteractionKeySignal::OtherKey
    }
}

/// What is said of a key.
pub fn key_signal_with_ctrl(vk_code: u32, ctrl_down: bool) -> (r: InteractionKeySignal)
    ensures
        r == signal_of(vk_code, ctrl_down),
{
    if vk_code == VK_Z_CODE && ctrl_down {
        return InteractionKeySignal::UndoCommand;
    }
    if vk_code == VK_BACK_CODE || vk_code == VK_DELETE_CODE {
        return InteractionKeySignal::DeleteCommand;
    }
    if text_like_key(vk_code) {
        InteractionKeySignal::TextLikeKey
    } else {
        InteractionKeySignal::OtherKey
    }
}

/// Says whether a key is down: the highest bit of its state says so.
pub fn key_down(state: i16) -> (r: bool)
    ensures
        r == (state < 0),
{
    state < 0
}

/// Says whether a control key is down, given the states of the three codes that one can have.
pub fn ctrl_down(control: i16, left_control: i16, right_control: i16) -> (r: bool)
    ensures
        r == (control < 0 || left_control < 0 || right_control < 0),
{
    key_down(control) || key_down(left_control) || key_down(right_control)
}

/// What is counted of a message of the keyboard: a key that goes down, and nothing else.
pub open spec fn keyboard_count(
    code: i32,
    message: u32,
    vk_code: u32,
    flags: u32,
    ctrl_down: bool,
    ts_ns: u64,
) -> Option<InteractionEvent> {
    if code >= 0 && (message == WM_KEYDOWN || message == WM_SYSKEYDOWN) {
        Some(
            InteractionEvent {
                ts_ns,
                kind: InteractionEventKind::Keystroke,
                injected: flags & LLKHF_INJECTED_MASK != 0,
                key_signal: Some(signal_of(vk_code, ctrl_down)),
            },
        )
    } else {
        None
    }
}

/// Counts a message of the keyboard.
pub fn keyboard_event(
    code: i32,
    message: u32,
    vk_code: u32,
    flags: u32,
    ctrl_down: bool,
    ts_ns: u64,
) -> (r: Option<InteractionEvent>)
    ensures
        r == keyboard_count(code, message, vk_code, flags, ctrl_down, ts_ns),
{
    if code >= 0 && (message == WM_KEYDOWN || message == WM_SYSKEYDOWN) {
        return Some(
            InteractionEvent {
                ts_ns,
                kind: InteractionEventKind::Keystroke,
                injected: flags & LLKHF_INJECTED_MASK != 0,
                key_signal: Some(key_signal_with_ctrl(vk_code, ctrl_down)),
            },
        );
    }
    None
}

// ---------------------------------------------------------------------------------------------
// The mouse
// ---------------------------------------------------------------------------------------------

/// How far the wheel was turned: the high word, as a signed number.
pub open spec fn turned(mouse_data: u32) -> i32 {
    let high = mouse_data as int / 65536;
    if high < 32768 {
        high as i32
    } else {
        (high - 65536) as i32
    }
}

/// How far the wheel was turned.
pub fn wheel_delta(mouse_data: u32) -> (r: i32)
    ensures
        r == turned(mouse_data),
{
    let high: u32 = mouse_data / 65536;
    if high < 32768 {
        high as i32
    } else {
        high as i32 - 65536
    }
}

/// The class of a message of the mouse, where it is counted: a button that goes down, or a turn of
/// the wheel.
pub open spec fn mouse_kind(message: u32, mouse_data: u32) -> Option<InteractionEventKind> {
    if message == WM_LBUTTONDOWN || message == WM_RBUTTONDOWN || message == WM_MBUTTONDOWN
        || message == WM_XBUTTONDOWN {
        Some(InteractionEventKind::Click)
    } else if message == WM_MOUSEWHEEL {
        Some(InteractionEventKind::VerticalScroll { delta: turned(mouse_data) })
    } else if message == WM_MOUSEHWHEEL {
        Some(InteractionEventKind::HorizontalScroll { delta: turned(mouse_data) })
    } else {
        None
    }
}

/// What is counted of a message of the mouse.
pub open spec fn mouse_count(
    code: i32,
    message: u32,
    mouse_data: u32,
    flags: u32,
    ts_ns: u64,
) -> Option<InteractionEvent> {
    match mouse_kind(message, mouse_data) {
        Some(kind) => if code >= 0 {
            Some(
                InteractionEvent {
                    ts_ns,
                    kind,
                    injected: flags & LLMHF_INJECTED_MASK != 0,
                    key_signal: None,
                },
            )
        } else {
            None
        },
        None => None,
    }
}

/// Counts a message of the mouse.
pub fn mouse_event(code: i32, message: u32, mouse_data: u32, flags: u32, ts_ns: u64) -> (r: Option<
    InteractionEvent,
>)
    ensures
        r == mouse_count(code, message, mouse_data, flags, ts_ns),
{
    if code < 0 {
        return None;
    }
    let kind: InteractionEventKind = if message == WM_LBUTTONDOWN || message == WM_RBUTTONDOWN
        || message == WM_MBUTTONDOWN || message == WM_XBUTTONDOWN {
        InteractionEventKind::Click
    } else if message == WM_MOUSEWHEEL {
        InteractionEventKind::VerticalScroll { delta: wheel_delta(mouse_data) }
    } else if message == WM_MOUSEHWHEEL {
        InteractionEventKind::HorizontalScroll { delta: wheel_delta(mouse_data) }
    } else {
        return None;
    };
    Some(
        InteractionEvent {
            ts_ns,
            kind,
            injected: flags & LLMHF_INJECTED_MASK != 0,
            key_signal: None,
        },
    )
}

/// Counts a message of the keyboard at the instant that the host clock shows.
pub fn keyboard_event_now(code: i32, message: u32, vk_code: u32, flags: u32, ctrl_down: bool) -> (r:
    Option<InteractionEvent>)
    ensures
        match r {
            Some(event) => Some(event) == keyboard_count(
                code,
                message,
                vk_code,
                flags,
                ctrl_down,
                event.ts_ns,
            ),
            None => forall|ts_ns: u64|
                (#[trigger] keyboard_count(code, message, vk_code, flags, ctrl_down, ts_ns)) is None,
        },
{
    keyboard_event(code, message, vk_code, flags, ctrl_down, now_ts_ns())
}

/// Counts a message of the mouse at the instant that the host clock shows.
pub fn mouse_event_now(code: i32, message: u32, mouse_data: u32, flags: u32) -> (r: Option<
    InteractionEvent,
>)
    ensures
        match r {
            Some(event) => Some(event) == mouse_count(
                code,
                message,
                mouse_data,
                flags,
                event.ts_ns,
            ),
            None => forall|ts_ns: u64|
                (#[trigger] mouse_count(code, message, mouse_data, flags, ts_ns)) is None,
        },
{
    mouse_event(code, message, mouse_data, flags, now_ts_ns())
}

// ---------------------------------------------------------------------------------------------
// Installing the hook
// ---------------------------------------------------------------------------------------------

/// Why the hook is not installed.
#[derive(Debug, PartialEq, Eq)]
pub enum HookFailure {
    LockPoisoned,
    AlreadyInstalled,
    /// What the hook's thread said.
    Thread(String),
    /// The thread ended before it said anything, with what waiting for it gave.
    ExitedEarly(String),
    UnsupportedPlatform,
}

impl HookFailure {
    /// The failure as text.
    pub open spec fn text(self) -> Seq<char> {
        match self {
            HookFailure::LockPoisoned => "interaction hook sender lock poisoned"@,
            HookFailure::AlreadyInstalled =>
                "interaction cadence hook is already installed in this process"@,
            HookFailure::Thread(error) => error@,
            HookFailure::ExitedEarly(error) =>
                "interaction cadence hook thread exited before readiness: "@ + error@,
            HookFailure::UnsupportedPlatform => "interaction cadence hook requires Windows"@,
        }
    }

    /// The failure as text.
    pub fn message(&self) -> (r: String)
        ensures
            r@ == self.text(),
    {
        match self {
            HookFailure::LockPoisoned => "interaction hook sender lock poisoned".to_owned(),
            HookFailure::AlreadyInstalled =>
                "interaction cadence hook is already installed in this process".to_owned(),
            HookFailure::Thread(error) => error.clone(),
            HookFailure::ExitedEarly(error) => crate::text::cat2(
                "interaction cadence hook thread exited before readiness: ",
                error.as_str(),
            ),
            HookFailure::UnsupportedPlatform =>
                "interaction cadence hook requires Windows".to_owned(),
        }
    }
}

/// Decides whether a hook may be installed. `occupied` says whether one is, where that can be read.
pub fn claim_hook(occupied: Result<bool, ()>) -> (r: Result<(), HookFailure>)
    ensures
        match occupied {
            Err(_) => r == Err::<(), HookFailure>(HookFailure::LockPoisoned),
            Ok(true) => r == Err::<(), HookFailure>(HookFailure::AlreadyInstalled),
            Ok(false) => r is Ok,
        },
{
    match occupied {
        Err(_) => Err(HookFailure::LockPoisoned),
        Ok(occupied) => if occupied {
            Err(HookFailure::AlreadyInstalled)
        } else {
            Ok(())
        },
    }
}

/// Takes what the hook's thread said: the outer result is whether it said anything.
pub fn hook_ready(said: Result<Result<InteractionHookReadback, String>, String>) -> (r: Result<
    InteractionHookReadback,
    HookFailure,
>)
    ensures
        match said {
            Ok(Ok(readback)) => r == Ok::<InteractionHookReadback, HookFailure>(readback),
            Ok(Err(error)) => r == Err::<InteractionHookReadback, HookFailure>(
                HookFailure::Thread(error),
            ),
            Err(error) => r == Err::<InteractionHookReadback, HookFailure>(
                HookFailure::ExitedEarly(error),
            ),
        },
{
    match said {
        Ok(Ok(readback)) => Ok(readback),
        Ok(Err(error)) => Err(HookFailure::Thread(error)),
        Err(error) => Err(HookFailure::ExitedEarly(error)),
    }
}

/// What the hook's thread installed.
#[derive(Clone, Copy, Debug, PartialEq, Eq, Structural)]
pub enum HookCall {
    ModuleHandle,
    KeyboardHook,
    MouseHook,
}

/// What the thread says where a call failed.
pub open spec fn call_failure(call: HookCall, error: Seq<char>) -> Seq<char> {
    match call {
        HookCall::ModuleHandle =>
            "GetModuleHandleW failed for interaction cadence hook: "@ + error,
        HookCall::KeyboardHook => "SetWindowsHookExW(WH_KEYBOARD_LL) failed: "@ + error,
        HookCall::MouseHook => "SetWindowsHookExW(WH_MOUSE_LL) failed: "@ + error,
    }
}

/// What the thread says where a call failed.
pub fn hook_call_failed(call: HookCall, error: &str) -> (r: String)
    ensures
        r@ == call_failure(call, error@),
{
    match call {
        HookCall::ModuleHandle => crate::text::cat2(
            "GetModuleHandleW failed for interaction cadence hook: ",
            error,
        ),
        HookCall::KeyboardHook => crate::text::cat2(
            "SetWindowsHookExW(WH_KEYBOARD_LL) failed: ",
            error,
        ),
        HookCall::MouseHook => crate::text::cat2(
            "SetWindowsHookExW(WH_MOUSE_LL) failed: ",
            error,
        ),
    }
}

// ---------------------------------------------------------------------------------------------
// Laws
// ---------------------------------------------------------------------------------------------

/// A key that goes down is counted once: its release is not counted.
pub proof fn law_releases_are_not_counted(
    code: i32,
    message: u32,
    vk_code: u32,
    flags: u32,
    ctrl_down: bool,
    ts_ns: u64,
)
    requires
        message == 0x0101 || message == 0x0105,
    ensures
        keyboard_count(code, message, vk_code, flags, ctrl_down, ts_ns) is None,
{
}

/// Two keys of the same class are counted alike: what is counted does not tell which key it was.
pub proof fn law_counts_do_not_tell_keys_apart(
    code: i32,
    message: u32,
    a: u32,
    b: u32,
    flags: u32,
    ctrl_down: bool,
    ts_ns: u64,
)
    requires
        signal_of(a, ctrl_down) == signal_of(b, ctrl_down),
    ensures
        keyboard_count(code, message, a, flags, ctrl_down, ts_ns) == keyboard_count(
            code,
            message,
            b,
            flags,
            ctrl_down,
            ts_ns,
        ),
{
}

/// A turn of the wheel is read as it is packed.
pub proof fn law_wheel_turns_are_read_as_packed(delta: i16, low: u16)
    ensures
        turned((crate::m2::scroll::word(delta as int) * 65536 + low) as u32) == delta,
{
}

/// A key counts as an undo where it is Z with control held, as a deletion where it is backspace or
/// delete, as text where it types a character, and as another key otherwise.
pub proof fn law_keys_are_told_by_what_they_do(
    vk_code: u32,
    ctrl: bool,
    r: InteractionKeySignal,
)
    requires
        call_ensures(key_signal_with_ctrl, (vk_code, ctrl), r),
    ensures
        r is UndoCommand <==> vk_code == 0x5a && ctrl,
        r is DeleteCommand <==> vk_code == 0x08 || vk_code == 0x2e,
        r is TextLikeKey <==> !(vk_code == 0x5a && ctrl) && (vk_code == 0x20 || vk_code == 0xe7 || (
        0x30 <= vk_code <= 0x39) || (0x41 <= vk_code <= 0x5a) || (0x60 <= vk_code <= 0x6f) || (0xba
            <= vk_code <= 0xc0) || (0xdb <= vk_code <= 0xdf)),
{
}

/// A key is held exactly if the highest bit of its state is set; control is, where one of its keys is.
pub proof fn law_held_keys_have_the_highest_bit(
    control: i16,
    left_control: i16,
    right_control: i16,
    one: bool,
    any: bool,
)
    requires
        call_ensures(key_down, (control,), one),
        call_ensures(ctrl_down, (control, left_control, right_control), any),
    ensures
        one <==> control < 0,
        any <==> control < 0 || left_control < 0 || right_control < 0,
{
}

/// A keystroke is counted where a key goes down, as an injected one where its flags say so, at its own
/// time and with what it does; nothing else of the keyboard is counted.
pub proof fn law_keystrokes_are_counted(
    code: i32,
    message: u32,
    vk_code: u32,
    flags: u32,
    ctrl: bool,
    ts_ns: u64,
    signal: InteractionKeySignal,
    r: Option<InteractionEvent>,
)
    requires
        call_ensures(keyboard_event, (code, message, vk_code, flags, ctrl, ts_ns), r),
        call_ensures(key_signal_with_ctrl, (vk_code, ctrl), signal),
    ensures
        r is Some <==> code >= 0 && (message == 0x0100 || message == 0x0104),
        r is Some ==> r->Some_0.kind is Keystroke && r->Some_0.ts_ns == ts_ns
            && r->Some_0.key_signal == Some(signal) && (r->Some_0.injected <==> flags & 0x12u32
            != 0),
{
}

/// A button that goes down is a click; a turn of either wheel is a scroll by as much as the message
/// says, which is the signed upper half of its data; nothing else of the mouse is counted.
pub proof fn law_mouse_inputs_are_counted(
    code: i32,
    message: u32,
    mouse_data: u32,
    flags: u32,
    ts_ns: u64,
    r: Option<InteractionEvent>,
)
    requires
        call_ensures(mouse_event, (code, message, mouse_data, flags, ts_ns), r),
    ensures
        r is Some <==> code >= 0 && (message == 0x0201 || message == 0x0204 || message == 0x0207
            || message == 0x020b || message == 0x020a || message == 0x020e),
        r is Some ==> r->Some_0.ts_ns == ts_ns && r->Some_0.key_signal is None && (
        r->Some_0.injected <==> flags & 0x03u32 != 0),
        r is Some ==> (r->Some_0.kind is VerticalScroll <==> message == 0x020a) && (r->Some_0.kind
            is HorizontalScroll <==> message == 0x020e) && r->Some_0.kind !is Keystroke,
        r is Some && r->Some_0.kind is VerticalScroll ==> {
            let delta = r->Some_0.kind->VerticalScroll_delta;
            &&& -32768 <= delta <= 32767
            &&& (delta >= 0 ==> delta == mouse_data as int / 65536)
            &&& (delta < 0 ==> delta + 65536 == mouse_data as int / 65536)
        },
        r is Some && r->Some_0.kind is HorizontalScroll ==> {
            let delta = r->Some_0.kind->HorizontalScroll_delta;
            &&& -32768 <= delta <= 32767
            &&& (delta >= 0 ==> delta == mouse_data as int / 65536)
            &&& (delta < 0 ==> delta + 65536 == mouse_data as int / 65536)
        },
{
}

/// What is counted as it happens is what would be counted at that time.
pub proof fn law_inputs_are_counted_as_they_happen(
    code: i32,
    message: u32,
    vk_code: u32,
    mouse_data: u32,
    flags: u32,
    ctrl: bool,
    key: Option<InteractionEvent>,
    mouse: Option<InteractionEvent>,
)
    requires
        call_ensures(keyboard_event_now, (code, message, vk_code, flags, ctrl), key),
        call_ensures(mouse_event_now, (code, message, mouse_data, flags), mouse),
    ensures
        key is Some ==> code >= 0 && (message == 0x0100 || message == 0x0104) && key->Some_0.kind
            is Keystroke && (key->Some_0.injected <==> flags & 0x12u32 != 0),
        mouse is Some ==> code >= 0 && mouse->Some_0.kind !is Keystroke && (mouse->Some_0.injected
            <==> flags & 0x03u32 != 0) && (mouse->Some_0.kind is Click <==> message == 0x0201
            || message == 0x0204 || message == 0x0207 || message == 0x020b),
{
}

/// The hooks are claimed once: where they are not taken, and the lock can be had. They are ready when
/// their thread says so, and its failure is told.
pub proof fn law_hooks_are_claimed_once(
    occupied: Result<bool, ()>,
    said: Result<Result<InteractionHookReadback, String>, String>,
    claimed: Result<(), HookFailure>,
    ready: Result<InteractionHookReadback, HookFailure>,
)
    requires
        call_ensures(claim_hook, (occupied,), claimed),
        call_ensures(hook_ready, (said,), ready),
    ensures
        claimed is Ok <==> occupied == Ok::<bool, ()>(false),
        occupied is Err ==> claimed->Err_0 is LockPoisoned,
        occupied == Ok::<bool, ()>(true) ==> claimed->Err_0 is AlreadyInstalled,
        ready is Ok <==> said is Ok && said->Ok_0 is Ok,
        ready is Ok ==> ready->Ok_0 == (said->Ok_0)->Ok_0,
        said is Ok && said->Ok_0 is Err ==> ready->Err_0 == HookFailure::Thread(
            (said->Ok_0)->Err_0,
        ),
        said is Err ==> ready->Err_0 == HookFailure::ExitedEarly(said->Err_0),
{
}

} // verus!
