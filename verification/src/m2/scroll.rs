//! The scroll tool.
//!
//! A call turns the wheel by a number of ticks, at once or smoothly tick by tick, where the pointer
//! is or over a point. Over a point the ticks go to the window there, as messages.

use vstd::prelude::*;

use crate::error::{invalid, params_invalid, ToolError};
use crate::geometry::{clamp32, saturating_sub32, Point};
use crate::m1::observation::{handle_bits, handle_hex};
use crate::m2::action::{cap_ms, capped_ms, not_requested, point_text, postcondition_not_requested,
    print_point, print_screen_point, screen_text, ActPostcondition, ActionError, Backend};
use crate::numerals::{decimal, decimal_text, hex_text, hexadecimal, signed_decimal, signed_text};
use crate::text::{cat2, cat3, cat4, cat5, cat6, cat7, join_texts, joined_with, views};

verus! {

/// Time, in milliseconds, between two steps of a smooth scroll.
pub const SMOOTH_SCROLL_INTERVAL_MS: u32 = 30;

/// Most steps of a smooth scroll.
pub const MAX_SMOOTH_SCROLL_STEPS: u32 = 120;

/// Most messages that a scroll over a point takes along one axis.
pub const MAX_TARGETED_WHEEL_MESSAGES: usize = 1024;

/// The message that turns the wheel up and down.
pub const WM_MOUSEWHEEL: u32 = 0x020a;

/// The message that turns the wheel sideways.
pub const WM_MOUSEHWHEEL: u32 = 0x020e;

/// A call of the tool.
#[derive(Debug)]
pub struct ActScrollParams {
    pub dy: i32,
    pub dx: i32,
    pub at: Option<ActScrollPoint>,
    pub smooth: bool,
    pub verify_delta: bool,
    pub verify_timeout_ms: u32,
}

/// Where to scroll.
#[derive(Clone, Copy, Debug, PartialEq, Eq, Structural)]
pub struct ActScrollPoint {
    pub x: i32,
    pub y: i32,
}

impl From<ActScrollPoint> for Point {
    fn from(value: ActScrollPoint) -> (r: Point) {
        Point { x: value.x, y: value.y }
    }
}

impl vstd::std_specs::convert::FromSpecImpl<ActScrollPoint> for Point {
    open spec fn obeys_from_spec() -> bool {
        true
    }

    open spec fn from_spec(value: ActScrollPoint) -> Point {
        Point { x: value.x, y: value.y }
    }
}

/// The answer to a call.
#[derive(Debug, PartialEq, Eq)]
pub struct ActScrollResponse {
    pub ok: bool,
    pub dy: i32,
    pub dx: i32,
    pub smooth: bool,
    pub scrolled: bool,
    pub wheel_event_count: u32,
    pub smooth_interval_ms: u32,
    pub scheduled_smooth_total_ms: u32,
    pub backend_used: String,
    pub elapsed_ms: u32,
    pub postcondition: ActPostcondition,
}

/// One turn of the wheel.
#[derive(Clone, Copy, Debug, PartialEq, Eq, Structural)]
pub struct ScrollAction {
    pub dy: i32,
    pub dx: i32,
    pub at: Option<Point>,
    pub backend: Backend,
}

// ---------------------------------------------------------------------------------------------
// Steps
// ---------------------------------------------------------------------------------------------

/// The distance from zero.
pub open spec fn magnitude(n: int) -> nat {
    if n >= 0 {
        n as nat
    } else {
        (-n) as nat
    }
}

/// One with the sign of a number, or zero.
pub open spec fn sign(n: int) -> int {
    if n > 0 {
        1
    } else if n < 0 {
        -1
    } else {
        0
    }
}

/// A distance in the direction of a number.
pub open spec fn directed(like: int, distance: int) -> int {
    if like < 0 {
        -distance
    } else {
        distance
    }
}

/// The number of steps of a smooth scroll: one for each tick along the longer axis.
pub open spec fn smooth_steps(dy: i32, dx: i32) -> nat {
    if magnitude(dy as int) >= magnitude(dx as int) {
        magnitude(dy as int)
    } else {
        magnitude(dx as int)
    }
}

fn magnitude_of(n: i32) -> (r: u32)
    ensures
        r == magnitude(n as int),
{
    if n >= 0 {
        n as u32
    } else {
        (-(n as i64)) as u32
    }
}

/// The number of steps of a smooth scroll.
pub fn smooth_step_count(dy: i32, dx: i32) -> (r: u32)
    ensures
        r == smooth_steps(dy, dx),
{
    let vertical: u32 = magnitude_of(dy);
    let horizontal: u32 = magnitude_of(dx);
    if vertical >= horizontal {
        vertical
    } else {
        horizontal
    }
}

/// Whether a smooth scroll has too many steps.
pub open spec fn too_smooth(params: ActScrollParams) -> bool {
    params.smooth && smooth_steps(params.dy, params.dx) > MAX_SMOOTH_SCROLL_STEPS
}

/// Why a smooth scroll has too many steps.
pub open spec fn too_smooth_message(params: ActScrollParams) -> Seq<char> {
    "act_scroll smooth=true step count "@ + decimal(smooth_steps(params.dy, params.dx))
        + " exceeds max 120"@
}

/// Checks a call.
pub fn validate_scroll_params(params: &ActScrollParams) -> (r: Result<(), ToolError>)
    ensures
        match r {
            Ok(_) => !too_smooth(*params),
            Err(e) => too_smooth(*params) && e@ == params_invalid(too_smooth_message(*params)),
        },
{
    if params.smooth {
        let step_count: u32 = smooth_step_count(params.dy, params.dx);
        if step_count > MAX_SMOOTH_SCROLL_STEPS {
            let number = decimal_text(step_count as u64);
            return Err(
                invalid(
                    cat3(
                        "act_scroll smooth=true step count ",
                        number.as_str(),
                        " exceeds max 120",
                    ),
                ),
            );
        }
    }
    Ok(())
}

/// Takes one tick off a number of ticks, towards zero.
pub fn take_tick(value: &mut i32) -> (r: i32)
    ensures
        r == sign(*old(value) as int),
        *final(value) == *old(value) - sign(*old(value) as int),
{
    if *value < 0 {
        *value = *value + 1;
        -1
    } else if *value > 0 {
        *value = *value - 1;
        1
    } else {
        0
    }
}

/// The tick along one axis at one step: one in the direction of the scroll, while any is left.
pub open spec fn tick(total: int, step: int) -> int {
    if step < magnitude(total) {
        sign(total)
    } else {
        0
    }
}

/// The point of a call.
pub open spec fn point_of(at: Option<ActScrollPoint>) -> Option<Point> {
    match at {
        Some(p) => Some(Point { x: p.x, y: p.y }),
        None => None,
    }
}

/// One step of a smooth scroll; the first one goes to the point.
pub open spec fn smooth_action(params: ActScrollParams, step: int) -> ScrollAction {
    ScrollAction {
        dy: tick(params.dy as int, step) as i32,
        dx: tick(params.dx as int, step) as i32,
        at: if step == 0 {
            point_of(params.at)
        } else {
            None
        },
        backend: Backend::Auto,
    }
}

/// The turns of the wheel that a call takes.
pub open spec fn actions_of(params: ActScrollParams) -> Seq<ScrollAction> {
    if params.smooth {
        Seq::new(smooth_steps(params.dy, params.dx), |i: int| smooth_action(params, i))
    } else {
        seq![
            ScrollAction {
                dy: params.dy,
                dx: params.dx,
                at: point_of(params.at),
                backend: Backend::Auto,
            },
        ]
    }
}

fn point_of_call(at: Option<ActScrollPoint>) -> (r: Option<Point>)
    ensures
        r == point_of(at),
{
    match at {
        Some(p) => Some(Point { x: p.x, y: p.y }),
        None => None,
    }
}

/// The ticks that are left along one axis after some steps.
pub open spec fn ticks_left(total: int, steps: int) -> int {
    if steps >= magnitude(total) {
        0
    } else {
        directed(total, magnitude(total) - steps)
    }
}

/// The turns of the wheel that a call takes.
pub fn scroll_actions(params: &ActScrollParams) -> (r: Vec<ScrollAction>)
    ensures
        r@ == actions_of(*params),
{
    let mut actions: Vec<ScrollAction> = Vec::new();
    if !params.smooth {
        actions.push(
            ScrollAction {
                dy: params.dy,
                dx: params.dx,
                at: point_of_call(params.at),
                backend: Backend::Auto,
            },
        );
        assert(actions@ =~= actions_of(*params));
        return actions;
    }
    let step_count: u32 = smooth_step_count(params.dy, params.dx);
    let mut vertical: i32 = params.dy;
    let mut horizontal: i32 = params.dx;
    let mut step: u32 = 0;
    while step < step_count
        invariant
            params.smooth,
            step <= step_count,
            step_count == smooth_steps(params.dy, params.dx),
            vertical == ticks_left(params.dy as int, step as int),
            horizontal == ticks_left(params.dx as int, step as int),
            actions@.len() == step,
            forall|i: int| 0 <= i < step ==> #[trigger] actions@[i] == smooth_action(*params, i),
        decreases step_count - step,
    {
        let dy: i32 = take_tick(&mut vertical);
        let dx: i32 = take_tick(&mut horizontal);
        let at: Option<Point> = if step == 0 {
            point_of_call(params.at)
        } else {
            None
        };
        actions.push(ScrollAction { dy, dx, at, backend: Backend::Auto });
        step += 1;
    }
    assert(actions@ =~= actions_of(*params));
    actions
}

/// Whether a smooth scroll waits after a step: after each but the last.
pub fn waits_after(smooth: bool, action_count: usize, index: usize) -> (r: bool)
    ensures
        r == (smooth && index + 1 < action_count),
{
    smooth && action_count > 0 && index < action_count - 1
}

// ---------------------------------------------------------------------------------------------
// Messages
// ---------------------------------------------------------------------------------------------

/// The number of messages that some ticks take.
pub open spec fn chunk_count(ticks: int) -> nat {
    ((magnitude(ticks) + 272) / 273) as nat
}

/// What one message counts: up to 273 ticks of 120, which is what fits.
pub open spec fn chunk(ticks: int, i: int) -> int {
    let left = magnitude(ticks) - 273 * i;
    if left < 273 {
        directed(ticks, 120 * left)
    } else {
        directed(ticks, 32760)
    }
}

/// What the messages count.
pub open spec fn chunks(ticks: int) -> Seq<int> {
    Seq::new(chunk_count(ticks), |i: int| chunk(ticks, i))
}

/// Numbers as mathematical integers.
pub open spec fn deltas(v: Seq<i16>) -> Seq<int> {
    Seq::new(v.len(), |i: int| v[i] as int)
}

/// Why some ticks take too many messages.
pub open spec fn too_many_messages(ticks: i32) -> Seq<char> {
    "act_scroll targeted wheel message count exceeds 1024 for ticks="@ + signed_decimal(
        ticks as int,
    )
}

/// The error that says that a target is not valid.
pub open spec fn is_target_invalid(e: ActionError, detail: Seq<char>) -> bool {
    e matches ActionError::TargetInvalid { detail: d } && d@ == detail
}

/// Splits ticks into what messages count.
pub fn wheel_delta_chunks(ticks: i32) -> (r: Result<Vec<i16>, ActionError>)
    ensures
        match r {
            Ok(v) => chunk_count(ticks as int) <= 1024 && deltas(v@) == chunks(ticks as int),
            Err(e) => chunk_count(ticks as int) > 1024 && is_target_invalid(
                e,
                too_many_messages(ticks),
            ),
        },
{
    let mut remaining: i32 = ticks;
    let mut out: Vec<i16> = Vec::new();
    while remaining != 0
        invariant
            out@.len() <= 1024,
            remaining == 0 ==> out@.len() == chunk_count(ticks as int),
            remaining != 0 ==> sign(remaining as int) == sign(ticks as int) && magnitude(
                remaining as int,
            ) == magnitude(ticks as int) - 273 * out@.len(),
            forall|i: int| 0 <= i < out@.len() ==> #[trigger] out@[i] == chunk(ticks as int, i),
        decreases magnitude(remaining as int),
    {
        if out.len() >= MAX_TARGETED_WHEEL_MESSAGES {
            let number = signed_text(ticks as i64);
            return Err(
                ActionError::TargetInvalid {
                    detail: cat2(
                        "act_scroll targeted wheel message count exceeds 1024 for ticks=",
                        number.as_str(),
                    ),
                },
            );
        }
        let step: i32 = if remaining > 273 {
            273
        } else if remaining < -273 {
            -273
        } else {
            remaining
        };
        let delta: i32 = step * 120;
        out.push(delta as i16);
        remaining = remaining - step;
    }
    assert(deltas(out@) =~= chunks(ticks as int));
    Ok(out)
}

/// The sixteen bits of a number as an unsigned number.
pub open spec fn word(n: int) -> int {
    if n >= 0 {
        n
    } else {
        n + 65536
    }
}

fn word_of(n: i16) -> (r: u32)
    ensures
        r == word(n as int),
{
    if n >= 0 {
        n as u32
    } else {
        (n as i32 + 65536) as u32
    }
}

/// What a message counts, in the high word of its first parameter.
pub open spec fn packed_delta(delta: i16) -> int {
    word(delta as int) * 65536
}

/// Packs what a message counts.
pub fn wheel_wparam(delta: i16) -> (r: usize)
    ensures
        r == packed_delta(delta),
{
    let high: u32 = word_of(delta);
    (high * 65536) as usize
}

/// Whether a number fits a word.
pub open spec fn fits_word(n: int) -> bool {
    -32768 <= n <= 32767
}

/// Both coordinates in one number: the column in the low word, the row in the high word.
pub open spec fn packed_point(point: Point) -> int {
    word(point.y as int) * 65536 + word(point.x as int)
}

/// Why a point does not fit a message, if it does not.
pub open spec fn point_misfit(point: Point) -> Option<Seq<char>> {
    if !fits_word(point.x as int) {
        Some(
            "act_scroll screen x "@ + signed_decimal(point.x as int)
                + " cannot fit a WM_MOUSE*WHEEL lParam i16: "@ + OUT_OF_RANGE@,
        )
    } else if !fits_word(point.y as int) {
        Some(
            "act_scroll screen y "@ + signed_decimal(point.y as int)
                + " cannot fit a WM_MOUSE*WHEEL lParam i16: "@ + OUT_OF_RANGE@,
        )
    } else {
        None
    }
}

/// What a failed conversion between integers says of itself.
pub const OUT_OF_RANGE: &'static str = "out of range integral type conversion attempted";

/// Packs a point: both coordinates in the second parameter of a message.
pub fn screen_lparam(point: Point) -> (r: Result<isize, ActionError>)
    ensures
        match r {
            Ok(packed) => point_misfit(point) is None && packed == (if packed_point(point)
                <= isize::MAX {
                packed_point(point)
            } else {
                isize::MAX as int
            }),
            Err(e) => point_misfit(point) is Some && is_target_invalid(
                e,
                point_misfit(point)->Some_0,
            ),
        },
{
    if point.x < -32768 || point.x > 32767 {
        let number = signed_text(point.x as i64);
        return Err(
            ActionError::TargetInvalid {
                detail: cat4(
                    "act_scroll screen x ",
                    number.as_str(),
                    " cannot fit a WM_MOUSE*WHEEL lParam i16: ",
                    OUT_OF_RANGE,
                ),
            },
        );
    }
    if point.y < -32768 || point.y > 32767 {
        let number = signed_text(point.y as i64);
        return Err(
            ActionError::TargetInvalid {
                detail: cat4(
                    "act_scroll screen y ",
                    number.as_str(),
                    " cannot fit a WM_MOUSE*WHEEL lParam i16: ",
                    OUT_OF_RANGE,
                ),
            },
        );
    }
    let low: u32 = word_of(point.x as i16);
    let high: u32 = word_of(point.y as i16);
    let packed: u32 = high * 65536 + low;
    if packed as u64 <= isize::MAX as u64 {
        Ok(packed as isize)
    } else {
        Ok(isize::MAX)
    }
}

/// A message that turns the wheel.
#[derive(Clone, Copy, Debug, PartialEq, Eq, Structural)]
pub struct WheelMessage {
    pub hwnd: i64,
    pub message: u32,
    pub delta: i16,
    pub wparam: usize,
    pub lparam: isize,
}

/// The message that carries one part of a scroll.
pub open spec fn carries(
    m: WheelMessage,
    hwnd: i64,
    message: u32,
    delta: int,
    point: Point,
) -> bool {
    &&& m.hwnd == hwnd
    &&& m.message == message
    &&& m.delta == delta
    &&& m.wparam == word(delta) * 65536
    &&& m.lparam == (if packed_point(point) <= isize::MAX {
        packed_point(point)
    } else {
        isize::MAX as int
    })
}

/// Why ticks cannot be sent to a window, if they cannot.
pub open spec fn send_fault(ticks: i32, hwnd: i64, point: Point) -> Option<Seq<char>> {
    if chunk_count(ticks as int) > 1024 {
        Some(too_many_messages(ticks))
    } else if ticks == 0 {
        None
    } else if hwnd == 0 {
        Some("act_scroll target hwnd is null"@)
    } else {
        point_misfit(point)
    }
}

/// The messages that turn the wheel by some ticks.
pub fn post_wheel_message(hwnd: i64, message: u32, ticks: i32, point: Point) -> (r: Result<
    Vec<WheelMessage>,
    ActionError,
>)
    ensures
        match r {
            Ok(messages) => {
                &&& send_fault(ticks, hwnd, point) is None
                &&& messages@.len() == chunk_count(ticks as int)
                &&& forall|i: int|
                    0 <= i < messages@.len() ==> carries(
                        #[trigger] messages@[i],
                        hwnd,
                        message,
                        chunk(ticks as int, i),
                        point,
                    )
            },
            Err(e) => send_fault(ticks, hwnd, point) is Some && is_target_invalid(
                e,
                send_fault(ticks, hwnd, point)->Some_0,
            ),
        },
{
    let parts: Vec<i16> = match wheel_delta_chunks(ticks) {
        Ok(parts) => parts,
        Err(e) => {
            return Err(e);
        },
    };
    let mut messages: Vec<WheelMessage> = Vec::new();
    assert(parts@.len() == deltas(parts@).len());
    if parts.len() == 0 {
        assert(ticks == 0);
        return Ok(messages);
    }
    if hwnd == 0 {
        return Err(
            ActionError::TargetInvalid { detail: "act_scroll target hwnd is null".to_owned() },
        );
    }
    let lparam: isize = match screen_lparam(point) {
        Ok(lparam) => lparam,
        Err(e) => {
            return Err(e);
        },
    };
    let mut i: usize = 0;
    while i < parts.len()
        invariant
            i <= parts@.len(),
            deltas(parts@) == chunks(ticks as int),
            messages@.len() == i,
            lparam == (if packed_point(point) <= isize::MAX {
                packed_point(point)
            } else {
                isize::MAX as int
            }),
            forall|k: int|
                0 <= k < i ==> carries(
                    #[trigger] messages@[k],
                    hwnd,
                    message,
                    chunk(ticks as int, k),
                    point,
                ),
        decreases parts@.len() - i,
    {
        let delta: i16 = parts[i];
        proof {
            assert(deltas(parts@).len() == chunks(ticks as int).len());
            assert(deltas(parts@)[i as int] == delta);
            assert(chunks(ticks as int)[i as int] == chunk(ticks as int, i as int));
        }
        messages.push(
            WheelMessage { hwnd, message, delta, wparam: wheel_wparam(delta), lparam },
        );
        i += 1;
    }
    assert(parts@.len() == chunks(ticks as int).len());
    Ok(messages)
}

/// The error for a message that could not be posted. `error` is what the platform said.
pub fn post_failed(m: &WheelMessage, point: Point, error: &str) -> (r: ActionError)
    ensures
        r matches ActionError::BackendUnavailable { detail } && detail@
            == "PostMessageW act_scroll wheel message 0x"@ + hexadecimal(m.message as nat)
            + " failed for hwnd 0x"@ + hexadecimal(handle_bits(m.hwnd)) + " screen_point="@
            + point_text(point) + " delta="@ + signed_decimal(m.delta as int) + ": "@ + error@,
{
    let message = hex_text(m.message as u64);
    let hwnd = handle_hex(m.hwnd);
    let at = print_point(point);
    let delta = signed_text(m.delta as i64);
    let head = cat6(
        "PostMessageW act_scroll wheel message 0x",
        message.as_str(),
        " failed for hwnd 0x",
        hwnd.as_str(),
        " screen_point=",
        at.as_str(),
    );
    ActionError::BackendUnavailable {
        detail: cat5(head.as_str(), " delta=", delta.as_str(), ": ", error),
    }
}

// ---------------------------------------------------------------------------------------------
// The window under a point
// ---------------------------------------------------------------------------------------------

/// The rectangle of a window.
#[derive(Clone, Copy, Debug, PartialEq, Eq, Structural)]
pub struct WindowRect {
    pub left: i32,
    pub top: i32,
    pub right: i32,
    pub bottom: i32,
}

impl WindowRect {
    /// Whether a point lies in the rectangle.
    pub open spec fn holds(self, point: Point) -> bool {
        self.left <= point.x < self.right && self.top <= point.y < self.bottom
    }

    /// The area, with each side cut off at the bounds of an `i32`.
    pub open spec fn area(self) -> int {
        let w = clamp32(self.right - self.left);
        let h = clamp32(self.bottom - self.top);
        (if w > 0 {
            w as int
        } else {
            0
        }) * (if h > 0 {
            h as int
        } else {
            0
        })
    }

    /// The rectangle as messages print it.
    pub open spec fn text(self) -> Seq<char> {
        "("@ + signed_decimal(self.left as int) + ", "@ + signed_decimal(self.top as int) + ", "@
            + signed_decimal(self.right as int) + ", "@ + signed_decimal(self.bottom as int)
            + ")"@
    }

    fn print(self) -> (r: String)
        ensures
            r@ == self.text(),
    {
        let left = signed_text(self.left as i64);
        let top = signed_text(self.top as i64);
        let right = signed_text(self.right as i64);
        let bottom = signed_text(self.bottom as i64);
        let head = cat7("(", left.as_str(), ", ", top.as_str(), ", ", right.as_str(), ", ");
        cat3(head.as_str(), bottom.as_str(), ")")
    }
}

/// Says whether a point lies in a rectangle.
pub fn rect_contains_point(rect: &WindowRect, point: Point) -> (r: bool)
    ensures
        r == rect.holds(point),
{
    point.x >= rect.left && point.x < rect.right && point.y >= rect.top && point.y < rect.bottom
}

/// The area of a rectangle.
pub fn rect_area(rect: &WindowRect) -> (r: i64)
    ensures
        r == rect.area(),
{
    let w: i32 = saturating_sub32(rect.right, rect.left);
    let h: i32 = saturating_sub32(rect.bottom, rect.top);
    let width: i64 = if w > 0 {
        w as i64
    } else {
        0
    };
    let height: i64 = if h > 0 {
        h as i64
    } else {
        0
    };
    proof {
        assert(0 <= width * height <= 0x7fff_ffff * 0x7fff_ffff) by (nonlinear_arith)
            requires
                0 <= width <= 0x7fff_ffff,
                0 <= height <= 0x7fff_ffff,
        ;
    }
    width * height
}

/// What is read of a window.
#[derive(Debug)]
pub struct WindowFacts {
    pub hwnd: i64,
    pub visible: bool,
    /// The rectangle, where it could be read.
    pub rect: Option<WindowRect>,
    pub class_name: String,
}

/// What is read of the outermost window under a point.
#[derive(Debug)]
pub struct RootFacts {
    pub hwnd: i64,
    pub live: bool,
    pub rect: Result<WindowRect, ActionError>,
    pub class_name: String,
}

/// What is read of the windows under a point.
#[derive(Debug)]
pub struct PointFacts {
    /// The window at the point, where there is one.
    pub seed: Option<WindowFacts>,
    pub root: RootFacts,
    /// The windows within the outermost one, in the order in which they are listed.
    pub children: Vec<WindowFacts>,
}

/// The window that takes the messages.
#[derive(Debug, PartialEq, Eq)]
pub struct ScrollTarget {
    pub hwnd: i64,
    pub class_name: String,
}

/// Whether a window can take the messages: it is visible, and has an area that holds the point.
pub open spec fn can_take(window: WindowFacts, point: Point) -> bool {
    &&& window.visible
    &&& window.rect matches Some(rect) && rect.holds(point) && rect.area() > 0
}

/// Whether a window is the one among others that takes the messages: the smallest, and the first of
/// those.
pub open spec fn is_smallest(windows: Seq<WindowFacts>, point: Point, at: int) -> bool {
    &&& 0 <= at < windows.len()
    &&& can_take(windows[at], point)
    &&& forall|j: int|
        0 <= j < windows.len() && can_take(#[trigger] windows[j], point) ==> (
        windows[at].rect->Some_0.area() < windows[j].rect->Some_0.area() || (
        windows[at].rect->Some_0.area() == windows[j].rect->Some_0.area() && at <= j))
}

fn takes(window: &WindowFacts, point: Point) -> (r: bool)
    ensures
        r == can_take(*window, point),
{
    if !window.visible {
        return false;
    }
    match &window.rect {
        Some(rect) => rect_contains_point(rect, point) && rect_area(rect) > 0,
        None => false,
    }
}

/// Picks the window within another that takes the messages.
pub fn best_child_hwnd_for_screen_point(children: &Vec<WindowFacts>, point: Point) -> (r: Option<
    usize,
>)
    ensures
        match r {
            Some(at) => is_smallest(children@, point, at as int),
            None => forall|j: int| 0 <= j < children@.len() ==> !can_take(#[trigger] children@[j], point),
        },
{
    let mut best: Option<(usize, i64)> = None;
    let mut i: usize = 0;
    while i < children.len()
        invariant
            i <= children@.len(),
            match best {
                Some(found) => {
                    &&& found.0 < i
                    &&& is_smallest(children@.subrange(0, i as int), point, found.0 as int)
                    &&& found.1 == children@[found.0 as int].rect->Some_0.area()
                },
                None => forall|j: int|
                    0 <= j < i ==> !can_take(#[trigger] children@[j], point),
            },
        decreases children@.len() - i,
    {
        let ghost before = children@.subrange(0, i as int);
        let ghost upto = children@.subrange(0, i + 1);
        proof {
            assert forall|j: int| 0 <= j < i implies #[trigger] upto[j] == before[j] by {}
            assert(upto[i as int] == children@[i as int]);
        }
        if takes(&children[i], point) {
            let area: i64 = match &children[i].rect {
                Some(rect) => rect_area(rect),
                None => 0,
            };
            match best {
                Some(found) => {
                    if area < found.1 {
                        best = Some((i, area));
                        proof {
                            assert forall|j: int|
                                0 <= j < upto.len() && can_take(#[trigger] upto[j], point) implies (
                            upto[i as int].rect->Some_0.area() < upto[j].rect->Some_0.area() || (
                            upto[i as int].rect->Some_0.area() == upto[j].rect->Some_0.area() && i
                                <= j)) by {
                                if j < i {
                                    assert(before[j] == upto[j]);
                                }
                            }
                            assert(is_smallest(upto, point, i as int));
                        }
                    } else {
                        proof {
                            assert forall|j: int|
                                0 <= j < upto.len() && can_take(#[trigger] upto[j], point) implies (
                            upto[found.0 as int].rect->Some_0.area() < upto[j].rect->Some_0.area()
                                || (upto[found.0 as int].rect->Some_0.area()
                                == upto[j].rect->Some_0.area() && found.0 <= j)) by {
                                if j < i {
                                    assert(before[j] == upto[j]);
                                }
                            }
                            assert(upto[found.0 as int] == before[found.0 as int]);
                            assert(is_smallest(upto, point, found.0 as int));
                        }
                    }
                },
                None => {
                    best = Some((i, area));
                    proof {
                        assert forall|j: int|
                            0 <= j < upto.len() && can_take(#[trigger] upto[j], point) implies j
                            == i by {
                            if j < i {
                                assert(upto[j] == children@[j]);
                            }
                        }
                        assert(is_smallest(upto, point, i as int));
                    }
                },
            }
        } else {
            proof {
                if let Some(found) = best {
                    assert forall|j: int|
                        0 <= j < upto.len() && can_take(#[trigger] upto[j], point) implies (
                    upto[found.0 as int].rect->Some_0.area() < upto[j].rect->Some_0.area() || (
                    upto[found.0 as int].rect->Some_0.area() == upto[j].rect->Some_0.area()
                        && found.0 <= j)) by {
                        if j < i {
                            assert(before[j] == upto[j]);
                        }
                    }
                    assert(upto[found.0 as int] == before[found.0 as int]);
                    assert(is_smallest(upto, point, found.0 as int));
                }
            }
        }
        i += 1;
    }
    assert(children@.subrange(0, children@.len() as int) =~= children@);
    match best {
        Some(found) => Some(found.0),
        None => None,
    }
}

/// Why no window can take the messages, if none can and the outermost window's rectangle could be
/// read.
pub open spec fn target_fault(point: Point, facts: PointFacts) -> Option<Seq<char>> {
    if facts.seed is None {
        Some("act_scroll at point "@ + point_text(point) + " is not over a live window"@)
    } else if !facts.root.live {
        Some(
            "act_scroll root hwnd 0x"@ + hexadecimal(handle_bits(facts.root.hwnd)) + " for point "@
                + point_text(point) + " is not a live window"@,
        )
    } else if facts.root.rect is Ok && !(facts.root.rect->Ok_0).holds(point) {
        Some(
            "act_scroll point "@ + point_text(point) + " is outside root hwnd 0x"@ + hexadecimal(
                handle_bits(facts.root.hwnd),
            ) + " rect "@ + (facts.root.rect->Ok_0).text(),
        )
    } else {
        None
    }
}

/// The window that takes the messages: the one at the point, or else the smallest within the
/// outermost window that holds the point, or else the outermost window itself.
pub open spec fn is_scroll_target(
    target: ScrollTarget,
    point: Point,
    seed: WindowFacts,
    children: Seq<WindowFacts>,
    root: ScrollTarget,
) -> bool {
    if can_take(seed, point) {
        target.hwnd == seed.hwnd && target.class_name == seed.class_name
    } else if exists|j: int| 0 <= j < children.len() && can_take(#[trigger] children[j], point) {
        exists|at: int| #[trigger]
            is_smallest(children, point, at) && target.hwnd == children[at].hwnd
                && target.class_name == children[at].class_name
    } else {
        target == root
    }
}

/// Picks the window that takes the messages, given that the outermost window holds the point.
pub fn hit_test_hwnd_for_screen_point(
    seed: &WindowFacts,
    children: &Vec<WindowFacts>,
    root: ScrollTarget,
    point: Point,
) -> (r: ScrollTarget)
    ensures
        is_scroll_target(r, point, *seed, children@, root),
{
    if takes(seed, point) {
        return ScrollTarget { hwnd: seed.hwnd, class_name: seed.class_name.clone() };
    }
    match best_child_hwnd_for_screen_point(children, point) {
        Some(at) => {
            assert(can_take(children@[at as int], point));
            assert(is_smallest(children@, point, at as int));
            ScrollTarget {
                hwnd: children[at].hwnd,
                class_name: children[at].class_name.clone(),
            }
        },
        None => root,
    }
}

/// Picks the window that takes the messages.
pub fn windows_hwnd_message_scroll_readback(point: Point, facts: PointFacts) -> (r: Result<
    ScrollTarget,
    ActionError,
>)
    ensures
        if target_fault(point, facts) is Some {
            r matches Err(e) && is_target_invalid(e, target_fault(point, facts)->Some_0)
        } else if facts.root.rect is Err {
            r == Err::<ScrollTarget, ActionError>(facts.root.rect->Err_0)
        } else if point_misfit(point) is Some {
            r matches Err(e) && is_target_invalid(e, point_misfit(point)->Some_0)
        } else {
            r matches Ok(target) && is_scroll_target(
                target,
                point,
                facts.seed->Some_0,
                facts.children@,
                (ScrollTarget { hwnd: facts.root.hwnd, class_name: facts.root.class_name }),
            )
        },
{
    let PointFacts { seed, root, children } = facts;
    let seed: WindowFacts = match seed {
        Some(seed) => seed,
        None => {
            let at = print_point(point);
            return Err(
                ActionError::TargetInvalid {
                    detail: cat3(
                        "act_scroll at point ",
                        at.as_str(),
                        " is not over a live window",
                    ),
                },
            );
        },
    };
    if !root.live {
        let at = print_point(point);
        let hwnd = handle_hex(root.hwnd);
        return Err(
            ActionError::TargetInvalid {
                detail: cat5(
                    "act_scroll root hwnd 0x",
                    hwnd.as_str(),
                    " for point ",
                    at.as_str(),
                    " is not a live window",
                ),
            },
        );
    }
    let root_rect: WindowRect = match root.rect {
        Ok(rect) => rect,
        Err(e) => {
            return Err(e);
        },
    };
    if !rect_contains_point(&root_rect, point) {
        let at = print_point(point);
        let hwnd = handle_hex(root.hwnd);
        let rect = root_rect.print();
        return Err(
            ActionError::TargetInvalid {
                detail: cat6(
                    "act_scroll point ",
                    at.as_str(),
                    " is outside root hwnd 0x",
                    hwnd.as_str(),
                    " rect ",
                    rect.as_str(),
                ),
            },
        );
    }
    let outermost = ScrollTarget { hwnd: root.hwnd, class_name: root.class_name };
    let target = hit_test_hwnd_for_screen_point(&seed, &children, outermost, point);
    if let Err(e) = screen_lparam(point) {
        return Err(e);
    }
    Ok(target)
}

/// The error for a rectangle that could not be read. `error` is what the platform said.
pub fn window_rect_error(hwnd: i64, error: &str) -> (r: ActionError)
    ensures
        r matches ActionError::ElementNotResolved { detail } && detail@
            == "GetWindowRect failed for act_scroll hwnd 0x"@ + hexadecimal(handle_bits(hwnd))
            + ": "@ + error@,
{
    let handle = handle_hex(hwnd);
    ActionError::ElementNotResolved {
        detail: cat4("GetWindowRect failed for act_scroll hwnd 0x", handle.as_str(), ": ", error),
    }
}

/// The error for a platform that cannot send messages to windows.
pub fn targeted_scroll_unavailable(point: Point) -> (r: ActionError)
    ensures
        r matches ActionError::BackendUnavailable { detail } && detail@ == "act_scroll at="@
            + point_text(point) + " targeted window-message path requires Windows"@,
{
    let at = print_point(point);
    ActionError::BackendUnavailable {
        detail: cat3(
            "act_scroll at=",
            at.as_str(),
            " targeted window-message path requires Windows",
        ),
    }
}

// ---------------------------------------------------------------------------------------------
// A whole call
// ---------------------------------------------------------------------------------------------

/// What a call does.
#[derive(Debug)]
pub enum ScrollPlan {
    /// Nothing: there are no ticks.
    Nothing,
    /// Record the turns of the wheel.
    Record { actions: Vec<ScrollAction> },
    /// Send the ticks to the window at a point.
    Targeted { point: Point },
    /// Turn the wheel.
    Live { actions: Vec<ScrollAction> },
}

/// Decides what a call does. `recording` says whether input is recorded only.
pub fn plan_scroll(params: &ActScrollParams, recording: bool) -> (r: Result<ScrollPlan, ToolError>)
    ensures
        if too_smooth(*params) {
            r matches Err(e) && e@ == params_invalid(too_smooth_message(*params))
        } else if params.dy == 0 && params.dx == 0 {
            r matches Ok(ScrollPlan::Nothing)
        } else if recording {
            r matches Ok(ScrollPlan::Record { actions }) && actions@ == actions_of(*params)
        } else if params.at is Some {
            r matches Ok(ScrollPlan::Targeted { point }) && Some(point) == point_of(params.at)
        } else {
            r matches Ok(ScrollPlan::Live { actions }) && actions@ == actions_of(*params)
        },
{
    if let Err(e) = validate_scroll_params(params) {
        return Err(e);
    }
    if params.dy == 0 && params.dx == 0 {
        return Ok(ScrollPlan::Nothing);
    }
    if recording {
        return Ok(ScrollPlan::Record { actions: scroll_actions(params) });
    }
    match point_of_call(params.at) {
        Some(point) => Ok(ScrollPlan::Targeted { point }),
        None => Ok(ScrollPlan::Live { actions: scroll_actions(params) }),
    }
}

/// A count as a `u32`, cut off at its bound.
pub open spec fn event_count(n: nat) -> u32 {
    if n <= u32::MAX {
        n as u32
    } else {
        u32::MAX
    }
}

/// The time that the steps of a smooth scroll take, in milliseconds, cut off at the bounds of a
/// `u32`.
pub open spec fn smooth_total(smooth: bool, count: u32) -> u32 {
    if !smooth || count == 0 {
        0
    } else if (count - 1) * 30 <= u32::MAX {
        ((count - 1) * 30) as u32
    } else {
        u32::MAX
    }
}

/// The time that the steps of a smooth scroll take.
pub fn scheduled_smooth_total_ms(smooth: bool, wheel_event_count: u32) -> (r: u32)
    ensures
        r == smooth_total(smooth, wheel_event_count),
{
    if !smooth || wheel_event_count == 0 {
        return 0;
    }
    let total: u64 = (wheel_event_count as u64 - 1) * 30;
    if total <= u32::MAX as u64 {
        total as u32
    } else {
        u32::MAX
    }
}

/// The answer to a call.
pub open spec fn is_response(
    response: ActScrollResponse,
    params: ActScrollParams,
    scrolled: bool,
    count: nat,
    backend_used: Seq<char>,
    elapsed_ms: u128,
) -> bool {
    &&& response.ok
    &&& response.dy == params.dy
    &&& response.dx == params.dx
    &&& response.smooth == params.smooth
    &&& response.scrolled == scrolled
    &&& response.wheel_event_count == event_count(count)
    &&& response.smooth_interval_ms == (if params.smooth {
        SMOOTH_SCROLL_INTERVAL_MS
    } else {
        0
    })
    &&& response.scheduled_smooth_total_ms == smooth_total(params.smooth, event_count(count))
    &&& response.backend_used@ == backend_used
    &&& response.elapsed_ms == capped_ms(elapsed_ms)
    &&& not_requested(
        response.postcondition,
        "act_scroll"@,
        "target_point_pixels_or_foreground_ui"@,
    )
}

/// The answer to a call.
pub fn response(
    params: &ActScrollParams,
    scrolled: bool,
    wheel_event_count: usize,
    backend_used: &str,
    elapsed_ms: u128,
) -> (r: ActScrollResponse)
    ensures
        is_response(r, *params, scrolled, wheel_event_count as nat, backend_used@, elapsed_ms),
{
    let count: u32 = if wheel_event_count as u64 <= u32::MAX as u64 {
        wheel_event_count as u32
    } else {
        u32::MAX
    };
    ActScrollResponse {
        ok: true,
        dy: params.dy,
        dx: params.dx,
        smooth: params.smooth,
        scrolled,
        wheel_event_count: count,
        smooth_interval_ms: if params.smooth {
            SMOOTH_SCROLL_INTERVAL_MS
        } else {
            0
        },
        scheduled_smooth_total_ms: scheduled_smooth_total_ms(params.smooth, count),
        backend_used: backend_used.to_owned(),
        elapsed_ms: cap_ms(elapsed_ms),
        postcondition: postcondition_not_requested(
            "act_scroll",
            "target_point_pixels_or_foreground_ui",
        ),
    }
}

/// Answers a call. `executed` is how the plan went, with the number of messages that were posted
/// where they go to a window.
pub fn act_scroll_with_handle(
    params: &ActScrollParams,
    recording: bool,
    executed: Result<usize, ToolError>,
    elapsed_ms: u128,
) -> (r: Result<ActScrollResponse, ToolError>)
    ensures
        if too_smooth(*params) {
            r matches Err(e) && e@ == params_invalid(too_smooth_message(*params))
        } else if params.dy == 0 && params.dx == 0 {
            r matches Ok(done) && is_response(done, *params, false, 0, "none"@, elapsed_ms)
        } else {
            match executed {
                Err(e) => r == Err::<ActScrollResponse, ToolError>(e),
                Ok(posted) => if !recording && params.at is Some {
                    r matches Ok(done) && is_response(
                        done,
                        *params,
                        true,
                        posted as nat,
                        "software_window_message"@,
                        elapsed_ms,
                    )
                } else {
                    r matches Ok(done) && is_response(
                        done,
                        *params,
                        true,
                        actions_of(*params).len(),
                        "software"@,
                        elapsed_ms,
                    )
                },
            }
        },
{
    let plan: ScrollPlan = match plan_scroll(params, recording) {
        Ok(plan) => plan,
        Err(e) => {
            return Err(e);
        },
    };
    if let ScrollPlan::Nothing = plan {
        return Ok(response(params, false, 0, "none", elapsed_ms));
    }
    let posted: usize = match executed {
        Ok(posted) => posted,
        Err(e) => {
            return Err(e);
        },
    };
    match plan {
        ScrollPlan::Nothing => Ok(response(params, false, 0, "none", elapsed_ms)),
        ScrollPlan::Targeted { point } => Ok(
            response(params, true, posted, "software_window_message", elapsed_ms),
        ),
        ScrollPlan::Record { actions } => Ok(
            response(params, true, actions.len(), "software", elapsed_ms),
        ),
        ScrollPlan::Live { actions } => Ok(
            response(params, true, actions.len(), "software", elapsed_ms),
        ),
    }
}

// ---------------------------------------------------------------------------------------------
// The log of recorded input
// ---------------------------------------------------------------------------------------------

/// One recorded input.
#[derive(Debug)]
pub enum ScrollEvent {
    MouseScroll { dy: i32, dx: i32, at: Option<Point> },
    /// Any other input, as it prints itself.
    Other { text: String },
}

/// A point as the log prints it.
pub open spec fn at_text(at: Option<Point>) -> Seq<char> {
    match at {
        Some(point) => screen_text(point),
        None => "none"@,
    }
}

/// Prints a point.
pub fn at_label(at: Option<Point>) -> (r: String)
    ensures
        r@ == at_text(at),
{
    match at {
        Some(point) => print_screen_point(point),
        None => "none".to_owned(),
    }
}

/// One recorded input as the log prints it.
pub open spec fn label_of_event(event: ScrollEvent) -> Seq<char> {
    match event {
        ScrollEvent::MouseScroll { dy, dx, at } => "mouse_scroll:dy="@ + signed_decimal(dy as int)
            + ":dx="@ + signed_decimal(dx as int) + ":at="@ + at_text(at),
        ScrollEvent::Other { text } => text@,
    }
}

/// The recorded inputs as the log prints them.
pub open spec fn labels_of_events(events: Seq<ScrollEvent>) -> Seq<Seq<char>> {
    Seq::new(events.len(), |i: int| label_of_event(events[i]))
}

/// Prints one recorded input.
pub fn event_label(event: &ScrollEvent) -> (r: String)
    ensures
        r@ == label_of_event(*event),
{
    match event {
        ScrollEvent::MouseScroll { dy, dx, at } => {
            let vertical = signed_text(*dy as i64);
            let horizontal = signed_text(*dx as i64);
            let point = at_label(*at);
            cat6(
                "mouse_scroll:dy=",
                vertical.as_str(),
                ":dx=",
                horizontal.as_str(),
                ":at=",
                point.as_str(),
            )
        },
        ScrollEvent::Other { text } => text.clone(),
    }
}

/// Prints the recorded inputs.
pub fn event_sequence(events: &Vec<ScrollEvent>) -> (r: String)
    ensures
        r@ == joined_with(labels_of_events(events@), ">"@),
{
    let mut labels: Vec<String> = Vec::new();
    let mut i: usize = 0;
    while i < events.len()
        invariant
            i <= events@.len(),
            labels@.len() == i,
            forall|k: int| 0 <= k < i ==> (#[trigger] labels@[k])@ == label_of_event(events@[k]),
        decreases events@.len() - i,
    {
        labels.push(event_label(&events[i]));
        i += 1;
    }
    assert(views(labels@) =~= labels_of_events(events@));
    join_texts(&labels, ">")
}

// ---------------------------------------------------------------------------------------------
// Laws
// ---------------------------------------------------------------------------------------------

/// The ticks of some turns of the wheel, up and down.
pub open spec fn sum_dy(actions: Seq<ScrollAction>) -> int
    decreases actions.len(),
{
    if actions.len() == 0 {
        0
    } else {
        sum_dy(actions.drop_last()) + actions.last().dy
    }
}

/// The ticks of some turns of the wheel, sideways.
pub open spec fn sum_dx(actions: Seq<ScrollAction>) -> int
    decreases actions.len(),
{
    if actions.len() == 0 {
        0
    } else {
        sum_dx(actions.drop_last()) + actions.last().dx
    }
}

proof fn lemma_prefix_sums(params: ActScrollParams, k: int)
    requires
        params.smooth,
        0 <= k <= smooth_steps(params.dy, params.dx),
    ensures
        sum_dy(actions_of(params).subrange(0, k)) == params.dy - ticks_left(params.dy as int, k),
        sum_dx(actions_of(params).subrange(0, k)) == params.dx - ticks_left(params.dx as int, k),
    decreases k,
{
    let all = actions_of(params);
    if k > 0 {
        lemma_prefix_sums(params, k - 1);
        assert(all.subrange(0, k).drop_last() =~= all.subrange(0, k - 1));
        assert(all.subrange(0, k).last() == smooth_action(params, k - 1));
    }
}

/// Smooth or not, the turns of the wheel add up to the ticks of the call.
pub proof fn law_actions_add_up_to_the_call(params: ActScrollParams)
    ensures
        sum_dy(actions_of(params)) == params.dy,
        sum_dx(actions_of(params)) == params.dx,
{
    let all = actions_of(params);
    if params.smooth {
        lemma_prefix_sums(params, all.len() as int);
        assert(all.subrange(0, all.len() as int) =~= all);
    } else {
        assert(all.drop_last() =~= Seq::empty());
        reveal_with_fuel(sum_dy, 2);
        reveal_with_fuel(sum_dx, 2);
    }
}

/// Each step of a smooth scroll is at most one tick along each axis, only the first goes to the
/// point, and an accepted call takes at most 120 steps.
pub proof fn law_smooth_steps_are_single_ticks(params: ActScrollParams, i: int)
    requires
        params.smooth,
        0 <= i < actions_of(params).len(),
    ensures
        -1 <= actions_of(params)[i].dy <= 1,
        -1 <= actions_of(params)[i].dx <= 1,
        i > 0 ==> actions_of(params)[i].at is None,
        !too_smooth(params) ==> actions_of(params).len() <= 120,
{
}

/// The sum of some numbers.
pub open spec fn sum(s: Seq<int>) -> int
    decreases s.len(),
{
    if s.len() == 0 {
        0
    } else {
        sum(s.drop_last()) + s.last()
    }
}

proof fn lemma_chunk_prefix_sums(ticks: int, k: int)
    requires
        0 <= k <= chunk_count(ticks),
    ensures
        sum(chunks(ticks).subrange(0, k)) == (if 273 * k <= magnitude(ticks) {
            directed(ticks, 32760 * k)
        } else {
            120 * ticks
        }),
    decreases k,
{
    let all = chunks(ticks);
    if k > 0 {
        lemma_chunk_prefix_sums(ticks, k - 1);
        assert(all.subrange(0, k).drop_last() =~= all.subrange(0, k - 1));
        assert(all.subrange(0, k).last() == chunk(ticks, k - 1));
    }
}

/// The messages count 120 for each tick.
pub proof fn law_chunks_add_up_to_the_ticks(ticks: int)
    ensures
        sum(chunks(ticks)) == 120 * ticks,
{
    let n = chunk_count(ticks) as int;
    lemma_chunk_prefix_sums(ticks, n);
    assert(chunks(ticks).subrange(0, n) =~= chunks(ticks));
}

/// Each message goes in the direction of the scroll, and fits a signed word.
pub proof fn law_chunks_fit_signed_words(ticks: int, i: int)
    requires
        0 <= i < chunks(ticks).len(),
    ensures
        magnitude(chunks(ticks)[i]) <= 32_760,
        sign(chunks(ticks)[i]) == sign(ticks),
{
}

/// The number whose sixteen bits are given as an unsigned number.
pub open spec fn signed_word(bits: int) -> int {
    if bits < 32768 {
        bits
    } else {
        bits - 65536
    }
}

/// A packed point can be unpacked again.
pub proof fn law_packed_points_unpack(point: Point)
    requires
        point_misfit(point) is None,
    ensures
        0 <= packed_point(point) <= u32::MAX,
        signed_word(packed_point(point) % 65536) == point.x,
        signed_word(packed_point(point) / 65536) == point.y,
{
}

/// What a message counts can be unpacked again.
pub proof fn law_packed_delta_unpacks(delta: i16)
    ensures
        0 <= packed_delta(delta) <= u32::MAX,
        signed_word(packed_delta(delta) / 65536) == delta,
{
}

/// A smooth scroll takes as many steps as the longer of its two ways has ticks, and is refused beyond
/// 120; any other scroll is taken.
pub proof fn law_smooth_scrolls_are_bounded(
    params: &ActScrollParams,
    steps: u32,
    r: Result<(), ToolError>,
)
    requires
        call_ensures(smooth_step_count, (params.dy, params.dx), steps),
        call_ensures(validate_scroll_params, (params,), r),
    ensures
        steps >= params.dy && steps >= -params.dy && steps >= params.dx && steps >= -params.dx,
        steps == params.dy || steps == -params.dy || steps == params.dx || steps == -params.dx,
        r is Ok <==> !params.smooth || steps <= 120,
{
}

/// A tick is taken toward zero: one from a positive number, minus one from a negative, none from zero.
pub proof fn law_ticks_are_taken_toward_zero(value: &mut i32, r: i32)
    requires
        call_ensures(take_tick, (value,), r),
    ensures
        *old(value) > 0 ==> r == 1 && *final(value) == *old(value) - 1,
        *old(value) < 0 ==> r == -1 && *final(value) == *old(value) + 1,
        *old(value) == 0 ==> r == 0 && *final(value) == 0,
{
}

/// A scroll that is not smooth is one turn of the wheel by all its ticks, at its point. A smooth one is
/// a turn for every step, by one tick each way as long as there are ticks left that way, and only the
/// first names the point.
pub proof fn law_scrolls_turn_the_wheel_as_asked(
    params: &ActScrollParams,
    steps: u32,
    r: Vec<ScrollAction>,
    i: int,
)
    requires
        call_ensures(smooth_step_count, (params.dy, params.dx), steps),
        call_ensures(scroll_actions, (params,), r),
        0 <= i < r@.len(),
    ensures
        r@[i].backend is Auto,
        i == 0 ==> (r@[0].at is Some <==> params.at is Some) && (params.at is Some
            ==> r@[0].at->Some_0.x == params.at->Some_0.x && r@[0].at->Some_0.y
            == params.at->Some_0.y),
        i > 0 ==> r@[i].at is None,
        !params.smooth ==> r@.len() == 1 && r@[0].dy == params.dy && r@[0].dx == params.dx,
        params.smooth ==> {
            &&& r@.len() == steps
            &&& (i < params.dy ==> r@[i].dy == 1)
            &&& (i < -params.dy ==> r@[i].dy == -1)
            &&& (i >= params.dy && i >= -params.dy ==> r@[i].dy == 0)
            &&& (i < params.dx ==> r@[i].dx == 1)
            &&& (i < -params.dx ==> r@[i].dx == -1)
            &&& (i >= params.dx && i >= -params.dx ==> r@[i].dx == 0)
        },
{
}

/// A smooth scroll waits behind every turn but the last; no other scroll waits.
pub proof fn law_smooth_scrolls_wait_between_turns(
    smooth: bool,
    action_count: usize,
    index: usize,
    r: bool,
)
    requires
        call_ensures(waits_after, (smooth, action_count, index), r),
        index < action_count,
    ensures
        !smooth ==> !r,
        smooth ==> (r <==> index != action_count - 1),
{
}

/// A wheel message carries at most 273 ticks of 120 each; all but the last carry as many as fit, in the
/// direction of the scroll, and together they carry all. A scroll of more than 1024 messages is
/// refused.
pub proof fn law_messages_carry_all_ticks(ticks: i32, r: Result<Vec<i16>, ActionError>, i: int)
    requires
        call_ensures(wheel_delta_chunks, (ticks,), r),
    ensures
        r is Ok <==> -279_552 <= ticks <= 279_552,
        r is Err ==> r->Err_0 is TargetInvalid,
        r is Ok && ticks >= 0 ==> 273 * (r->Ok_0@.len() - 1) < ticks || ticks == 0,
        r is Ok && ticks >= 0 ==> ticks <= 273 * r->Ok_0@.len(),
        r is Ok && ticks <= 0 ==> 273 * (r->Ok_0@.len() - 1) < -ticks || ticks == 0,
        r is Ok && ticks <= 0 ==> -ticks <= 273 * r->Ok_0@.len(),
        r is Ok && ticks == 0 ==> r->Ok_0@.len() == 0,
        r is Ok && 0 <= i < r->Ok_0@.len() - 1 && ticks > 0 ==> r->Ok_0@[i] == 32760,
        r is Ok && 0 <= i < r->Ok_0@.len() - 1 && ticks < 0 ==> r->Ok_0@[i] == -32760,
        r is Ok && ticks > 0 ==> r->Ok_0@.last() == 120 * (ticks - 273 * (r->Ok_0@.len() - 1)),
        r is Ok && ticks < 0 ==> r->Ok_0@.last() == 120 * (ticks + 273 * (r->Ok_0@.len() - 1)),
{
    if r is Ok {
        let v = r->Ok_0@;
        assert(deltas(v) == chunks(ticks as int));
        assert(deltas(v).len() == v.len());
        if 0 <= i < v.len() - 1 {
            assert(deltas(v)[i] == chunk(ticks as int, i));
        }
        if v.len() > 0 {
            assert(deltas(v)[v.len() - 1] == chunk(ticks as int, v.len() - 1));
        }
    }
}

/// A delta stands in the upper half of its word, and a point as y over x, each by its low sixteen bits; a
/// point that does not fit is refused.
pub proof fn law_deltas_and_points_are_packed(
    delta: i16,
    point: Point,
    packed: usize,
    r: Result<isize, ActionError>,
)
    requires
        call_ensures(wheel_wparam, (delta,), packed),
        call_ensures(screen_lparam, (point,), r),
    ensures
        delta >= 0 ==> packed == 65536 * delta,
        delta < 0 ==> packed == 65536 * (65536 + delta),
        r is Ok <==> -32768 <= point.x <= 32767 && -32768 <= point.y <= 32767,
        r is Ok && 0 <= point.y && 0 <= point.x ==> r->Ok_0 == 65536 * point.y + point.x,
        r is Ok && 0 <= point.y && point.x < 0 ==> r->Ok_0 == 65536 * point.y + 65536 + point.x,
        r is Err ==> r->Err_0 is TargetInvalid,
{
}

/// Every message goes to the window and by the kind it is made for, with its own delta and the point; a
/// scroll of nothing sends none, and one to no window or an unfit point is refused.
pub proof fn law_messages_go_where_they_are_sent(
    hwnd: i64,
    message: u32,
    ticks: i32,
    point: Point,
    r: Result<Vec<WheelMessage>, ActionError>,
    i: int,
)
    requires
        call_ensures(post_wheel_message, (hwnd, message, ticks, point), r),
    ensures
        r is Ok && 0 <= i < r->Ok_0@.len() ==> {
            let sent = r->Ok_0@[i];
            &&& sent.hwnd == hwnd && sent.message == message
            &&& (i < r->Ok_0@.len() - 1 && ticks > 0 ==> sent.delta == 32760)
            &&& (i < r->Ok_0@.len() - 1 && ticks < 0 ==> sent.delta == -32760)
            &&& (i == r->Ok_0@.len() - 1 && ticks > 0 ==> sent.delta == 120 * (ticks - 273 * i))
            &&& (i == r->Ok_0@.len() - 1 && ticks < 0 ==> sent.delta == 120 * (ticks + 273 * i))
            &&& (sent.delta >= 0 ==> sent.wparam == 65536 * sent.delta)
            &&& (sent.delta < 0 ==> sent.wparam == 65536 * (65536 + sent.delta))
            &&& (0 <= point.x && 0 <= point.y ==> sent.lparam == 65536 * point.y + point.x)
        },
        r is Ok <==> -279_552 <= ticks <= 279_552 && (ticks == 0 || (hwnd != 0 && -32768 <= point.x
            <= 32767 && -32768 <= point.y <= 32767)),
        r is Err ==> r->Err_0 is TargetInvalid,
        r is Ok && ticks == 0 ==> r->Ok_0@.len() == 0,
        r is Ok && ticks > 0 ==> 273 * (r->Ok_0@.len() - 1) < ticks <= 273 * r->Ok_0@.len(),
        r is Ok && ticks < 0 ==> 273 * (r->Ok_0@.len() - 1) < -ticks <= 273 * r->Ok_0@.len(),
{
}

/// A point lies in a window from its left and upper edge up to, and without, its right and lower one; a
/// window's area is its width by its height.
pub proof fn law_windows_hold_their_points(
    rect: &WindowRect,
    point: Point,
    holds: bool,
    area: i64,
)
    requires
        call_ensures(rect_contains_point, (rect, point), holds),
        call_ensures(rect_area, (rect,), area),
    ensures
        holds <==> rect.left <= point.x && point.x < rect.right && rect.top <= point.y && point.y
            < rect.bottom,
        0 < rect.right - rect.left <= 0x7fff_ffff && 0 < rect.bottom - rect.top <= 0x7fff_ffff
            ==> area == (rect.right - rect.left) * (rect.bottom - rect.top),
        rect.right <= rect.left || rect.bottom <= rect.top ==> area == 0,
{
    let w = clamp32(rect.right - rect.left);
    let h = clamp32(rect.bottom - rect.top);
    let x: int = if w > 0 {
        w as int
    } else {
        0
    };
    let y: int = if h > 0 {
        h as int
    } else {
        0
    };
    assert(area == x * y);
    if x == 0 || y == 0 {
        assert(x * y == 0) by (nonlinear_arith)
            requires
                x == 0 || y == 0,
        ;
    }
}

/// The window that takes a scroll is visible and holds the point, and none that could take it is
/// smaller.
pub proof fn law_smallest_window_takes_the_scroll(
    children: &Vec<WindowFacts>,
    point: Point,
    r: Option<usize>,
    j: int,
)
    requires
        call_ensures(best_child_hwnd_for_screen_point, (children, point), r),
        r is Some,
        0 <= j < children@.len(),
    ensures
        r->Some_0 < children@.len(),
        ({
            let best = children@[r->Some_0 as int];
            let child = children@[j];
            &&& best.visible && best.rect is Some
            &&& best.rect->Some_0.left <= point.x < best.rect->Some_0.right
            &&& best.rect->Some_0.top <= point.y < best.rect->Some_0.bottom
            &&& (child.visible && child.rect is Some && child.rect->Some_0.left <= point.x
                < child.rect->Some_0.right && child.rect->Some_0.top <= point.y
                < child.rect->Some_0.bottom && child.rect->Some_0.area() > 0
                ==> best.rect->Some_0.area() <= child.rect->Some_0.area())
            &&& (child.visible && child.rect is Some && child.rect->Some_0.left <= point.x
                < child.rect->Some_0.right && child.rect->Some_0.top <= point.y
                < child.rect->Some_0.bottom && child.rect->Some_0.area()
                == best.rect->Some_0.area() ==> r->Some_0 <= j)
        }),
{
}

/// A scroll at a point goes to the window there, if that is visible and holds the point, or else to the
/// smallest child that does, or else to the outermost window.
pub proof fn law_scrolls_go_to_the_window_at_the_point(
    seed: &WindowFacts,
    children: &Vec<WindowFacts>,
    root: ScrollTarget,
    point: Point,
    r: ScrollTarget,
)
    requires
        call_ensures(hit_test_hwnd_for_screen_point, (seed, children, root, point), r),
    ensures
        seed.visible && seed.rect is Some && seed.rect->Some_0.left <= point.x
            < seed.rect->Some_0.right && seed.rect->Some_0.top <= point.y
            < seed.rect->Some_0.bottom && seed.rect->Some_0.area() > 0 ==> r.hwnd == seed.hwnd
            && r.class_name == seed.class_name,
        !seed.visible && children@.len() == 0 ==> r == root,
        r == root || r.hwnd == seed.hwnd || exists|j: int|
            0 <= j < children@.len() && (#[trigger] children@[j]).hwnd == r.hwnd
                && children@[j].visible,
{
    if !can_take(*seed, point) && exists|j: int|
        0 <= j < children@.len() && can_take(#[trigger] children@[j], point) {
        let at = choose|at: int| #[trigger]
            is_smallest(children@, point, at) && r.hwnd == children@[at].hwnd && r.class_name
                == children@[at].class_name;
        assert(can_take(children@[at], point));
    }
}

/// A scroll finds its window where one is at the point, the outermost one lives and holds the point, its
/// rectangle can be read and the point fits; and fails otherwise.
pub proof fn law_scrolls_find_their_window(
    point: Point,
    facts: PointFacts,
    r: Result<ScrollTarget, ActionError>,
)
    requires
        call_ensures(windows_hwnd_message_scroll_readback, (point, facts), r),
    ensures
        r is Ok <==> facts.seed is Some && facts.root.live && facts.root.rect is Ok && (
        facts.root.rect->Ok_0).left <= point.x < (facts.root.rect->Ok_0).right && (
        facts.root.rect->Ok_0).top <= point.y < (facts.root.rect->Ok_0).bottom && -32768 <= point.x
            <= 32767 && -32768 <= point.y <= 32767,
        facts.seed is Some && facts.root.live && facts.root.rect is Err ==> r == Err::<
            ScrollTarget,
            ActionError,
        >(facts.root.rect->Err_0),
        (facts.seed is None || !facts.root.live) ==> r is Err && r->Err_0 is TargetInvalid,
{
}

/// A scroll of nothing does nothing. Any other is recorded where that is on, is sent to the window at the
/// point where one is given, and otherwise turns the wheel.
pub proof fn law_scrolls_are_planned_as_asked(
    params: &ActScrollParams,
    recording: bool,
    valid: Result<(), ToolError>,
    turns: Vec<ScrollAction>,
    r: Result<ScrollPlan, ToolError>,
)
    requires
        call_ensures(validate_scroll_params, (params,), valid),
        call_ensures(scroll_actions, (params,), turns),
        call_ensures(plan_scroll, (params, recording), r),
    ensures
        r is Ok <==> valid is Ok,
        r is Ok ==> {
            let nothing = params.dy == 0 && params.dx == 0;
            &&& (r->Ok_0 is Nothing <==> nothing)
            &&& (r->Ok_0 is Record <==> !nothing && recording)
            &&& (r->Ok_0 is Targeted <==> !nothing && !recording && params.at is Some)
            &&& (r->Ok_0 is Live <==> !nothing && !recording && params.at is None)
            &&& (r->Ok_0 matches ScrollPlan::Record { actions } ==> actions@ == turns@)
            &&& (r->Ok_0 matches ScrollPlan::Live { actions } ==> actions@ == turns@)
            &&& (r->Ok_0 matches ScrollPlan::Targeted { point } ==> point.x == params.at->Some_0.x
                && point.y == params.at->Some_0.y)
        },
{
}

/// A smooth scroll takes thirty milliseconds between any two of its turns.
pub proof fn law_smooth_scrolls_take_their_time(smooth: bool, count: u32, r: u32)
    requires
        call_ensures(scheduled_smooth_total_ms, (smooth, count), r),
    ensures
        !smooth || count == 0 ==> r == 0,
        smooth && 1 <= count <= 143_165_577 ==> r == 30 * (count - 1),
        smooth && count > 143_165_577 ==> r == 0xffff_ffff,
{
}

/// A response tells of the scroll that was asked for, whether anything was scrolled, by how many turns
/// and by what; a failure is passed on.
pub proof fn law_scrolls_are_reported(
    params: &ActScrollParams,
    recording: bool,
    executed: Result<usize, ToolError>,
    elapsed_ms: u128,
    valid: Result<(), ToolError>,
    turns: Vec<ScrollAction>,
    r: Result<ActScrollResponse, ToolError>,
)
    requires
        call_ensures(validate_scroll_params, (params,), valid),
        call_ensures(scroll_actions, (params,), turns),
        call_ensures(
            act_scroll_with_handle,
            (params, recording, executed, elapsed_ms),
            r,
        ),
    ensures
        r is Ok <==> valid is Ok && ((params.dy == 0 && params.dx == 0) || executed is Ok),
        valid is Ok && !(params.dy == 0 && params.dx == 0) && executed is Err ==> r->Err_0
            == executed->Err_0,
        r is Ok ==> {
            let told = r->Ok_0;
            let nothing = params.dy == 0 && params.dx == 0;
            let sent = !nothing && !recording && params.at is Some;
            &&& told.ok
            &&& told.dy == params.dy && told.dx == params.dx && told.smooth == params.smooth
            &&& (told.scrolled <==> !nothing)
            &&& (nothing ==> told.wheel_event_count == 0 && told.backend_used@ == "none"@)
            &&& (sent ==> told.backend_used@ == "software_window_message"@)
            &&& (sent && executed->Ok_0 <= 0xffff_ffff ==> told.wheel_event_count
                == executed->Ok_0)
            &&& (!nothing && !sent ==> told.backend_used@ == "software"@)
            &&& (!nothing && !sent && turns@.len() <= 0xffff_ffff ==> told.wheel_event_count
                == turns@.len())
            &&& (params.smooth ==> told.smooth_interval_ms == 30)
            &&& (!params.smooth ==> told.smooth_interval_ms == 0 && told.scheduled_smooth_total_ms
                == 0)
            &&& (params.smooth && 1 <= told.wheel_event_count <= 143_165_577
                ==> told.scheduled_smooth_total_ms == 30 * (told.wheel_event_count - 1))
            &&& (elapsed_ms <= 0xffff_ffff ==> told.elapsed_ms == elapsed_ms)
            &&& told.postcondition.delta is None
        },
{
}

/// A recorded scroll is labelled with its ticks and its point.
pub proof fn law_scroll_inputs_are_labelled(event: &ScrollEvent, r: String)
    requires
        call_ensures(event_label, (event,), r),
    ensures
        *event matches ScrollEvent::MouseScroll { dy, dx, at } ==> r@ == "mouse_scroll:dy="@
            + signed_decimal(dy as int) + ":dx="@ + signed_decimal(dx as int) + ":at="@ + (
        match at {
            Some(point) => screen_text(point),
            None => "none"@,
        }),
        *event matches ScrollEvent::Other { text } ==> r@ == text@,
{
}

} // verus!
