//! Actions on real input.

use vstd::prelude::*;

use crate::error::ToolError;
use crate::geometry::Point;
use crate::numerals::{decimal, decimal_text, signed_decimal, signed_text};
use crate::text::{cat2, cat5};

verus! {

/// What performs an action.
#[derive(Clone, Copy, Debug, PartialEq, Eq, Structural)]
pub enum Backend {
    Auto,
    Software,
    Vigem,
    Hardware,
}

/// The name of what performs an action.
pub open spec fn used_name(backend: Backend) -> Seq<char> {
    match backend {
        Backend::Auto => "software"@,
        Backend::Software => "software"@,
        Backend::Vigem => "vigem"@,
        Backend::Hardware => "hardware"@,
    }
}

/// The name of what performs an action.
pub fn backend_used_name(backend: Backend) -> (r: &'static str)
    ensures
        r@ == used_name(backend),
{
    match backend {
        Backend::Auto => "software",
        Backend::Software => "software",
        Backend::Vigem => "vigem",
        Backend::Hardware => "hardware",
    }
}

/// What a key is.
#[allow(inconsistent_fields)]
#[derive(Debug, PartialEq, Eq)]
pub enum KeyCode {
    Named { value: String },
    Symbol { value: char },
    HidCode { value: u16 },
}

/// A key.
#[derive(Debug, PartialEq, Eq)]
pub struct Key {
    pub code: KeyCode,
    pub use_scancode: bool,
}

impl Clone for KeyCode {
    fn clone(&self) -> (r: Self)
        ensures
            r == *self,
    {
        match self {
            KeyCode::Named { value } => KeyCode::Named { value: value.clone() },
            KeyCode::Symbol { value } => KeyCode::Symbol { value: *value },
            KeyCode::HidCode { value } => KeyCode::HidCode { value: *value },
        }
    }
}

impl Clone for Key {
    fn clone(&self) -> (r: Self)
        ensures
            r == *self,
    {
        Key { code: self.code.clone(), use_scancode: self.use_scancode }
    }
}

/// A key as the log prints it.
pub open spec fn label_of_key(key: Key) -> Seq<char> {
    match key.code {
        KeyCode::Named { value } => value@,
        KeyCode::Symbol { value } => seq![value],
        KeyCode::HidCode { value } => "hid:"@ + decimal(value as nat),
    }
}

/// A key as the log prints it.
pub fn key_label(key: &Key) -> (r: String)
    ensures
        r@ == label_of_key(*key),
{
    match &key.code {
        KeyCode::Named { value } => value.clone(),
        KeyCode::Symbol { value } => {
            let mut out = String::new();
            out.push(*value);
            assert(out@ =~= seq![*value]);
            out
        },
        KeyCode::HidCode { value } => {
            let number = decimal_text(*value as u64);
            cat2("hid:", number.as_str())
        },
    }
}

/// Why an action failed.
#[derive(Debug, PartialEq, Eq)]
pub enum ActionError {
    HoldExceededMax { detail: String },
    TargetInvalid { detail: String },
    BackendUnavailable { detail: String },
    ElementNotResolved { detail: String },
}

/// Why a tool that acts failed.
#[derive(Debug, PartialEq, Eq)]
pub enum ActError {
    /// The tool refused.
    Tool(ToolError),
    /// The action was refused or failed.
    Action(ActionError),
}

/// A point as messages print it.
pub open spec fn point_text(point: Point) -> Seq<char> {
    "Point { x: "@ + signed_decimal(point.x as int) + ", y: "@ + signed_decimal(point.y as int)
        + " }"@
}

/// A point as messages print it.
pub fn print_point(point: Point) -> (r: String)
    ensures
        r@ == point_text(point),
{
    let x = signed_text(point.x as i64);
    let y = signed_text(point.y as i64);
    cat5("Point { x: ", x.as_str(), ", y: ", y.as_str(), " }")
}

/// A point on the screen as the log prints it.
pub open spec fn screen_text(point: Point) -> Seq<char> {
    "screen("@ + signed_decimal(point.x as int) + ","@ + signed_decimal(point.y as int) + ")"@
}

/// A point on the screen as the log prints it.
pub fn print_screen_point(point: Point) -> (r: String)
    ensures
        r@ == screen_text(point),
{
    let x = signed_text(point.x as i64);
    let y = signed_text(point.y as i64);
    cat5("screen(", x.as_str(), ",", y.as_str(), ")")
}

/// A time as a `u32`, cut off at its bound.
pub open spec fn capped_ms(ms: u128) -> u32 {
    if ms <= u32::MAX {
        ms as u32
    } else {
        u32::MAX
    }
}

/// A time as a `u32`, cut off at its bound.
pub fn cap_ms(ms: u128) -> (r: u32)
    ensures
        r == capped_ms(ms),
{
    if ms <= u32::MAX as u128 {
        ms as u32
    } else {
        u32::MAX
    }
}

/// A change that was observed after an action.
#[derive(Debug, PartialEq, Eq)]
pub struct ObservedDelta {
    pub before: String,
    pub after: String,
    pub detail: String,
}

/// What is known of an action's effect: where it shows, and the change there, if it was looked for.
#[derive(Debug, PartialEq, Eq)]
pub struct ActPostcondition {
    pub tool: String,
    pub source_of_truth: String,
    pub delta: Option<ObservedDelta>,
}

/// The effect was not looked for.
pub open spec fn not_requested(p: ActPostcondition, tool: Seq<char>, source: Seq<char>) -> bool {
    p.tool@ == tool && p.source_of_truth@ == source && p.delta is None
}

/// The effect was not looked for.
pub fn postcondition_not_requested(tool: &str, source_of_truth: &str) -> (r: ActPostcondition)
    ensures
        not_requested(r, tool@, source_of_truth@),
{
    ActPostcondition {
        tool: tool.to_owned(),
        source_of_truth: source_of_truth.to_owned(),
        delta: None,
    }
}

/// The backend that is reported is the one that is used: `auto` uses the software one.
pub proof fn law_auto_uses_the_software_backend(backend: Backend, r: &'static str)
    requires
        call_ensures(backend_used_name, (backend,), r),
    ensures
        backend is Auto || backend is Software ==> r@ == "software"@,
        backend is Vigem ==> r@ == "vigem"@,
        backend is Hardware ==> r@ == "hardware"@,
{
}

/// A key is labelled by its name, its character or its number.
pub proof fn law_keys_are_labelled_by_their_code(key: &Key, r: String)
    requires
        call_ensures(key_label, (key,), r),
    ensures
        key.code matches KeyCode::Named { value } ==> r@ == value@,
        key.code matches KeyCode::Symbol { value } ==> r@ == seq![value],
        key.code matches KeyCode::HidCode { value } ==> r@ == "hid:"@ + decimal(value as nat),
{
}

/// A time is reported as it is, as long as it fits; points are written with x before y; and what was
/// not asked to be observed is reported as such.
pub proof fn law_reports_are_exact(
    ms: u128,
    point: Point,
    tool: &str,
    source_of_truth: &str,
    capped: u32,
    on_screen: String,
    plain: String,
    unasked: ActPostcondition,
)
    requires
        call_ensures(cap_ms, (ms,), capped),
        call_ensures(print_screen_point, (point,), on_screen),
        call_ensures(print_point, (point,), plain),
        call_ensures(postcondition_not_requested, (tool, source_of_truth), unasked),
    ensures
        ms <= 0xffff_ffff ==> capped == ms,
        ms > 0xffff_ffff ==> capped == 0xffff_ffff,
        on_screen@ == "screen("@ + signed_decimal(point.x as int) + ","@ + signed_decimal(
            point.y as int,
        ) + ")"@,
        plain@ == "Point { x: "@ + signed_decimal(point.x as int) + ", y: "@ + signed_decimal(
            point.y as int,
        ) + " }"@,
        unasked.tool@ == tool@,
        unasked.source_of_truth@ == source_of_truth@,
        unasked.delta is None,
{
}

} // verus!
