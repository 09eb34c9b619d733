//! The stroke tool.
//!
//! A call draws a stroke with the mouse while modifier keys are held. Whatever happens, every
//! modifier that went down is asked to come up again, the last one first.

use vstd::prelude::*;

use crate::error::{invalid, params_invalid, ErrorView, ToolError};
use crate::geometry::Point;
use crate::ieee::Real64;
use crate::m2::action::{backend_used_name, cap_ms, capped_ms, key_label, label_of_key,
    print_screen_point, screen_text, used_name, Backend, Key, KeyCode};
use crate::numerals::{decimal, decimal_text};
use crate::text::{cat2, cat3, cat4, join_texts, joined_with, views};

verus! {

/// Most control points of a path.
pub const MAX_STROKE_PATH_POINTS: usize = 4096;

/// Most points that a stroke is sampled at.
pub const MAX_STROKE_SAMPLES: usize = 60_001;

/// The bits of the longest duration, 60000 milliseconds.
pub const MAX_STROKE_DURATION_BITS: u64 = 0x40ed_4c00_0000_0000;

/// Time, in milliseconds, between the end of a stroke and the release of its modifiers.
pub const MODIFIER_RELEASE_SETTLE_MS: u64 = 200;

/// What draws the stroke.
#[derive(Clone, Copy, Debug, PartialEq, Eq, Structural)]
pub enum StrokeBackend {
    Software,
    Hardware,
    Auto,
}

/// A key that is held while the stroke is drawn.
#[derive(Clone, Copy, Debug, PartialEq, Eq, Structural)]
pub enum StrokeModifier {
    Ctrl,
    Shift,
    Alt,
    Super,
}

/// A button of the mouse.
#[derive(Clone, Copy, Debug, PartialEq, Eq, Structural)]
pub enum MouseButton {
    Left,
    Right,
    Middle,
    X1,
    X2,
}

/// The form of a path, with the number of its points where that varies.
#[derive(Clone, Copy, Debug, PartialEq, Eq, Structural)]
pub enum PathShape {
    Line,
    Arc,
    Circle,
    CubicBezier,
    Polyline { points: usize },
    CatmullRom { waypoints: usize },
}

/// A path: its form, and what the engine draws.
#[derive(Debug)]
pub struct StrokePath<P> {
    pub shape: PathShape,
    pub drawn: P,
}

/// A call of the tool. What only the engine reads is carried along: what it draws as a `P`, the
/// velocity profile as a `V`, the duration or speed as a `T`, and how the stroke is humanized as an
/// `H`.
#[derive(Debug)]
pub struct ActStrokeParams<P, V, T, H> {
    pub path: StrokePath<P>,
    pub button: Option<MouseButton>,
    pub velocity_profile: V,
    pub duration_or_speed: T,
    pub humanize: Option<H>,
    pub backend: StrokeBackend,
    pub modifiers: Vec<StrokeModifier>,
}

/// The answer to a call.
#[derive(Debug, PartialEq, Eq)]
pub struct ActStrokeResponse<V, T> {
    pub ok: bool,
    pub path_kind: String,
    pub control_point_count: u32,
    pub button_used: Option<MouseButton>,
    pub velocity_profile_used: V,
    pub duration_or_speed_used: T,
    pub humanized: bool,
    pub point_stream_count: u32,
    pub path_length_px: Real64,
    pub duration_ms: Real64,
    pub modifiers_used: Vec<StrokeModifier>,
    pub backend_used: String,
    pub elapsed_ms: u32,
}

impl StrokeBackend {
    /// What draws the stroke, among all that perform actions.
    pub open spec fn backend(self) -> Backend {
        match self {
            StrokeBackend::Software => Backend::Software,
            StrokeBackend::Hardware => Backend::Hardware,
            StrokeBackend::Auto => Backend::Auto,
        }
    }

    /// What draws the stroke, among all that perform actions.
    pub fn to_backend(self) -> (r: Backend)
        ensures
            r == self.backend(),
    {
        match self {
            StrokeBackend::Software => Backend::Software,
            StrokeBackend::Hardware => Backend::Hardware,
            StrokeBackend::Auto => Backend::Auto,
        }
    }
}

/// What draws the stroke where a call names nothing.
pub fn default_stroke_backend() -> (r: StrokeBackend)
    ensures
        r == StrokeBackend::Auto,
{
    StrokeBackend::Auto
}

impl StrokeModifier {
    /// The name of the key.
    pub open spec fn name(self) -> Seq<char> {
        match self {
            StrokeModifier::Ctrl => "ctrl"@,
            StrokeModifier::Shift => "shift"@,
            StrokeModifier::Alt => "alt"@,
            StrokeModifier::Super => "super"@,
        }
    }

    /// The key of the modifier.
    pub open spec fn is_key(self, key: Key) -> bool {
        &&& key.code matches KeyCode::Named { value }
        &&& value@ == self.name()
        &&& !key.use_scancode
    }

    /// The key.
    pub fn to_key(self) -> (r: Key)
        ensures
            self.is_key(r),
    {
        let value: &str = match self {
            StrokeModifier::Ctrl => "ctrl",
            StrokeModifier::Shift => "shift",
            StrokeModifier::Alt => "alt",
            StrokeModifier::Super => "super",
        };
        Key { code: KeyCode::Named { value: value.to_owned() }, use_scancode: false }
    }
}

// ---------------------------------------------------------------------------------------------
// Checking a call
// ---------------------------------------------------------------------------------------------

/// The number of control points of a path.
pub open spec fn points_of(path: PathShape) -> usize {
    match path {
        PathShape::Line => 2,
        PathShape::Arc => 1,
        PathShape::Circle => 1,
        PathShape::CubicBezier => 4,
        PathShape::Polyline { points } => points,
        PathShape::CatmullRom { waypoints } => waypoints,
    }
}

/// The number of control points of a path.
pub fn control_point_count(path: PathShape) -> (r: usize)
    ensures
        r == points_of(path),
{
    match path {
        PathShape::Line => 2,
        PathShape::Arc => 1,
        PathShape::Circle => 1,
        PathShape::CubicBezier => 4,
        PathShape::Polyline { points } => points,
        PathShape::CatmullRom { waypoints } => waypoints,
    }
}

/// The name of the form of a path.
pub open spec fn kind_of(path: PathShape) -> Seq<char> {
    match path {
        PathShape::Line => "line"@,
        PathShape::Arc => "arc"@,
        PathShape::Circle => "circle"@,
        PathShape::CubicBezier => "cubic_bezier"@,
        PathShape::Polyline { .. } => "polyline"@,
        PathShape::CatmullRom { .. } => "catmull_rom"@,
    }
}

/// The name of the form of a path.
pub fn path_kind(path: PathShape) -> (r: &'static str)
    ensures
        r@ == kind_of(path),
{
    match path {
        PathShape::Line => "line",
        PathShape::Arc => "arc",
        PathShape::Circle => "circle",
        PathShape::CubicBezier => "cubic_bezier",
        PathShape::Polyline { .. } => "polyline",
        PathShape::CatmullRom { .. } => "catmull_rom",
    }
}

/// Why a path has too many points.
pub open spec fn too_many_points(path: PathShape) -> ErrorView {
    params_invalid(
        "act_stroke path control point count "@ + decimal(points_of(path) as nat)
            + " exceeds max 4096"@,
    )
}

/// Checks the number of control points.
pub fn validate_control_point_cap(path: PathShape) -> (r: Result<(), ToolError>)
    ensures
        match r {
            Ok(_) => points_of(path) <= MAX_STROKE_PATH_POINTS,
            Err(e) => points_of(path) > MAX_STROKE_PATH_POINTS && e@ == too_many_points(path),
        },
{
    let count: usize = control_point_count(path);
    if count > MAX_STROKE_PATH_POINTS {
        let number = decimal_text(count as u64);
        return Err(
            invalid(
                cat3(
                    "act_stroke path control point count ",
                    number.as_str(),
                    " exceeds max 4096",
                ),
            ),
        );
    }
    Ok(())
}

/// A number as a float with what it prints as.
#[derive(Debug)]
pub struct PrintedReal {
    pub value: Real64,
    pub text: String,
}

/// The timing of a stroke.
#[derive(Debug)]
pub struct StrokeTiming {
    /// The speed, where the call gives one rather than a duration.
    pub speed: Option<PrintedReal>,
    /// The duration that follows, in milliseconds.
    pub duration_ms: PrintedReal,
    /// The duration as it prints with three digits behind the point.
    pub duration_text_3: String,
}

/// Whether a number is finite and greater than zero.
pub open spec fn is_positive(x: Real64) -> bool {
    x.is_finite() && (Real64 { bits: 0 }).is_less(x)
}

fn positive(x: Real64) -> (r: bool)
    ensures
        r == is_positive(x),
{
    x.finite() && Real64::from_bits(0).less(x)
}

/// Why a timing is refused, if it is: the path has no length, the speed or the duration is not a
/// number above zero, or the duration is longer than a minute.
pub open spec fn timing_refusal(path: Result<(), String>, timing: StrokeTiming) -> Option<ErrorView> {
    if path is Err {
        Some(params_invalid("act_stroke path invalid: "@ + (path->Err_0)@))
    } else if timing.speed matches Some(speed) && !is_positive(speed.value) {
        Some(
            params_invalid(
                "act_stroke speed px_per_sec must be finite and greater than zero, got "@
                    + timing.speed->Some_0.text@,
            ),
        )
    } else if !is_positive(timing.duration_ms.value) {
        Some(
            params_invalid(
                "act_stroke duration_ms must be finite and greater than zero, got "@
                    + timing.duration_ms.text@,
            ),
        )
    } else if (Real64 { bits: MAX_STROKE_DURATION_BITS }).is_less(timing.duration_ms.value) {
        Some(
            params_invalid(
                "act_stroke planned duration_ms "@ + timing.duration_text_3@
                    + " exceeds max 60000"@,
            ),
        )
    } else {
        None
    }
}

/// Checks the timing of a stroke. `path` is how measuring the path went.
pub fn validate_duration_cap(path: Result<(), String>, timing: &StrokeTiming) -> (r: Result<
    (),
    ToolError,
>)
    ensures
        match timing_refusal(path, *timing) {
            None => r is Ok,
            Some(view) => r matches Err(e) && e@ == view,
        },
{
    if let Err(error) = path {
        return Err(invalid(cat2("act_stroke path invalid: ", error.as_str())));
    }
    if let Some(speed) = &timing.speed {
        if !positive(speed.value) {
            return Err(
                invalid(
                    cat2(
                        "act_stroke speed px_per_sec must be finite and greater than zero, got ",
                        speed.text.as_str(),
                    ),
                ),
            );
        }
    }
    if !positive(timing.duration_ms.value) {
        return Err(
            invalid(
                cat2(
                    "act_stroke duration_ms must be finite and greater than zero, got ",
                    timing.duration_ms.text.as_str(),
                ),
            ),
        );
    }
    if Real64::from_bits(MAX_STROKE_DURATION_BITS).less(timing.duration_ms.value) {
        return Err(
            invalid(
                cat3(
                    "act_stroke planned duration_ms ",
                    timing.duration_text_3.as_str(),
                    " exceeds max 60000",
                ),
            ),
        );
    }
    Ok(())
}

/// What the planner made of a stroke.
#[derive(Clone, Copy, Debug, PartialEq, Eq)]
pub struct StrokePlan {
    pub sample_count: usize,
    pub path_length_px: Real64,
    pub duration_ms: Real64,
}

/// Why a call is refused, if it is.
pub open spec fn stroke_refusal(
    path: PathShape,
    measured: Result<(), String>,
    timing: StrokeTiming,
    planned: Result<StrokePlan, String>,
) -> Option<ErrorView> {
    if points_of(path) > MAX_STROKE_PATH_POINTS {
        Some(too_many_points(path))
    } else if timing_refusal(measured, timing) is Some {
        timing_refusal(measured, timing)
    } else if planned is Err {
        Some(params_invalid("act_stroke params invalid: "@ + (planned->Err_0)@))
    } else if (planned->Ok_0).sample_count > MAX_STROKE_SAMPLES {
        Some(
            params_invalid(
                "act_stroke planned point stream count "@ + decimal(
                    (planned->Ok_0).sample_count as nat,
                ) + " exceeds max 60001"@,
            ),
        )
    } else {
        None
    }
}

/// Checks a call and its plan. `measured` is how measuring the path went, `planned` what the planner
/// made of the stroke.
pub fn validate_and_plan(
    path: PathShape,
    measured: Result<(), String>,
    timing: &StrokeTiming,
    planned: Result<StrokePlan, String>,
) -> (r: Result<StrokePlan, ToolError>)
    ensures
        match stroke_refusal(path, measured, *timing, planned) {
            None => r == Ok::<StrokePlan, ToolError>(planned->Ok_0),
            Some(view) => r matches Err(e) && e@ == view,
        },
{
    if let Err(e) = validate_control_point_cap(path) {
        return Err(e);
    }
    if let Err(e) = validate_duration_cap(measured, timing) {
        return Err(e);
    }
    match planned {
        Ok(plan) => {
            if plan.sample_count > MAX_STROKE_SAMPLES {
                let number = decimal_text(plan.sample_count as u64);
                return Err(
                    invalid(
                        cat3(
                            "act_stroke planned point stream count ",
                            number.as_str(),
                            " exceeds max 60001",
                        ),
                    ),
                );
            }
            Ok(plan)
        },
        Err(error) => Err(invalid(cat2("act_stroke params invalid: ", error.as_str()))),
    }
}

// ---------------------------------------------------------------------------------------------
// Drawing while modifiers are held
// ---------------------------------------------------------------------------------------------

/// What to do next.
#[derive(Clone, Copy, Debug, PartialEq, Eq, Structural)]
pub enum StrokeStep {
    /// Press the modifier at an index.
    Press(usize),
    /// Draw the stroke.
    Draw,
    /// Wait before the modifiers are released.
    Settle,
    /// Release the modifier at an index.
    Release(usize),
    /// Nothing: it is over.
    Finish,
}

/// An action of a stroke.
#[derive(Debug)]
pub enum StrokeAction<'a, P, V, T, H> {
    KeyDown { key: Key, backend: Backend },
    KeyUp { key: Key, backend: Backend },
    MouseStroke {
        path: &'a StrokePath<P>,
        button: Option<MouseButton>,
        profile: &'a V,
        timing: &'a T,
        humanize: &'a Option<H>,
        backend: Backend,
    },
}

/// The action that a step of a call performs, if it performs one: the modifier keys go down and come up
/// on the backend of the call, and what is drawn is what the call says.
pub open spec fn is_action_of_step<P, V, T, H>(
    action: Option<StrokeAction<'_, P, V, T, H>>,
    params: ActStrokeParams<P, V, T, H>,
    step: StrokeStep,
) -> bool {
    match step {
        StrokeStep::Press(i) => if i < params.modifiers@.len() {
            action matches Some(StrokeAction::KeyDown { key, backend })
                && params.modifiers@[i as int].is_key(key) && backend == params.backend.backend()
        } else {
            action is None
        },
        StrokeStep::Release(i) => if i < params.modifiers@.len() {
            action matches Some(StrokeAction::KeyUp { key, backend })
                && params.modifiers@[i as int].is_key(key) && backend == params.backend.backend()
        } else {
            action is None
        },
        StrokeStep::Draw => {
            &&& action matches Some(
                StrokeAction::MouseStroke { path, button, profile, timing, humanize, backend },
            )
            &&& *path == params.path
            &&& button == params.button
            &&& *profile == params.velocity_profile
            &&& *timing == params.duration_or_speed
            &&& *humanize == params.humanize
            &&& backend == params.backend.backend()
        },
        _ => action is None,
    }
}

/// The action that a step of a call performs, if it performs one.
pub fn action_of_step<'a, P, V, T, H>(
    params: &'a ActStrokeParams<P, V, T, H>,
    step: StrokeStep,
) -> (r: Option<StrokeAction<'a, P, V, T, H>>)
    ensures
        is_action_of_step(r, *params, step),
{
    let backend: Backend = params.backend.to_backend();
    match step {
        StrokeStep::Press(i) => {
            if i < params.modifiers.len() {
                Some(StrokeAction::KeyDown { key: params.modifiers[i].to_key(), backend })
            } else {
                None
            }
        },
        StrokeStep::Release(i) => {
            if i < params.modifiers.len() {
                Some(StrokeAction::KeyUp { key: params.modifiers[i].to_key(), backend })
            } else {
                None
            }
        },
        StrokeStep::Draw => Some(
            StrokeAction::MouseStroke {
                path: &params.path,
                button: params.button,
                profile: &params.velocity_profile,
                timing: &params.duration_or_speed,
                humanize: &params.humanize,
                backend,
            },
        ),
        _ => None,
    }
}

/// How far a stroke is.
#[derive(Clone, Copy, Debug, PartialEq, Eq, Structural)]
pub enum StrokePhase {
    Pressing,
    Drawing,
    Settling,
    Releasing,
}

/// A stroke as it is being drawn.
#[derive(Debug)]
pub struct StrokeRun {
    /// The number of modifiers of the call.
    pub modifier_count: usize,
    pub phase: StrokePhase,
    /// The modifiers that are down or have been: the first ones.
    pub pressed: usize,
    /// The modifiers that were asked to come up: the last ones of those.
    pub released: usize,
    /// What failed first of the presses and the stroke.
    pub failure: Option<ToolError>,
    /// What failed first of the releases.
    pub release_failure: Option<ToolError>,
}

impl StrokeRun {
    /// The counters and the phase fit each other.
    pub open spec fn wf(self) -> bool {
        &&& self.released <= self.pressed <= self.modifier_count
        &&& !(self.phase is Releasing) ==> self.released == 0 && self.failure is None
            && self.release_failure is None
        &&& self.phase is Pressing ==> self.pressed < self.modifier_count
        &&& self.phase is Drawing ==> self.pressed == self.modifier_count
        &&& self.phase is Settling ==> self.pressed == self.modifier_count && self.pressed > 0
        &&& self.released == 0 ==> self.release_failure is None
        &&& self.phase is Releasing && self.failure is None ==> self.pressed == self.modifier_count
    }

    /// What to do next.
    pub open spec fn next(self) -> StrokeStep {
        match self.phase {
            StrokePhase::Pressing => StrokeStep::Press(self.pressed),
            StrokePhase::Drawing => StrokeStep::Draw,
            StrokePhase::Settling => StrokeStep::Settle,
            StrokePhase::Releasing => if self.released < self.pressed {
                StrokeStep::Release((self.pressed - 1 - self.released) as usize)
            } else {
                StrokeStep::Finish
            },
        }
    }

    /// The run once a step was taken: `failure` says how it failed, if it did.
    pub open spec fn after(self, failure: Option<ToolError>) -> StrokeRun {
        match self.next() {
            StrokeStep::Press(_) => match failure {
                Some(e) => StrokeRun {
                    phase: StrokePhase::Releasing,
                    failure: Some(e),
                    ..self
                },
                None => StrokeRun {
                    pressed: (self.pressed + 1) as usize,
                    phase: if self.pressed + 1 == self.modifier_count {
                        StrokePhase::Drawing
                    } else {
                        StrokePhase::Pressing
                    },
                    ..self
                },
            },
            StrokeStep::Draw => match failure {
                Some(e) => StrokeRun {
                    phase: StrokePhase::Releasing,
                    failure: Some(e),
                    ..self
                },
                None => StrokeRun {
                    phase: if self.pressed > 0 {
                        StrokePhase::Settling
                    } else {
                        StrokePhase::Releasing
                    },
                    ..self
                },
            },
            StrokeStep::Settle => StrokeRun { phase: StrokePhase::Releasing, ..self },
            StrokeStep::Release(_) => StrokeRun {
                released: (self.released + 1) as usize,
                release_failure: match self.release_failure {
                    Some(e) => Some(e),
                    None => failure,
                },
                ..self
            },
            StrokeStep::Finish => self,
        }
    }

    /// How it went: the failure of a press or of the stroke comes before that of a release.
    pub open spec fn outcome(self) -> Result<(), ToolError> {
        match self.failure {
            Some(e) => Err(e),
            None => match self.release_failure {
                Some(e) => Err(e),
                None => Ok(()),
            },
        }
    }

    /// Begins a stroke.
    pub fn begin(modifier_count: usize) -> (r: StrokeRun)
        ensures
            r.wf(),
            r.modifier_count == modifier_count,
            r.pressed == 0,
            r.released == 0,
            r.failure is None,
            r.release_failure is None,
            r.phase == (if modifier_count > 0 {
                StrokePhase::Pressing
            } else {
                StrokePhase::Drawing
            }),
    {
        StrokeRun {
            modifier_count,
            phase: if modifier_count > 0 {
                StrokePhase::Pressing
            } else {
                StrokePhase::Drawing
            },
            pressed: 0,
            released: 0,
            failure: None,
            release_failure: None,
        }
    }

    /// What to do next.
    pub fn next_step(&self) -> (r: StrokeStep)
        requires
            self.wf(),
        ensures
            r == self.next(),
    {
        match self.phase {
            StrokePhase::Pressing => StrokeStep::Press(self.pressed),
            StrokePhase::Drawing => StrokeStep::Draw,
            StrokePhase::Settling => StrokeStep::Settle,
            StrokePhase::Releasing => if self.released < self.pressed {
                StrokeStep::Release(self.pressed - 1 - self.released)
            } else {
                StrokeStep::Finish
            },
        }
    }

    /// Takes note of how a step went.
    pub fn absorb(&mut self, failure: Option<ToolError>)
        requires
            old(self).wf(),
        ensures
            final(self).wf(),
            *final(self) == old(self).after(failure),
    {
        match self.next_step() {
            StrokeStep::Press(_) => match failure {
                Some(e) => {
                    self.phase = StrokePhase::Releasing;
                    self.failure = Some(e);
                },
                None => {
                    self.pressed = self.pressed + 1;
                    if self.pressed == self.modifier_count {
                        self.phase = StrokePhase::Drawing;
                    }
                },
            },
            StrokeStep::Draw => match failure {
                Some(e) => {
                    self.phase = StrokePhase::Releasing;
                    self.failure = Some(e);
                },
                None => {
                    self.phase = if self.pressed > 0 {
                        StrokePhase::Settling
                    } else {
                        StrokePhase::Releasing
                    };
                },
            },
            StrokeStep::Settle => {
                self.phase = StrokePhase::Releasing;
            },
            StrokeStep::Release(_) => {
                self.released = self.released + 1;
                if self.release_failure.is_none() {
                    self.release_failure = failure;
                }
            },
            StrokeStep::Finish => {},
        }
    }

    /// How it went.
    pub fn execute_with_modifiers(self) -> (r: Result<(), ToolError>)
        ensures
            r == self.outcome(),
    {
        match self.failure {
            Some(e) => Err(e),
            None => match self.release_failure {
                Some(e) => Err(e),
                None => Ok(()),
            },
        }
    }
}

/// The steps that record a stroke: all modifiers down, the stroke, all modifiers up, the last one
/// first.
pub open spec fn recorded_steps(modifier_count: usize) -> Seq<StrokeStep> {
    Seq::new(
        (2 * modifier_count + 1) as nat,
        |i: int|
            if i < modifier_count {
                StrokeStep::Press(i as usize)
            } else if i == modifier_count {
                StrokeStep::Draw
            } else {
                StrokeStep::Release((2 * modifier_count - i) as usize)
            },
    )
}

/// The steps that record a stroke.
pub fn recording_steps(modifier_count: usize) -> (r: Vec<StrokeStep>)
    ensures
        r@ == recorded_steps(modifier_count),
{
    let mut steps: Vec<StrokeStep> = Vec::new();
    let mut i: usize = 0;
    while i < modifier_count
        invariant
            i <= modifier_count,
            steps@.len() == i,
            forall|k: int|
                0 <= k < i ==> #[trigger] steps@[k] == recorded_steps(modifier_count)[k],
        decreases modifier_count - i,
    {
        steps.push(StrokeStep::Press(i));
        i += 1;
    }
    steps.push(StrokeStep::Draw);
    while i > 0
        invariant
            i <= modifier_count,
            steps@.len() == 2 * modifier_count + 1 - i,
            forall|k: int|
                0 <= k < steps@.len() ==> #[trigger] steps@[k] == recorded_steps(
                    modifier_count,
                )[k],
        decreases i,
    {
        i -= 1;
        steps.push(StrokeStep::Release(i));
    }
    assert(steps@ =~= recorded_steps(modifier_count));
    steps
}

// ---------------------------------------------------------------------------------------------
// The answer
// ---------------------------------------------------------------------------------------------

/// A count as a `u32`, cut off at its bound.
pub open spec fn count32(n: usize) -> u32 {
    if n <= u32::MAX {
        n as u32
    } else {
        u32::MAX
    }
}

fn to_count32(n: usize) -> (r: u32)
    ensures
        r == count32(n),
{
    if n as u64 <= u32::MAX as u64 {
        n as u32
    } else {
        u32::MAX
    }
}

/// Answers a call whose plan was accepted. `executed` is how drawing the stroke went.
pub fn act_stroke_with_handle<P, V, T, H>(
    params: ActStrokeParams<P, V, T, H>,
    plan: &StrokePlan,
    executed: Result<(), ToolError>,
    elapsed_ms: u128,
) -> (r: Result<ActStrokeResponse<V, T>, ToolError>)
    ensures
        match executed {
            Err(e) => r == Err::<ActStrokeResponse<V, T>, ToolError>(e),
            Ok(_) => {
                &&& r matches Ok(response)
                &&& response.ok
                &&& response.path_kind@ == kind_of(params.path.shape)
                &&& response.control_point_count == count32(points_of(params.path.shape))
                &&& response.button_used == params.button
                &&& response.velocity_profile_used == params.velocity_profile
                &&& response.duration_or_speed_used == params.duration_or_speed
                &&& response.humanized == (params.humanize is Some)
                &&& response.point_stream_count == count32(plan.sample_count)
                &&& response.path_length_px == plan.path_length_px
                &&& response.duration_ms == plan.duration_ms
                &&& response.modifiers_used@ == params.modifiers@
                &&& response.backend_used@ == used_name(params.backend.backend())
                &&& response.elapsed_ms == capped_ms(elapsed_ms)
            },
        },
{
    if let Err(e) = executed {
        return Err(e);
    }
    Ok(
        ActStrokeResponse {
            ok: true,
            path_kind: path_kind(params.path.shape).to_owned(),
            control_point_count: to_count32(control_point_count(params.path.shape)),
            button_used: params.button,
            velocity_profile_used: params.velocity_profile,
            duration_or_speed_used: params.duration_or_speed,
            humanized: params.humanize.is_some(),
            point_stream_count: to_count32(plan.sample_count),
            path_length_px: plan.path_length_px,
            duration_ms: plan.duration_ms,
            modifiers_used: params.modifiers,
            backend_used: backend_used_name(params.backend.to_backend()).to_owned(),
            elapsed_ms: cap_ms(elapsed_ms),
        },
    )
}

// ---------------------------------------------------------------------------------------------
// The log of recorded input
// ---------------------------------------------------------------------------------------------

/// One recorded input.
#[derive(Debug)]
pub enum StrokeEvent {
    KeyDown { key: Key },
    KeyUp { key: Key },
    MouseButtonDown { button: MouseButton },
    MouseButtonUp { button: MouseButton },
    /// A point of the stroke, with the time as it prints.
    MouseStrokePoint { elapsed_ms: String, point: Point },
    /// Any other input, as it prints itself.
    Other { text: String },
}

/// The name of a button.
pub open spec fn button_name(button: MouseButton) -> Seq<char> {
    match button {
        MouseButton::Left => "left"@,
        MouseButton::Right => "right"@,
        MouseButton::Middle => "middle"@,
        MouseButton::X1 => "x1"@,
        MouseButton::X2 => "x2"@,
    }
}

/// The name of a button.
pub fn button_label(button: MouseButton) -> (r: &'static str)
    ensures
        r@ == button_name(button),
{
    match button {
        MouseButton::Left => "left",
        MouseButton::Right => "right",
        MouseButton::Middle => "middle",
        MouseButton::X1 => "x1",
        MouseButton::X2 => "x2",
    }
}

/// One recorded input as the log prints it.
pub open spec fn label_of_event(event: StrokeEvent) -> Seq<char> {
    match event {
        StrokeEvent::KeyDown { key } => "key_down:"@ + label_of_key(key),
        StrokeEvent::KeyUp { key } => "key_up:"@ + label_of_key(key),
        StrokeEvent::MouseButtonDown { button } => "down:"@ + button_name(button),
        StrokeEvent::MouseButtonUp { button } => "up:"@ + button_name(button),
        StrokeEvent::MouseStrokePoint { elapsed_ms, point } => "stroke_point:"@ + elapsed_ms@
            + ":"@ + screen_text(point),
        StrokeEvent::Other { text } => text@,
    }
}

/// The recorded inputs as the log prints them.
pub open spec fn labels_of_events(events: Seq<StrokeEvent>) -> Seq<Seq<char>> {
    Seq::new(events.len(), |i: int| label_of_event(events[i]))
}

/// Prints one recorded input.
pub fn event_label(event: &StrokeEvent) -> (r: String)
    ensures
        r@ == label_of_event(*event),
{
    match event {
        StrokeEvent::KeyDown { key } => {
            let label = key_label(key);
            cat2("key_down:", label.as_str())
        },
        StrokeEvent::KeyUp { key } => {
            let label = key_label(key);
            cat2("key_up:", label.as_str())
        },
        StrokeEvent::MouseButtonDown { button } => cat2("down:", button_label(*button)),
        StrokeEvent::MouseButtonUp { button } => cat2("up:", button_label(*button)),
        StrokeEvent::MouseStrokePoint { elapsed_ms, point } => {
            let at = print_screen_point(*point);
            cat4("stroke_point:", elapsed_ms.as_str(), ":", at.as_str())
        },
        StrokeEvent::Other { text } => text.clone(),
    }
}

/// Prints the recorded inputs.
pub fn event_sequence(events: &Vec<StrokeEvent>) -> (r: String)
    ensures
        r@ == joined_with(labels_of_events(events@), ">"@),
{
    let mut labels: Vec<String> = Vec::new();
    let mut i: usize = 0;
    while i < events.len()
        invariant
            i <= events@.len(),
            labels@.len() == i,
            forall|k: int| 0 <= k < i ==> (#[trigger] labels@[k])@ == label_of_event(events@[k]),
        decreases events@.len() - i,
    {
        labels.push(event_label(&events[i]));
        i += 1;
    }
    assert(views(labels@) =~= labels_of_events(events@));
    join_texts(&labels, ">")
}

// ---------------------------------------------------------------------------------------------
// Laws
// ---------------------------------------------------------------------------------------------

/// The run after a number of steps, each of which went as `failures` says.
pub open spec fn run_of(start: StrokeRun, failures: Seq<Option<ToolError>>) -> StrokeRun
    decreases failures.len(),
{
    if failures.len() == 0 {
        start
    } else {
        run_of(start, failures.drop_last()).after(failures.last())
    }
}

/// A stroke keeps its counters in order at every step, whatever fails.
pub proof fn law_stroke_stays_in_order(start: StrokeRun, failures: Seq<Option<ToolError>>)
    requires
        start.wf(),
    ensures
        run_of(start, failures).wf(),
        run_of(start, failures).modifier_count == start.modifier_count,
    decreases failures.len(),
{
    if failures.len() > 0 {
        law_stroke_stays_in_order(start, failures.drop_last());
    }
}

/// A stroke is over only when every modifier that went down has been asked to come up, and the
/// outcome is good exactly if nothing failed.
pub proof fn law_finished_stroke_released_every_modifier(run: StrokeRun)
    requires
        run.wf(),
        run.next() is Finish,
    ensures
        run.released == run.pressed,
        run.outcome() is Ok <==> run.failure is None && run.release_failure is None,
        run.outcome() is Ok ==> run.pressed == run.modifier_count,
{
}

/// Modifiers come up in the reverse order of going down: the one released is always the last one
/// that is still down.
pub proof fn law_modifiers_come_up_in_reverse(run: StrokeRun)
    requires
        run.wf(),
        run.next() is Release,
    ensures
        run.next() == StrokeStep::Release((run.pressed - run.released - 1) as usize),
        forall|failure: Option<ToolError>|
            #![trigger run.after(failure)]
            run.after(failure).released == run.released + 1 && run.after(failure).pressed
                == run.pressed,
{
}

/// A bound on the number of steps that are left.
pub open spec fn steps_left(run: StrokeRun) -> int {
    match run.phase {
        StrokePhase::Pressing => 2 * run.modifier_count - run.pressed + 3,
        StrokePhase::Drawing => run.pressed + 2,
        StrokePhase::Settling => run.pressed + 1,
        StrokePhase::Releasing => run.pressed - run.released,
    }
}

/// A stroke ends: every step but the last brings it nearer to its end.
pub proof fn law_stroke_ends(run: StrokeRun, failure: Option<ToolError>)
    requires
        run.wf(),
        !(run.next() is Finish),
    ensures
        0 <= steps_left(run.after(failure)) < steps_left(run),
{
}

/// The settling pause comes only after a stroke that went well while modifiers were held.
pub proof fn law_settles_only_after_a_good_stroke(run: StrokeRun, failure: Option<ToolError>)
    requires
        run.wf(),
        run.after(failure).next() is Settle,
        !(run.next() is Settle),
    ensures
        run.next() is Draw,
        failure is None,
        run.pressed > 0,
{
}

/// A path is made of as many points as its shape has: two for a line, one for an arc or a circle, four
/// for a curve, and its own number for the others. At most 4096 are taken.
pub proof fn law_paths_have_their_points(path: PathShape, n: usize, r: Result<(), ToolError>)
    requires
        call_ensures(control_point_count, (path,), n),
        call_ensures(validate_control_point_cap, (path,), r),
    ensures
        path is Line ==> n == 2,
        path is Arc || path is Circle ==> n == 1,
        path is CubicBezier ==> n == 4,
        path matches PathShape::Polyline { points } ==> n == points,
        path matches PathShape::CatmullRom { waypoints } ==> n == waypoints,
        r is Ok <==> n <= 4096,
{
}

/// A shape is told by its name.
pub proof fn law_paths_are_told_by_their_shape(path: PathShape, r: &'static str)
    requires
        call_ensures(path_kind, (path,), r),
    ensures
        path is Line ==> r@ == "line"@,
        path is Arc ==> r@ == "arc"@,
        path is Circle ==> r@ == "circle"@,
        path is CubicBezier ==> r@ == "cubic_bezier"@,
        path is Polyline ==> r@ == "polyline"@,
        path is CatmullRom ==> r@ == "catmull_rom"@,
{
}

/// A stroke lasts at most a minute: its path can be measured, its speed, where one is given, and its
/// duration are finite and above zero, and the duration is no more than 60000 milliseconds.
pub proof fn law_strokes_last_up_to_a_minute(
    path: Result<(), String>,
    timing: &StrokeTiming,
    r: Result<(), ToolError>,
)
    requires
        call_ensures(validate_duration_cap, (path, timing), r),
    ensures
        r is Ok <==> path is Ok && (timing.speed is Some ==> 0 < timing.speed->Some_0.value.bits
            < 0x7ff0_0000_0000_0000) && 0 < timing.duration_ms.value.bits <= 0x40ed_4c00_0000_0000,
{
}

/// A stroke is planned where its points, its time and its samples are within their bounds and it could
/// be planned at all; the plan is then the one that was made.
pub proof fn law_strokes_are_planned_within_bounds(
    path: PathShape,
    measured: Result<(), String>,
    timing: &StrokeTiming,
    planned: Result<StrokePlan, String>,
    n: usize,
    r: Result<StrokePlan, ToolError>,
)
    requires
        call_ensures(control_point_count, (path,), n),
        call_ensures(validate_and_plan, (path, measured, timing, planned), r),
    ensures
        r is Ok <==> n <= 4096 && measured is Ok && (timing.speed is Some ==> 0
            < timing.speed->Some_0.value.bits < 0x7ff0_0000_0000_0000) && 0
            < timing.duration_ms.value.bits <= 0x40ed_4c00_0000_0000 && planned is Ok && (
        planned->Ok_0).sample_count <= 60_001,
        r is Ok ==> r->Ok_0 == planned->Ok_0,
{
}

/// A press and a release are of the modifier in question, and the stroke is that of the call, each by
/// the backend of the call; a step that waits or ends is no action.
pub proof fn law_steps_are_those_of_the_call<'a, P, V, T, H>(
    params: &'a ActStrokeParams<P, V, T, H>,
    step: StrokeStep,
    r: Option<StrokeAction<'a, P, V, T, H>>,
)
    requires
        call_ensures(action_of_step::<P, V, T, H>, (params, step), r),
    ensures
        step matches StrokeStep::Press(i) ==> (r is Some <==> i < params.modifiers@.len()),
        step matches StrokeStep::Release(i) ==> (r is Some <==> i < params.modifiers@.len()),
        step is Draw ==> r is Some && r->Some_0 is MouseStroke,
        step is Settle || step is Finish ==> r is None,
        step is Press && r is Some ==> r->Some_0 is KeyDown,
        step is Release && r is Some ==> r->Some_0 is KeyUp,
        r matches Some(StrokeAction::KeyDown { key, backend }) ==> {
            &&& step is Press
            &&& key.code is Named && !key.use_scancode
            &&& key.code->Named_value@ == (match params.modifiers@[step->Press_0 as int] {
                StrokeModifier::Ctrl => "ctrl"@,
                StrokeModifier::Shift => "shift"@,
                StrokeModifier::Alt => "alt"@,
                StrokeModifier::Super => "super"@,
            })
            &&& (params.backend is Software <==> backend is Software)
            &&& (params.backend is Hardware <==> backend is Hardware)
            &&& (params.backend is Auto <==> backend is Auto)
        },
        r matches Some(StrokeAction::KeyUp { key, backend }) ==> {
            &&& step is Release
            &&& key.code is Named && !key.use_scancode
            &&& key.code->Named_value@ == (match params.modifiers@[step->Release_0 as int] {
                StrokeModifier::Ctrl => "ctrl"@,
                StrokeModifier::Shift => "shift"@,
                StrokeModifier::Alt => "alt"@,
                StrokeModifier::Super => "super"@,
            })
            &&& (params.backend is Software <==> backend is Software)
            &&& (params.backend is Hardware <==> backend is Hardware)
            &&& (params.backend is Auto <==> backend is Auto)
        },
        r matches Some(
            StrokeAction::MouseStroke { path, button, profile, timing, humanize, backend },
        ) ==> *path == params.path && button == params.button && *profile
            == params.velocity_profile && *timing == params.duration_or_speed && *humanize
            == params.humanize && (params.backend is Software <==> backend is Software) && (
        params.backend is Hardware <==> backend is Hardware) && (params.backend is Auto <==> backend
            is Auto),
{
}

/// A stroke goes on as it must: modifiers are pressed one behind the other, then the stroke is drawn,
/// then they settle and come up from the last to the first. What fails while they are pressed or while
/// the stroke is drawn ends that, and those that are down come up all the same.
pub proof fn law_strokes_go_step_by_step(
    run: &mut StrokeRun,
    step: StrokeStep,
    failure: Option<ToolError>,
)
    requires
        old(run).wf(),
        call_ensures(StrokeRun::next_step, (&*old(run),), step),
        call_ensures(StrokeRun::absorb, (run, failure), ()),
    ensures
        final(run).modifier_count == old(run).modifier_count,
        old(run).phase is Pressing ==> step == StrokeStep::Press(old(run).pressed),
        old(run).phase is Drawing ==> step is Draw,
        old(run).phase is Settling ==> step is Settle,
        old(run).phase is Releasing && old(run).released < old(run).pressed ==> step is Release
            && step->Release_0 == old(run).pressed - 1 - old(run).released,
        old(run).phase is Releasing && old(run).released == old(run).pressed ==> step is Finish,
        step is Press && failure is None ==> final(run).pressed == old(run).pressed + 1 && (final(run).phase is Drawing <==> final(run).pressed == old(run).modifier_count) && (final(run).phase is Pressing <==> final(run).pressed < old(run).modifier_count),
        (step is Press || step is Draw) && failure is Some ==> final(run).phase is Releasing
            && final(run).failure == failure && final(run).pressed == old(run).pressed,
        step is Draw && failure is None ==> final(run).pressed == old(run).pressed && final(run).failure is None && (final(run).phase is Settling <==> old(run).pressed > 0) && (final(run).phase is Releasing <==> old(run).pressed == 0),
        step is Settle ==> final(run).phase is Releasing && final(run).pressed == old(run).pressed
            && final(run).failure == old(run).failure,
        step is Release ==> final(run).phase is Releasing && final(run).released == old(run).released + 1 && final(run).pressed == old(run).pressed && final(run).failure == old(run).failure && (old(run).release_failure is Some ==> final(run).release_failure == old(run).release_failure) && (old(run).release_failure is None ==> final(run).release_failure
            == failure),
        step is Finish ==> *final(run) == *old(run),
{
}

/// A run begins with nothing pressed, at the first modifier, or with the stroke where there is none. It
/// ends as what failed first of the presses and the stroke, or else of the releases, and otherwise
/// well.
pub proof fn law_strokes_begin_and_end(
    modifier_count: usize,
    first: StrokeRun,
    last: StrokeRun,
    r: Result<(), ToolError>,
)
    requires
        call_ensures(StrokeRun::begin, (modifier_count,), first),
        call_ensures(StrokeRun::execute_with_modifiers, (last,), r),
    ensures
        first.modifier_count == modifier_count && first.pressed == 0 && first.released == 0,
        first.failure is None && first.release_failure is None,
        modifier_count > 0 ==> first.phase is Pressing,
        modifier_count == 0 ==> first.phase is Drawing,
        last.failure is Some ==> r == Err::<(), ToolError>(last.failure->Some_0),
        last.failure is None && last.release_failure is Some ==> r == Err::<(), ToolError>(
            last.release_failure->Some_0,
        ),
        r is Ok <==> last.failure is None && last.release_failure is None,
{
}

/// A recorded stroke presses every modifier in order, draws once and releases them in reverse.
pub proof fn law_recorded_strokes_mirror(modifier_count: usize, r: Vec<StrokeStep>, i: int)
    requires
        call_ensures(recording_steps, (modifier_count,), r),
        0 <= i < modifier_count,
    ensures
        r@.len() == 2 * modifier_count + 1,
        r@[i] == StrokeStep::Press(i as usize),
        r@[modifier_count as int] is Draw,
        r@[r@.len() - 1 - i] == StrokeStep::Release(i as usize),
{
}

/// A response tells of the stroke that was drawn: its shape, its button and timing, its modifiers, how
/// many points it had and how long it was; a failure is passed on.
pub proof fn law_strokes_are_reported<P, V, T, H>(
    params: ActStrokeParams<P, V, T, H>,
    plan: &StrokePlan,
    executed: Result<(), ToolError>,
    elapsed_ms: u128,
    n: usize,
    kind: &'static str,
    r: Result<ActStrokeResponse<V, T>, ToolError>,
)
    requires
        call_ensures(control_point_count, (params.path.shape,), n),
        call_ensures(path_kind, (params.path.shape,), kind),
        call_ensures(
            act_stroke_with_handle::<P, V, T, H>,
            (params, plan, executed, elapsed_ms),
            r,
        ),
    ensures
        r is Ok <==> executed is Ok,
        executed is Err ==> r->Err_0 == executed->Err_0,
        r is Ok ==> {
            let told = r->Ok_0;
            &&& told.ok
            &&& told.path_kind@ == kind@
            &&& (n <= 0xffff_ffff ==> told.control_point_count == n)
            &&& told.button_used == params.button
            &&& told.velocity_profile_used == params.velocity_profile
            &&& told.duration_or_speed_used == params.duration_or_speed
            &&& (told.humanized <==> params.humanize is Some)
            &&& (plan.sample_count <= 0xffff_ffff ==> told.point_stream_count
                == plan.sample_count)
            &&& told.path_length_px == plan.path_length_px
            &&& told.duration_ms == plan.duration_ms
            &&& told.modifiers_used@ == params.modifiers@
            &&& (params.backend is Hardware ==> told.backend_used@ == "hardware"@)
            &&& (params.backend !is Hardware ==> told.backend_used@ == "software"@)
            &&& (elapsed_ms <= 0xffff_ffff ==> told.elapsed_ms == elapsed_ms)
        },
{
}

/// An input is labelled by what it does and to what.
pub proof fn law_stroke_inputs_are_labelled(event: &StrokeEvent, r: String)
    requires
        call_ensures(event_label, (event,), r),
    ensures
        *event matches StrokeEvent::KeyDown { key } ==> r@ == "key_down:"@ + label_of_key(key),
        *event matches StrokeEvent::KeyUp { key } ==> r@ == "key_up:"@ + label_of_key(key),
        *event matches StrokeEvent::MouseButtonDown { button } ==> r@ == "down:"@ + (match button {
            MouseButton::Left => "left"@,
            MouseButton::Right => "right"@,
            MouseButton::Middle => "middle"@,
            MouseButton::X1 => "x1"@,
            MouseButton::X2 => "x2"@,
        }),
        *event matches StrokeEvent::MouseButtonUp { button } ==> r@ == "up:"@ + (match button {
            MouseButton::Left => "left"@,
            MouseButton::Right => "right"@,
            MouseButton::Middle => "middle"@,
            MouseButton::X1 => "x1"@,
            MouseButton::X2 => "x2"@,
        }),
        *event matches StrokeEvent::MouseStrokePoint { elapsed_ms, point } ==> r@
            == "stroke_point:"@ + elapsed_ms@ + ":"@ + screen_text(point),
        *event matches StrokeEvent::Other { text } ==> r@ == text@,
{
}

} // verus!
