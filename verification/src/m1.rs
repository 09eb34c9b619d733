//! Perception tools.
//!
//! The state of the perception tools, and what they decide from it: which part of the screen an
//! observation covers, how capture is configured, and how the screen is perceived.

use vstd::prelude::*;

use crate::error::{mcp_error, ErrorView, ToolError, OBSERVE_INTERNAL,
    OBSERVE_NO_PERCEPTION_AVAILABLE};
use crate::geometry::Rect;
use crate::text::{ascii_lower, cat2, equal_ignoring_ascii_case, text_equal};

pub mod browser;
pub mod capture;
pub mod find;
pub mod observation;
pub mod ocr;

use capture::{backend_name, capture_backend_name, capture_config_without_generation_eq,
    capture_readback, capture_target_from_param, capture_target_from_profile_target,
    capture_target_wire, clamp_capture_interval, element_not_resolved, empty_element_window,
    fixed_target, observation_capture_from_capture_config,
    observation_capture_from_profile_capture, observed_target, profiled_target, readback_is,
    readback_of, reported_interval, same_capture, wire_target, CaptureBackend, CaptureConfig,
    CaptureRuntimeReadback, CaptureTarget, ControllerReading, ObservationCaptureConfig, ProfileCapture};
pub use browser::enrich_input_with_cdp;
pub use capture::{CaptureTargetParam, CaptureTargetWire};
pub use find::{match_find_input, FindParams, FindResponse, FindResult, FindResultKind, FindScope};
pub use ocr::{read_text_request_from_bgra, read_text_request_uncached, resolve_read_text_request,
    ReadTextParams, ResolvedReadTextRequest};
use observation::{input_limited_to_depth, limited_focus, nodes_to_depth, ElementId,
    ObservationInput, PerceptionMode};

verus! {

/// How far a log has been read.
#[derive(Debug, PartialEq, Eq)]
pub struct EverQuestLogCursorState {
    pub path: String,
    pub offset: u64,
}

/// The state of the perception tools. How entities are detected is carried along as a `D`.
#[derive(Debug)]
pub struct M1State<D> {
    pub capture_config: CaptureConfig,
    /// What was last read of the capture controller.
    pub capture_controller: ControllerReading,
    pub capture_generation: u64,
    pub active_capture_config: ObservationCaptureConfig,
    pub perception_mode: PerceptionMode,
    /// The mode that the operator has set, while it overrides that of the profile.
    pub manual_perception_mode: Option<PerceptionMode>,
    pub detection_config: D,
    /// Whether a synthetic fixture stands in for the screen.
    pub synthetic: bool,
    pub force_no_perception: bool,
    pub force_observe_internal: bool,
    pub everquest_log_cursor: Option<EverQuestLogCursorState>,
    pub everquest_event_seq: u64,
}

/// Whether a switch in the environment is on: it is `1`, or `true` in any case.
pub open spec fn is_switched_on(value: Option<&str>) -> bool {
    match value {
        Some(text) => text@ == "1"@ || ascii_lower(text@) == ascii_lower("true"@),
        None => false,
    }
}

/// Whether a switch in the environment is on.
pub fn env_switch(value: Option<&str>) -> (r: bool)
    ensures
        r == is_switched_on(value),
{
    match value {
        Some(text) => text_equal(text, "1") || equal_ignoring_ascii_case(text, "true"),
        None => false,
    }
}

/// Whether the environment asks for the synthetic notepad.
pub fn wants_notepad_fixture(value: Option<&str>) -> (r: bool)
    ensures
        r == (value matches Some(text) && ascii_lower(text@) == ascii_lower("notepad"@)),
{
    match value {
        Some(text) => equal_ignoring_ascii_case(text, "notepad"),
        None => false,
    }
}

impl<D> M1State<D> {
    /// The state at the start. `default_config` is how capture is configured by default,
    /// `env_config` how the environment has it, and `detection_config` how entities are detected by
    /// default.
    pub fn initial(
        default_config: &CaptureConfig,
        env_config: CaptureConfig,
        capture_controller: ControllerReading,
        detection_config: D,
        fixture: Option<&str>,
        no_perception: Option<&str>,
        observe_internal: Option<&str>,
    ) -> (r: M1State<D>)
        ensures
            r.capture_config == env_config,
            r.capture_controller == capture_controller,
            r.capture_generation == 0,
            r.active_capture_config.target == observed_target(default_config.target),
            r.active_capture_config.min_update_interval_ms == reported_interval(
                default_config.min_update_interval_ms,
            ),
            r.active_capture_config.cursor_visible == default_config.cursor_visible,
            r.active_capture_config.dirty_region_only == default_config.dirty_region_only,
            r.active_capture_config.generation == 0,
            r.active_capture_config.source@ == "default"@,
            r.perception_mode is Auto,
            r.manual_perception_mode is None,
            r.detection_config == detection_config,
            r.synthetic == (fixture matches Some(text) && ascii_lower(text@) == ascii_lower(
                "notepad"@,
            )),
            r.force_no_perception == is_switched_on(no_perception),
            r.force_observe_internal == is_switched_on(observe_internal),
            r.everquest_log_cursor is None,
            r.everquest_event_seq == 0,
    {
        M1State {
            capture_config: env_config,
            capture_controller,
            capture_generation: 0,
            active_capture_config: observation_capture_from_capture_config(
                default_config,
                0,
                "default".to_owned(),
            ),
            perception_mode: PerceptionMode::Auto,
            manual_perception_mode: None,
            detection_config,
            synthetic: wants_notepad_fixture(fixture),
            force_no_perception: env_switch(no_perception),
            force_observe_internal: env_switch(observe_internal),
            everquest_log_cursor: None,
            everquest_event_seq: 0,
        }
    }

    /// Reports the capture controller.
    pub fn capture_runtime_readback(&self) -> (r: CaptureRuntimeReadback)
        ensures
            readback_is(r, readback_of(self.capture_config, self.capture_controller)),
    {
        capture_readback(&self.capture_config, &self.capture_controller)
    }
}

// ---------------------------------------------------------------------------------------------
// Observing
// ---------------------------------------------------------------------------------------------

/// A part of an observation.
#[derive(Clone, Copy, Debug, PartialEq, Eq, Structural)]
pub enum ObserveSlot {
    Focused,
    Elements,
    Entities,
    Hud,
    Audio,
    Events,
    Clipboard,
    Fs,
    Diagnostics,
}

/// What to observe.
#[derive(Debug)]
pub struct ObserveParams {
    /// The parts asked for; all that are on by default where it is empty.
    pub slots: Vec<ObserveSlot>,
    pub depth: Option<u32>,
    pub max_elements: Option<usize>,
    pub element_offset: Option<usize>,
    pub subtree_root: Option<ElementId>,
    pub since_event_seq: Option<u64>,
}

impl Default for ObserveParams {
    fn default() -> (r: Self)
        ensures
            r.slots@.len() == 0,
            r.depth is None,
            r.max_elements is None,
            r.element_offset is None,
            r.subtree_root is None,
            r.since_event_seq is None,
    {
        ObserveParams {
            slots: Vec::new(),
            depth: None,
            max_elements: None,
            element_offset: None,
            subtree_root: None,
            since_event_seq: None,
        }
    }
}

/// Which parts an observation has, and how much of them.
#[derive(Clone, Copy, Debug, PartialEq, Eq, Structural)]
pub struct ObserveInclude {
    pub focused: bool,
    pub elements: bool,
    pub entities: bool,
    pub hud: bool,
    pub audio: bool,
    pub events: bool,
    pub clipboard: bool,
    pub fs: bool,
    pub diagnostics: bool,
    pub max_subtree_depth: u32,
    pub max_subtree_nodes: usize,
    pub element_offset: usize,
    pub max_entities: usize,
}

/// The depth of an observation: the one asked for up to six, two by default.
pub open spec fn observe_depth(depth: Option<u32>) -> u32 {
    match depth {
        None => 2,
        Some(d) => if d <= 6 {
            d
        } else {
            6
        },
    }
}

/// The number of elements of an observation: the one asked for between one and five hundred, sixty
/// by default.
pub open spec fn observe_nodes(max_elements: Option<usize>) -> usize {
    match max_elements {
        None => 60,
        Some(n) => if n < 1 {
            1
        } else if n > 500 {
            500
        } else {
            n
        },
    }
}

/// The first element of an observation: the one asked for up to a hundred thousand.
pub open spec fn observe_offset(offset: Option<usize>) -> usize {
    match offset {
        None => 0,
        Some(n) => if n <= 100_000 {
            n
        } else {
            100_000
        },
    }
}

/// Which parts an observation has: those asked for, or the default ones where none is.
pub open spec fn included(params: ObserveParams, default: ObserveInclude) -> ObserveInclude {
    let slots = params.slots@;
    let none = slots.len() == 0;
    ObserveInclude {
        focused: if none { default.focused } else { slots.contains(ObserveSlot::Focused) },
        elements: if none { default.elements } else { slots.contains(ObserveSlot::Elements) },
        entities: if none { default.entities } else { slots.contains(ObserveSlot::Entities) },
        hud: if none { default.hud } else { slots.contains(ObserveSlot::Hud) },
        audio: if none { default.audio } else { slots.contains(ObserveSlot::Audio) },
        events: if none { default.events } else { slots.contains(ObserveSlot::Events) },
        clipboard: if none { default.clipboard } else { slots.contains(ObserveSlot::Clipboard) },
        fs: if none { default.fs } else { slots.contains(ObserveSlot::Fs) },
        diagnostics: if none {
            default.diagnostics
        } else {
            slots.contains(ObserveSlot::Diagnostics)
        },
        max_subtree_depth: observe_depth(params.depth),
        max_subtree_nodes: observe_nodes(params.max_elements),
        element_offset: observe_offset(params.element_offset),
        max_entities: if none { default.max_entities } else { 60 },
    }
}

fn asks_for(slots: &Vec<ObserveSlot>, slot: ObserveSlot) -> (r: bool)
    ensures
        r == slots@.contains(slot),
{
    let mut i: usize = 0;
    while i < slots.len()
        invariant
            i <= slots@.len(),
            forall|k: int| 0 <= k < i ==> slots@[k] != slot,
        decreases slots@.len() - i,
    {
        if slots[i] == slot {
            assert(slots@[i as int] == slot);
            return true;
        }
        i += 1;
    }
    false
}

fn limit_depth(depth: Option<u32>) -> (r: u32)
    ensures
        r == observe_depth(depth),
{
    match depth {
        None => 2,
        Some(d) => if d <= 6 {
            d
        } else {
            6
        },
    }
}

/// Decides which parts an observation has. `default` is what an observation has by default.
pub fn observe_include(params: &ObserveParams, default: ObserveInclude) -> (r: ObserveInclude)
    ensures
        r == included(*params, default),
{
    let mut parts: ObserveInclude = if params.slots.len() == 0 {
        default
    } else {
        ObserveInclude {
            focused: asks_for(&params.slots, ObserveSlot::Focused),
            elements: asks_for(&params.slots, ObserveSlot::Elements),
            entities: asks_for(&params.slots, ObserveSlot::Entities),
            hud: asks_for(&params.slots, ObserveSlot::Hud),
            audio: asks_for(&params.slots, ObserveSlot::Audio),
            events: asks_for(&params.slots, ObserveSlot::Events),
            clipboard: asks_for(&params.slots, ObserveSlot::Clipboard),
            fs: asks_for(&params.slots, ObserveSlot::Fs),
            diagnostics: asks_for(&params.slots, ObserveSlot::Diagnostics),
            max_subtree_depth: 2,
            max_subtree_nodes: 60,
            element_offset: 0,
            max_entities: 60,
        }
    };
    parts.max_subtree_depth = limit_depth(params.depth);
    parts.max_subtree_nodes = match params.max_elements {
        None => 60,
        Some(n) => if n < 1 {
            1
        } else if n > 500 {
            500
        } else {
            n
        },
    };
    parts.element_offset = match params.element_offset {
        None => 0,
        Some(n) => if n <= 100_000 {
            n
        } else {
            100_000
        },
    };
    parts
}

/// Why the screen cannot be looked at, if the state says so.
pub open spec fn forced_error<D>(state: M1State<D>) -> Option<ErrorView> {
    if state.force_observe_internal {
        Some(
            ErrorView { code: OBSERVE_INTERNAL@, message: "forced observe internal error"@ },
        )
    } else if state.force_no_perception {
        Some(
            ErrorView {
                code: OBSERVE_NO_PERCEPTION_AVAILABLE@,
                message: "no perception source is available"@,
            },
        )
    } else {
        None
    }
}

/// An input carries the capture configuration and the report of the state.
pub open spec fn carries_capture<D, N, C>(
    input: ObservationInput<N, C>,
    state: M1State<D>,
) -> bool {
    &&& input.capture_config == Some(state.active_capture_config)
    &&& input.capture_runtime is Some
    &&& readback_is(
        input.capture_runtime->Some_0,
        readback_of(state.capture_config, state.capture_controller),
    )
}

/// The input that the synthetic fixture gives.
pub open spec fn is_synthetic_input<D, N, C>(
    input: ObservationInput<N, C>,
    fixture: ObservationInput<N, C>,
    state: M1State<D>,
    depth: u32,
) -> bool {
    &&& input.elements@ == nodes_to_depth(fixture.elements@, depth)
    &&& limited_focus(fixture.focused, input.elements@, input.focused)
    &&& input.entities == fixture.entities
    &&& input.foreground == fixture.foreground
    &&& input.mode_override == (if state.perception_mode is Auto {
        fixture.mode_override
    } else {
        Some(state.perception_mode)
    })
    &&& input.capture_status == fixture.capture_status
    &&& input.cdp == fixture.cdp
    &&& input.web_path == fixture.web_path
    &&& carries_capture(input, state)
}

/// An input of the platform with the capture configuration and the report added.
pub open spec fn is_platform_input<D, N, C>(
    input: ObservationInput<N, C>,
    read: ObservationInput<N, C>,
    state: M1State<D>,
) -> bool {
    &&& carries_capture(input, state)
    &&& input == (ObservationInput {
        capture_config: input.capture_config,
        capture_runtime: input.capture_runtime,
        ..read
    })
}

fn with_capture<D, N, C>(input: ObservationInput<N, C>, state: &M1State<D>) -> (r: ObservationInput<
    N,
    C,
>)
    ensures
        is_platform_input(r, input, *state),
{
    let mut input = input;
    input.capture_config = Some(state.active_capture_config.clone());
    input.capture_runtime = Some(state.capture_runtime_readback());
    input
}

/// Looks at the screen, or at the synthetic fixture where the state has one. `read` is what the
/// platform gave, or the fixture.
pub fn current_input<D, N, C>(
    state: &M1State<D>,
    depth: u32,
    read: Result<ObservationInput<N, C>, ToolError>,
) -> (r: Result<ObservationInput<N, C>, ToolError>)
    ensures
        if forced_error(*state) is Some {
            r matches Err(e) && forced_error(*state) == Some(e@)
        } else {
            match read {
                Err(e) => r == Err::<ObservationInput<N, C>, ToolError>(e),
                Ok(read) => if state.synthetic {
                    r matches Ok(input) && is_synthetic_input(input, read, *state, depth)
                } else {
                    r matches Ok(input) && is_platform_input(input, read, *state)
                },
            }
        },
{
    if state.force_observe_internal {
        return Err(mcp_error(OBSERVE_INTERNAL, "forced observe internal error".to_owned()));
    }
    if state.force_no_perception {
        return Err(
            mcp_error(
                OBSERVE_NO_PERCEPTION_AVAILABLE,
                "no perception source is available".to_owned(),
            ),
        );
    }
    let read = match read {
        Ok(read) => read,
        Err(e) => {
            return Err(e);
        },
    };
    if state.synthetic {
        let mut input = input_limited_to_depth(read, depth);
        if state.perception_mode != PerceptionMode::Auto {
            input.mode_override = Some(state.perception_mode);
        }
        return Ok(with_capture(input, state));
    }
    Ok(with_capture(read, state))
}

/// Where the input of an observation comes from.
#[derive(Debug)]
pub enum ObserveSource {
    /// The subtree of an element, down to a depth.
    Subtree { depth: u32 },
    /// The current screen, down to a depth.
    Current { depth: u32 },
}

/// Decides where the input of an observation comes from.
pub fn observe_input(params: &ObserveParams) -> (r: ObserveSource)
    ensures
        r == (if params.subtree_root is Some {
            ObserveSource::Subtree { depth: observe_depth(params.depth) }
        } else {
            ObserveSource::Current { depth: observe_depth(params.depth) }
        }),
{
    let depth: u32 = limit_depth(params.depth);
    if params.subtree_root.is_some() {
        ObserveSource::Subtree { depth }
    } else {
        ObserveSource::Current { depth }
    }
}

/// How deep `find` walks the tree.
pub const FIND_SNAPSHOT_DEPTH: u32 = 16;

/// Most web nodes that `find` folds in.
pub const FIND_CDP_MAX_NODES: usize = 300;

/// Most web nodes that `find` folds in.
pub fn find_cdp_max_nodes() -> (r: usize)
    ensures
        r == FIND_CDP_MAX_NODES,
{
    FIND_CDP_MAX_NODES
}

/// How deep `find` walks the tree.
pub fn find_snapshot_depth() -> (r: u32)
    ensures
        r == FIND_SNAPSHOT_DEPTH,
{
    FIND_SNAPSHOT_DEPTH
}

/// An input with the entities that detection gives for it.
pub open spec fn with_detected<N, C>(
    read: ObservationInput<N, C>,
    detected: Vec<N>,
) -> ObservationInput<N, C> {
    ObservationInput { entities: detected, ..read }
}

/// Builds the input that `find` searches: the window asked for, or the current screen, with the
/// entities that were detected there. `read` is what was read of it, `detected` what detection then
/// gives for it.
pub fn build_find_input<D, N, C>(
    state: &M1State<D>,
    window_hwnd: Option<i64>,
    read: Result<ObservationInput<N, C>, ToolError>,
    detected: Vec<N>,
) -> (r: Result<ObservationInput<N, C>, ToolError>)
    ensures
        if window_hwnd is Some {
            match read {
                Err(e) => r == Err::<ObservationInput<N, C>, ToolError>(e),
                Ok(read) => r matches Ok(input) && is_platform_input(
                    input,
                    with_detected(read, detected),
                    *state,
                ),
            }
        } else if forced_error(*state) is Some {
            r matches Err(e) && forced_error(*state) == Some(e@)
        } else {
            match read {
                Err(e) => r == Err::<ObservationInput<N, C>, ToolError>(e),
                Ok(read) => if state.synthetic {
                    r matches Ok(input) && is_synthetic_input(
                        input,
                        with_detected(read, detected),
                        *state,
                        FIND_SNAPSHOT_DEPTH,
                    )
                } else {
                    r matches Ok(input) && is_platform_input(
                        input,
                        with_detected(read, detected),
                        *state,
                    )
                },
            }
        },
{
    let seen = match read {
        Ok(read) => {
            let mut read = read;
            read.entities = detected;
            Ok(read)
        },
        Err(e) => Err(e),
    };
    if window_hwnd.is_some() {
        return match seen {
            Ok(seen) => Ok(with_capture(seen, state)),
            Err(e) => Err(e),
        };
    }
    current_input(state, FIND_SNAPSHOT_DEPTH, seen)
}

// ---------------------------------------------------------------------------------------------
// Capture target
// ---------------------------------------------------------------------------------------------

/// How capture is to be set.
#[derive(Debug)]
pub struct SetCaptureTargetParams {
    pub target: CaptureTargetParam,
    pub min_update_interval_ms: Option<u64>,
    pub cursor_visible: Option<bool>,
    pub dirty_region_only: Option<bool>,
}

/// What setting the capture target reports.
#[derive(Debug, PartialEq, Eq)]
pub struct SetCaptureTargetResponse {
    pub previous: CaptureTargetWire,
    pub current: CaptureTargetWire,
    pub generation: u64,
    pub backend: String,
    pub capture_runtime: CaptureRuntimeReadback,
}

/// The configuration that a request asks for, given its target.
pub open spec fn requested_config(
    before: CaptureConfig,
    params: SetCaptureTargetParams,
    target: CaptureTarget,
) -> CaptureConfig {
    CaptureConfig {
        target,
        min_update_interval_ms: match params.min_update_interval_ms {
            Some(ms) => if ms < 16 {
                16
            } else {
                ms
            },
            None => before.min_update_interval_ms,
        },
        cursor_visible: match params.cursor_visible {
            Some(b) => b,
            None => before.cursor_visible,
        },
        dirty_region_only: match params.dirty_region_only {
            Some(b) => b,
            None => before.dirty_region_only,
        },
        ..before
    }
}

/// The reported configuration after a target was set by hand.
pub open spec fn is_manual_capture(
    active: ObservationCaptureConfig,
    config: CaptureConfig,
    generation: u64,
) -> bool {
    &&& active.target == observed_target(config.target)
    &&& active.min_update_interval_ms == reported_interval(config.min_update_interval_ms)
    &&& active.cursor_visible == config.cursor_visible
    &&& active.dirty_region_only == config.dirty_region_only
    &&& active.generation == generation
    &&& active.source@ == "manual"@
}

/// Plans the configuration that a request asks for. `element_rect` is what was read of the element's
/// rectangle where the request names one.
pub fn plan_capture_target<D>(
    state: &M1State<D>,
    params: SetCaptureTargetParams,
    element_rect: Result<Rect, String>,
) -> (r: Result<CaptureConfig, ToolError>)
    ensures
        match params.target {
            CaptureTargetParam::Primary => r == Ok::<CaptureConfig, ToolError>(
                requested_config(state.capture_config, params, CaptureTarget::Primary),
            ),
            CaptureTargetParam::Monitor { monitor_index } => r == Ok::<CaptureConfig, ToolError>(
                requested_config(
                    state.capture_config,
                    params,
                    CaptureTarget::Monitor { monitor_index },
                ),
            ),
            CaptureTargetParam::Window { window_hwnd } => r == Ok::<CaptureConfig, ToolError>(
                requested_config(
                    state.capture_config,
                    params,
                    CaptureTarget::Window { hwnd: window_hwnd },
                ),
            ),
            CaptureTargetParam::ElementWindow { element_id } => match element_rect {
                Err(detail) => r matches Err(e) && e@ == element_not_resolved(detail@),
                Ok(rect) => if rect.has_area() {
                    r == Ok::<CaptureConfig, ToolError>(
                        requested_config(
                            state.capture_config,
                            params,
                            CaptureTarget::Window { hwnd: element_id.hwnd },
                        ),
                    )
                } else {
                    r matches Err(e) && e@ == empty_element_window(element_id.text(), rect)
                },
            },
        },
{
    let mut config = state.capture_config;
    config.target = match capture_target_from_param(params.target, element_rect) {
        Ok(target) => target,
        Err(e) => {
            return Err(e);
        },
    };
    if let Some(interval) = params.min_update_interval_ms {
        config.min_update_interval_ms = clamp_capture_interval(interval);
    }
    if let Some(cursor_visible) = params.cursor_visible {
        config.cursor_visible = cursor_visible;
    }
    if let Some(dirty_region_only) = params.dirty_region_only {
        config.dirty_region_only = dirty_region_only;
    }
    Ok(config)
}

/// What a configuration was resolved to.
#[derive(Debug)]
pub struct ResolvedCapture {
    pub target: CaptureTarget,
    pub backend: CaptureBackend,
}

/// What the controller says after it has switched to a configuration.
#[derive(Debug)]
pub struct SwitchedCapture {
    pub generation: u64,
    pub reading: ControllerReading,
}

/// Sets the capture target. `planned` is what the request asks for, `resolved` how resolving that
/// went, `switched` how switching the controller to it went; the first of the three that failed
/// refuses the request, and the state is left as it is.
pub fn set_capture_target_in_state<D>(
    state: &mut M1State<D>,
    planned: Result<CaptureConfig, ToolError>,
    resolved: Result<ResolvedCapture, ToolError>,
    switched: Result<SwitchedCapture, ToolError>,
) -> (r: Result<SetCaptureTargetResponse, ToolError>)
    ensures
        match (planned, resolved, switched) {
            (Err(e), _, _) => r == Err::<SetCaptureTargetResponse, ToolError>(e) && *final(state)
                == *old(state),
            (Ok(_), Err(e), _) => r == Err::<SetCaptureTargetResponse, ToolError>(e) && *final(state) == *old(state),
            (Ok(_), Ok(_), Err(e)) => r == Err::<SetCaptureTargetResponse, ToolError>(e) && *final(state) == *old(state),
            (Ok(config), Ok(resolved), Ok(switched)) => {
                &&& r matches Ok(response)
                &&& response.previous == wire_target(old(state).capture_config.target)
                &&& response.current == wire_target(resolved.target)
                &&& response.generation == switched.generation
                &&& response.backend@ == backend_name(resolved.backend)
                &&& readback_is(response.capture_runtime, readback_of(config, switched.reading))
                &&& is_manual_capture(
                    final(state).active_capture_config,
                    config,
                    switched.generation,
                )
                &&& *final(state) == (M1State {
                    capture_config: config,
                    capture_controller: switched.reading,
                    capture_generation: switched.generation,
                    active_capture_config: final(state).active_capture_config,
                    ..*old(state)
                })
            },
        },
{
    let previous = capture_target_wire(&state.capture_config.target);
    let config: CaptureConfig = match planned {
        Ok(config) => config,
        Err(e) => {
            return Err(e);
        },
    };
    let resolved: ResolvedCapture = match resolved {
        Ok(resolved) => resolved,
        Err(e) => {
            return Err(e);
        },
    };
    let switched: SwitchedCapture = match switched {
        Ok(switched) => switched,
        Err(e) => {
            return Err(e);
        },
    };
    state.capture_controller = switched.reading;
    state.capture_config = config;
    state.capture_generation = switched.generation;
    state.active_capture_config = observation_capture_from_capture_config(
        &config,
        switched.generation,
        "manual".to_owned(),
    );
    Ok(
        SetCaptureTargetResponse {
            previous,
            current: capture_target_wire(&resolved.target),
            generation: switched.generation,
            backend: capture_backend_name(resolved.backend).to_owned(),
            capture_runtime: state.capture_runtime_readback(),
        },
    )
}

// ---------------------------------------------------------------------------------------------
// Profiles and perception mode
// ---------------------------------------------------------------------------------------------

/// What of a profile bears on perception.
#[derive(Debug)]
pub struct Profile {
    pub id: String,
    pub mode: PerceptionMode,
    pub capture: ProfileCapture,
}

/// The configuration that a profile asks for.
pub open spec fn profile_config(before: CaptureConfig, capture: ProfileCapture) -> CaptureConfig {
    CaptureConfig {
        min_update_interval_ms: if capture.min_update_interval_ms < 16 {
            16
        } else {
            capture.min_update_interval_ms as u64
        },
        cursor_visible: capture.cursor_visible,
        target: match fixed_target(capture.target) {
            Some(target) => target,
            None => before.target,
        },
        ..before
    }
}

/// The configuration that a profile asks for; its target must be resolved before the profile is
/// applied where the profile fixes one.
pub fn plan_profile_capture<D>(state: &M1State<D>, profile: &Profile) -> (r: (CaptureConfig, bool))
    ensures
        r.0 == profile_config(state.capture_config, profile.capture),
        r.1 == (fixed_target(profile.capture.target) is Some),
{
    let mut config = state.capture_config;
    config.min_update_interval_ms = if profile.capture.min_update_interval_ms < 16 {
        16
    } else {
        profile.capture.min_update_interval_ms as u64
    };
    config.cursor_visible = profile.capture.cursor_visible;
    match capture_target_from_profile_target(&profile.capture.target) {
        Some(target) => {
            config.target = target;
            (config, true)
        },
        None => (config, false),
    }
}

/// The mode after a profile is applied: that of the profile, unless the operator has set one.
pub open spec fn mode_under_profile<D>(state: M1State<D>, profile: Profile) -> PerceptionMode {
    if state.manual_perception_mode is None {
        profile.mode
    } else {
        state.perception_mode
    }
}

/// The reported configuration under a profile, but for its generation.
pub open spec fn profile_capture_is(
    c: ObservationCaptureConfig,
    profile: Profile,
    dirty_region_only: bool,
) -> bool {
    &&& c.target == profiled_target(profile.capture.target)
    &&& c.min_update_interval_ms == reported_interval(
        profile.capture.min_update_interval_ms as u64,
    )
    &&& c.cursor_visible == profile.capture.cursor_visible
    &&& c.dirty_region_only == dirty_region_only
    &&& c.source@ == "profile:"@ + profile.id@
}

/// The generation after a change.
pub open spec fn next_generation(generation: u64) -> u64 {
    if generation < u64::MAX {
        (generation + 1) as u64
    } else {
        u64::MAX
    }
}

/// Applies a profile. `detection` is how the profile has entities detected. `resolved` is how resolving
/// the planned target went, and counts only where the profile fixes one; where it failed, the mode and
/// the detection are applied and nothing else. The generation advances exactly where the reported
/// configuration changes.
pub fn apply_profile_runtime_config_in_state<D>(
    state: &mut M1State<D>,
    profile: &Profile,
    detection: D,
    resolved: Result<(), ToolError>,
) -> (r: Result<ObservationCaptureConfig, ToolError>)
    ensures
        final(state).perception_mode == mode_under_profile(*old(state), *profile),
        final(state).manual_perception_mode == old(state).manual_perception_mode,
        if fixed_target(profile.capture.target) is Some && resolved is Err {
            &&& r == Err::<ObservationCaptureConfig, ToolError>(resolved->Err_0)
            &&& *final(state) == (M1State {
                perception_mode: mode_under_profile(*old(state), *profile),
                detection_config: detection,
                ..*old(state)
            })
        } else {
            &&& r matches Ok(active)
            &&& active == final(state).active_capture_config
            &&& profile_capture_is(active, *profile, old(state).capture_config.dirty_region_only)
            &&& final(state).capture_generation == active.generation || same_capture(
                old(state).active_capture_config,
                active,
            )
            &&& if same_capture(old(state).active_capture_config, active) {
                active.generation == old(state).active_capture_config.generation
                    && final(state).capture_generation == old(state).capture_generation
            } else {
                active.generation == next_generation(old(state).capture_generation)
                    && final(state).capture_generation == next_generation(
                    old(state).capture_generation,
                )
            }
            &&& *final(state) == (M1State {
                perception_mode: mode_under_profile(*old(state), *profile),
                detection_config: detection,
                capture_config: profile_config(old(state).capture_config, profile.capture),
                capture_generation: final(state).capture_generation,
                active_capture_config: final(state).active_capture_config,
                ..*old(state)
            })
        },
{
    if state.manual_perception_mode.is_none() {
        state.perception_mode = profile.mode;
    }
    state.detection_config = detection;
    let (config, fixes_target) = plan_profile_capture(state, profile);
    if fixes_target {
        if let Err(e) = resolved {
            return Err(e);
        }
        state.capture_config.target = config.target;
    }
    state.capture_config.min_update_interval_ms = config.min_update_interval_ms;
    state.capture_config.cursor_visible = config.cursor_visible;
    let mut active_capture = observation_capture_from_profile_capture(
        &profile.capture,
        state.capture_config.dirty_region_only,
        state.capture_generation,
        cat2("profile:", profile.id.as_str()),
    );
    if !capture_config_without_generation_eq(&state.active_capture_config, &active_capture) {
        state.capture_generation = state.capture_generation.saturating_add(1);
        active_capture.generation = state.capture_generation;
    } else {
        active_capture.generation = state.active_capture_config.generation;
    }
    state.active_capture_config = active_capture.clone();
    Ok(active_capture)
}

/// How the screen is to be perceived.
#[derive(Debug)]
pub struct SetPerceptionModeParams {
    pub mode: String,
}

/// What setting the mode reports.
#[derive(Debug, PartialEq, Eq)]
pub struct SetPerceptionModeResponse {
    pub previous: PerceptionMode,
    pub mode: PerceptionMode,
    pub rationale: String,
}

/// Why a mode is in force.
pub open spec fn rationale_of(mode: PerceptionMode) -> Seq<char> {
    match mode {
        PerceptionMode::Auto => "auto_select_by_foreground_and_a11y_density"@,
        PerceptionMode::A11yOnly => "manual_a11y_only"@,
        PerceptionMode::PixelOnly => "manual_pixel_only"@,
        PerceptionMode::Hybrid => "manual_hybrid"@,
    }
}

/// Why a mode is in force.
pub fn mode_rationale(mode: PerceptionMode) -> (r: &'static str)
    ensures
        r@ == rationale_of(mode),
{
    match mode {
        PerceptionMode::Auto => "auto_select_by_foreground_and_a11y_density",
        PerceptionMode::A11yOnly => "manual_a11y_only",
        PerceptionMode::PixelOnly => "manual_pixel_only",
        PerceptionMode::Hybrid => "manual_hybrid",
    }
}

/// The state after the operator has set a mode: any mode but `auto` overrides the profile.
pub open spec fn with_mode<D>(state: M1State<D>, mode: PerceptionMode) -> M1State<D> {
    M1State {
        perception_mode: mode,
        manual_perception_mode: if mode is Auto {
            None
        } else {
            Some(mode)
        },
        ..state
    }
}

/// Sets the mode. `parsed` is what the name in the request was read as.
pub fn set_perception_mode_in_state<D>(
    state: &mut M1State<D>,
    parsed: Result<PerceptionMode, ToolError>,
) -> (r: Result<SetPerceptionModeResponse, ToolError>)
    ensures
        match parsed {
            Err(e) => r == Err::<SetPerceptionModeResponse, ToolError>(e) && *final(state) == *old(state),
            Ok(mode) => {
                &&& *final(state) == with_mode(*old(state), mode)
                &&& r matches Ok(response)
                &&& response.previous == old(state).perception_mode
                &&& response.mode == mode
                &&& response.rationale@ == rationale_of(mode)
            },
        },
{
    let previous = state.perception_mode;
    let mode = match parsed {
        Ok(mode) => mode,
        Err(e) => {
            return Err(e);
        },
    };
    state.perception_mode = mode;
    state.manual_perception_mode = if mode != PerceptionMode::Auto {
        Some(mode)
    } else {
        None
    };
    Ok(
        SetPerceptionModeResponse {
            previous,
            mode,
            rationale: mode_rationale(mode).to_owned(),
        },
    )
}

// ---------------------------------------------------------------------------------------------
// Laws
// ---------------------------------------------------------------------------------------------

/// A mode that the operator has set survives every profile; `auto` hands the choice back to the
/// profile.
pub proof fn law_manual_mode_survives_profiles<D>(
    state: M1State<D>,
    mode: PerceptionMode,
    profile: Profile,
)
    ensures
        mode !is Auto ==> mode_under_profile(with_mode(state, mode), profile) == mode,
        mode is Auto ==> mode_under_profile(with_mode(state, mode), profile) == profile.mode,
{
}

/// However much is asked for, an observation stays within its limits.
pub proof fn law_observation_stays_within_limits(params: ObserveParams, default: ObserveInclude)
    ensures
        included(params, default).max_subtree_depth <= 6,
        1 <= included(params, default).max_subtree_nodes <= 500,
        included(params, default).element_offset <= 100_000,
{
}

/// A part is in an observation exactly if it was asked for, once anything was.
pub proof fn law_observation_has_what_was_asked_for(params: ObserveParams, default: ObserveInclude)
    requires
        params.slots@.len() > 0,
    ensures
        included(params, default).focused == params.slots@.contains(ObserveSlot::Focused),
        included(params, default).elements == params.slots@.contains(ObserveSlot::Elements),
        included(params, default).entities == params.slots@.contains(ObserveSlot::Entities),
        included(params, default).hud == params.slots@.contains(ObserveSlot::Hud),
        included(params, default).audio == params.slots@.contains(ObserveSlot::Audio),
        included(params, default).events == params.slots@.contains(ObserveSlot::Events),
        included(params, default).clipboard == params.slots@.contains(ObserveSlot::Clipboard),
        included(params, default).fs == params.slots@.contains(ObserveSlot::Fs),
        included(params, default).diagnostics == params.slots@.contains(ObserveSlot::Diagnostics),
        included(params, default).max_entities == 60,
{
}

/// What is asked for within the limits is what is observed: the depth, the number of elements and the
/// element to begin at are those of the caller. Beyond a limit the limit is taken, and the default
/// where nothing was asked for.
pub proof fn law_observation_goes_as_far_as_asked(
    params: &ObserveParams,
    default: ObserveInclude,
    r: ObserveInclude,
)
    requires
        call_ensures(observe_include, (params, default), r),
    ensures
        params.depth is Some && params.depth->Some_0 <= 6 ==> Some(r.max_subtree_depth)
            == params.depth,
        params.depth is Some && params.depth->Some_0 > 6 ==> r.max_subtree_depth == 6,
        params.depth is None ==> r.max_subtree_depth == 2,
        params.max_elements is Some && 1 <= params.max_elements->Some_0 <= 500 ==> Some(
            r.max_subtree_nodes,
        ) == params.max_elements,
        params.max_elements == Some(0usize) ==> r.max_subtree_nodes == 1,
        params.max_elements is Some && params.max_elements->Some_0 > 500 ==> r.max_subtree_nodes
            == 500,
        params.max_elements is None ==> r.max_subtree_nodes == 60,
        params.element_offset is Some && params.element_offset->Some_0 <= 100_000 ==> Some(
            r.element_offset,
        ) == params.element_offset,
        params.element_offset is Some && params.element_offset->Some_0 > 100_000
            ==> r.element_offset == 100_000,
        params.element_offset is None ==> r.element_offset == 0,
{
}

/// Where no part is asked for, the parts are those of the default; where some are, a part is there
/// exactly if it is one of them.
pub proof fn law_observation_has_the_parts_asked_for(
    params: &ObserveParams,
    default: ObserveInclude,
    r: ObserveInclude,
)
    requires
        call_ensures(observe_include, (params, default), r),
    ensures
        params.slots@.len() == 0 ==> r.focused == default.focused && r.elements == default.elements
            && r.entities == default.entities && r.hud == default.hud && r.audio == default.audio
            && r.events == default.events && r.clipboard == default.clipboard && r.fs
            == default.fs && r.diagnostics == default.diagnostics && r.max_entities
            == default.max_entities,
        params.slots@.len() > 0 ==> {
            &&& r.focused == (exists|i: int|
                0 <= i < params.slots@.len() && #[trigger] params.slots@[i] is Focused)
            &&& r.elements == (exists|i: int|
                0 <= i < params.slots@.len() && #[trigger] params.slots@[i] is Elements)
            &&& r.entities == (exists|i: int|
                0 <= i < params.slots@.len() && #[trigger] params.slots@[i] is Entities)
            &&& r.hud == (exists|i: int|
                0 <= i < params.slots@.len() && #[trigger] params.slots@[i] is Hud)
            &&& r.audio == (exists|i: int|
                0 <= i < params.slots@.len() && #[trigger] params.slots@[i] is Audio)
            &&& r.events == (exists|i: int|
                0 <= i < params.slots@.len() && #[trigger] params.slots@[i] is Events)
            &&& r.clipboard == (exists|i: int|
                0 <= i < params.slots@.len() && #[trigger] params.slots@[i] is Clipboard)
            &&& r.fs == (exists|i: int|
                0 <= i < params.slots@.len() && #[trigger] params.slots@[i] is Fs)
            &&& r.diagnostics == (exists|i: int|
                0 <= i < params.slots@.len() && #[trigger] params.slots@[i] is Diagnostics)
            &&& r.max_entities == 60
        },
{
}

/// An observation is taken of the subtree that the caller names, and of the whole window where none
/// is named; in either case down to the depth that the observation reports.
pub proof fn law_observation_is_of_the_subtree_asked_for(
    params: &ObserveParams,
    default: ObserveInclude,
    r: ObserveSource,
    parts: ObserveInclude,
)
    requires
        call_ensures(observe_input, (params,), r),
        call_ensures(observe_include, (params, default), parts),
    ensures
        r is Subtree <==> params.subtree_root is Some,
        r is Subtree ==> r->Subtree_depth == parts.max_subtree_depth,
        r is Current ==> r->Current_depth == parts.max_subtree_depth,
{
}

/// A switch is on where its value is `1` or the word `true` in any case, and off otherwise.
pub proof fn law_switches_are_on_by_one_or_true(value: Option<&str>, r: bool)
    requires
        call_ensures(env_switch, (value,), r),
    ensures
        value is None ==> !r,
        value is Some && value->Some_0@ == seq!['1'] ==> r,
        value is Some && value->Some_0@.len() == 4 && (value->Some_0@[0] == 't' || value->Some_0@[0]
            == 'T') && (value->Some_0@[1] == 'r' || value->Some_0@[1] == 'R') && (value->Some_0@[2]
            == 'u' || value->Some_0@[2] == 'U') && (value->Some_0@[3] == 'e' || value->Some_0@[3]
            == 'E') ==> r,
        r ==> value is Some && (value->Some_0@ == seq!['1'] || value->Some_0@.len() == 4),
{
    reveal_strlit("1");
    reveal_strlit("true");
    assert("1"@ =~= seq!['1']);
    if value is Some {
        let text = value->Some_0@;
        let word = "true"@;
        if text.len() == 4 && (text[0] == 't' || text[0] == 'T') && (text[1] == 'r' || text[1]
            == 'R') && (text[2] == 'u' || text[2] == 'U') && (text[3] == 'e' || text[3] == 'E') {
            assert(ascii_lower(text) =~= ascii_lower(word));
        }
        if ascii_lower(text) == ascii_lower(word) {
            assert(ascii_lower(text).len() == text.len());
            assert(ascii_lower(word).len() == 4);
        }
    }
}

/// A new state has a clean slate: nothing is forced that was not switched on, the operator has set no
/// mode, the log was not read, and the capture is that of the configurations it was made with.
pub proof fn law_new_states_are_as_configured<D>(
    default_config: &CaptureConfig,
    env_config: CaptureConfig,
    capture_controller: ControllerReading,
    detection_config: D,
    fixture: Option<&str>,
    no_perception: Option<&str>,
    observe_internal: Option<&str>,
    r: M1State<D>,
    on: bool,
)
    requires
        call_ensures(
            M1State::<D>::initial,
            (
                default_config,
                env_config,
                capture_controller,
                detection_config,
                fixture,
                no_perception,
                observe_internal,
            ),
            r,
        ),
    ensures
        r.capture_config == env_config,
        r.capture_controller == capture_controller,
        r.detection_config == detection_config,
        r.perception_mode is Auto,
        r.manual_perception_mode is None,
        call_ensures(env_switch, (no_perception,), on) ==> r.force_no_perception == on,
        call_ensures(env_switch, (observe_internal,), on) ==> r.force_observe_internal == on,
        call_ensures(wants_notepad_fixture, (fixture,), on) ==> r.synthetic == on,
        r.capture_generation == 0 && r.active_capture_config.generation == 0,
        r.active_capture_config.source@ == "default"@,
        r.active_capture_config.cursor_visible == default_config.cursor_visible,
        r.active_capture_config.dirty_region_only == default_config.dirty_region_only,
        16 <= default_config.min_update_interval_ms <= u32::MAX
            ==> r.active_capture_config.min_update_interval_ms
            == default_config.min_update_interval_ms,
        default_config.target matches CaptureTarget::Window { hwnd } ==> r.active_capture_config.target
            == (crate::m1::capture::ObservationCaptureTarget::Window { window_hwnd: hwnd }),
        default_config.target matches CaptureTarget::Monitor { monitor_index }
            ==> r.active_capture_config.target
            == (crate::m1::capture::ObservationCaptureTarget::MonitorIndex {
            index: monitor_index,
        }),
        default_config.target is Primary ==> r.active_capture_config.target is PrimaryMonitor,
        r.everquest_log_cursor is None && r.everquest_event_seq == 0,
{
}

/// Where a switch forces an observation to fail, it fails, whatever was read; the internal error comes
/// before the want of a source. Where none does, it fails exactly if the reading did, with its error.
pub proof fn law_observations_fail_where_forced<D, N, C>(
    state: &M1State<D>,
    depth: u32,
    read: Result<ObservationInput<N, C>, ToolError>,
    r: Result<ObservationInput<N, C>, ToolError>,
)
    requires
        call_ensures(current_input::<D, N, C>, (state, depth, read), r),
    ensures
        state.force_observe_internal ==> r is Err && (r->Err_0)@.code == OBSERVE_INTERNAL@,
        state.force_no_perception && !state.force_observe_internal ==> r is Err && (r->Err_0)@.code
            == OBSERVE_NO_PERCEPTION_AVAILABLE@,
        !state.force_no_perception && !state.force_observe_internal ==> (r is Ok <==> read is Ok),
        !state.force_no_perception && !state.force_observe_internal && read is Err ==> r->Err_0
            == read->Err_0,
{
}

/// What the screen shows is observed as it was read, with the capture as it stands.
pub proof fn law_platform_is_observed_as_read<D, N, C>(
    state: &M1State<D>,
    depth: u32,
    read: Result<ObservationInput<N, C>, ToolError>,
    r: Result<ObservationInput<N, C>, ToolError>,
)
    requires
        call_ensures(current_input::<D, N, C>, (state, depth, read), r),
        r is Ok,
        !state.synthetic,
    ensures
        read is Ok,
        (r->Ok_0).elements == (read->Ok_0).elements,
        (r->Ok_0).focused == (read->Ok_0).focused,
        (r->Ok_0).entities == (read->Ok_0).entities,
        (r->Ok_0).foreground == (read->Ok_0).foreground,
        (r->Ok_0).mode_override == (read->Ok_0).mode_override,
        (r->Ok_0).capture_status == (read->Ok_0).capture_status,
        (r->Ok_0).cdp == (read->Ok_0).cdp,
        (r->Ok_0).web_path == (read->Ok_0).web_path,
        (r->Ok_0).capture_config == Some(state.active_capture_config),
        (r->Ok_0).capture_runtime is Some,
        (r->Ok_0).capture_runtime->Some_0.generation == state.capture_controller.generation,
        (r->Ok_0).capture_runtime->Some_0.status@ == (if state.capture_controller.active is Some {
            "running"@
        } else {
            "inactive"@
        }),
{
}

/// Of a fixture, the elements down to the depth asked for are observed, in their order, and the mode
/// that is in force where it is not left open.
pub proof fn law_fixture_is_observed_to_the_depth<D, N, C>(
    state: &M1State<D>,
    depth: u32,
    read: Result<ObservationInput<N, C>, ToolError>,
    r: Result<ObservationInput<N, C>, ToolError>,
)
    requires
        call_ensures(current_input::<D, N, C>, (state, depth, read), r),
        r is Ok,
        state.synthetic,
    ensures
        read is Ok,
        (r->Ok_0).elements@ == (read->Ok_0).elements@.filter(
            |node: observation::AccessibleNode| node.depth <= depth,
        ),
        (r->Ok_0).entities == (read->Ok_0).entities,
        (r->Ok_0).foreground == (read->Ok_0).foreground,
        state.perception_mode !is Auto ==> (r->Ok_0).mode_override == Some(state.perception_mode),
        state.perception_mode is Auto ==> (r->Ok_0).mode_override == (read->Ok_0).mode_override,
        (r->Ok_0).capture_status == (read->Ok_0).capture_status,
        (r->Ok_0).cdp == (read->Ok_0).cdp,
        (r->Ok_0).web_path == (read->Ok_0).web_path,
        (r->Ok_0).capture_config == Some(state.active_capture_config),
        (r->Ok_0).capture_runtime is Some,
        (r->Ok_0).capture_runtime->Some_0.generation == state.capture_controller.generation,
{
    observation::lemma_depth_is_a_filter((read->Ok_0).elements@, depth);
}

/// Looking for elements takes the entities that were detected, in place of any that were read with
/// the rest; and what is looked for in a window of its own is looked for though perception is off.
/// A fixture is searched sixteen levels deep.
pub proof fn law_find_looks_at_what_was_detected<D, N, C>(
    state: &M1State<D>,
    window_hwnd: Option<i64>,
    read: Result<ObservationInput<N, C>, ToolError>,
    detected: Vec<N>,
    r: Result<ObservationInput<N, C>, ToolError>,
)
    requires
        call_ensures(build_find_input::<D, N, C>, (state, window_hwnd, read, detected), r),
    ensures
        r is Ok ==> (r->Ok_0).entities == detected,
        window_hwnd is Some || (!state.force_observe_internal && !state.force_no_perception) ==> (r
            is Ok <==> read is Ok),
        window_hwnd is None && (state.force_observe_internal || state.force_no_perception) ==> r
            is Err,
        r is Ok && (window_hwnd is Some || !state.synthetic) ==> (r->Ok_0).elements@
            == (read->Ok_0).elements@,
        r is Ok && window_hwnd is None && state.synthetic ==> (r->Ok_0).elements@
            == (read->Ok_0).elements@.filter(|node: observation::AccessibleNode| node.depth <= 16),
        r is Ok ==> (r->Ok_0).foreground == (read->Ok_0).foreground,
        r is Ok ==> (r->Ok_0).capture_config == Some(state.active_capture_config),
{
    if r is Ok {
        observation::lemma_depth_is_a_filter((read->Ok_0).elements@, 16);
    }
}

/// At most 300 nodes are asked of a browser, and a fixture is looked through sixteen levels deep.
pub proof fn law_find_has_its_bounds(nodes: usize, depth: u32)
    ensures
        call_ensures(find_cdp_max_nodes, (), nodes) ==> nodes == 300,
        call_ensures(find_snapshot_depth, (), depth) ==> depth == 16,
{
}

/// A capture is planned for the target that was asked for, at the interval that was asked for but at
/// most every 16 milliseconds, and with the switches that were asked for; what was not asked for stays
/// as it is.
pub proof fn law_capture_is_planned_as_asked<D>(
    state: &M1State<D>,
    params: SetCaptureTargetParams,
    element_rect: Result<Rect, String>,
    r: Result<CaptureConfig, ToolError>,
)
    requires
        call_ensures(plan_capture_target::<D>, (state, params, element_rect), r),
        r is Ok,
    ensures
        params.target is Primary ==> (r->Ok_0).target is Primary,
        params.target matches CaptureTargetParam::Monitor { monitor_index } ==> (r->Ok_0).target == (
        CaptureTarget::Monitor { monitor_index }),
        params.target matches CaptureTargetParam::Window { window_hwnd } ==> (r->Ok_0).target == (
        CaptureTarget::Window { hwnd: window_hwnd }),
        params.target matches CaptureTargetParam::ElementWindow { element_id } ==> (r->Ok_0).target
            == (CaptureTarget::Window { hwnd: element_id.hwnd }),
        params.min_update_interval_ms is Some && params.min_update_interval_ms->Some_0 >= 16 ==> Some(
            (r->Ok_0).min_update_interval_ms,
        ) == params.min_update_interval_ms,
        params.min_update_interval_ms is Some && params.min_update_interval_ms->Some_0 < 16 ==> (
        r->Ok_0).min_update_interval_ms == 16,
        params.min_update_interval_ms is None ==> (r->Ok_0).min_update_interval_ms
            == state.capture_config.min_update_interval_ms,
        params.cursor_visible is Some ==> Some((r->Ok_0).cursor_visible) == params.cursor_visible,
        params.cursor_visible is None ==> (r->Ok_0).cursor_visible
            == state.capture_config.cursor_visible,
        params.dirty_region_only is Some ==> Some((r->Ok_0).dirty_region_only)
            == params.dirty_region_only,
        params.dirty_region_only is None ==> (r->Ok_0).dirty_region_only
            == state.capture_config.dirty_region_only,
        (r->Ok_0).selected_backend == state.capture_config.selected_backend,
{
}

/// A capture is refused only for an element's window, and there exactly if the element is not found
/// again or shows no area.
pub proof fn law_capture_is_refused_for_lost_elements<D>(
    state: &M1State<D>,
    params: SetCaptureTargetParams,
    element_rect: Result<Rect, String>,
    r: Result<CaptureConfig, ToolError>,
)
    requires
        call_ensures(plan_capture_target::<D>, (state, params, element_rect), r),
    ensures
        r is Err <==> params.target is ElementWindow && (element_rect is Err || element_rect->Ok_0.w
            <= 0 || element_rect->Ok_0.h <= 0),
        r is Err ==> (r->Err_0)@.code == crate::error::CAPTURE_TARGET_INVALID@,
{
}

/// A switched capture takes effect: the state has its configuration, its reading and its generation,
/// the response tells the target before and after, and observations report it as set by hand. What
/// has nothing to do with the capture stays as it was.
pub proof fn law_capture_switches_take_effect<D>(
    state: &mut M1State<D>,
    planned: Result<CaptureConfig, ToolError>,
    resolved: Result<ResolvedCapture, ToolError>,
    switched: Result<SwitchedCapture, ToolError>,
    r: Result<SetCaptureTargetResponse, ToolError>,
)
    requires
        call_ensures(
            set_capture_target_in_state::<D>,
            (state, planned, resolved, switched),
            r,
        ),
    ensures
        r is Ok <==> planned is Ok && resolved is Ok && switched is Ok,
        r is Ok ==> {
            let now = *final(state);
            &&& now.capture_config == planned->Ok_0
            &&& now.capture_controller == (switched->Ok_0).reading
            &&& now.capture_generation == (switched->Ok_0).generation
            &&& now.active_capture_config.generation == (switched->Ok_0).generation
            &&& now.active_capture_config.source@ == "manual"@
            &&& now.active_capture_config.cursor_visible == (planned->Ok_0).cursor_visible
            &&& now.active_capture_config.dirty_region_only == (planned->Ok_0).dirty_region_only
            &&& (r->Ok_0).generation == (switched->Ok_0).generation
            &&& (r->Ok_0).capture_runtime.generation == (switched->Ok_0).reading.generation
        },
        r is Ok && 16 <= (planned->Ok_0).min_update_interval_ms <= u32::MAX ==> final(state).active_capture_config.min_update_interval_ms == (planned->Ok_0).min_update_interval_ms,
        r is Ok && (planned->Ok_0).target is Window ==> final(state).active_capture_config.target
            == (capture::ObservationCaptureTarget::Window {
            window_hwnd: (planned->Ok_0).target->hwnd,
        }),
        r is Ok && old(state).capture_config.target is Window ==> (r->Ok_0).previous == (
        CaptureTargetWire::Window { window_hwnd: old(state).capture_config.target->hwnd }),
        r is Ok && old(state).capture_config.target is Monitor ==> (r->Ok_0).previous == (
        CaptureTargetWire::Monitor {
            monitor_index: old(state).capture_config.target->monitor_index,
        }),
        r is Ok && old(state).capture_config.target is Primary ==> (r->Ok_0).previous is Primary,
        r is Ok && (resolved->Ok_0).target is Window ==> (r->Ok_0).current == (
        CaptureTargetWire::Window { window_hwnd: (resolved->Ok_0).target->hwnd }),
        r is Ok && (resolved->Ok_0).target is Monitor ==> (r->Ok_0).current == (
        CaptureTargetWire::Monitor { monitor_index: (resolved->Ok_0).target->monitor_index }),
        r is Ok && (resolved->Ok_0).target is Primary ==> (r->Ok_0).current is Primary,
        r is Ok ==> (r->Ok_0).backend@ == (match (resolved->Ok_0).backend {
            CaptureBackend::GraphicsCaptureApi => "graphics_capture_api"@,
            CaptureBackend::DxgiDuplication => "dxgi_duplication"@,
        }),
        final(state).perception_mode == old(state).perception_mode,
        final(state).manual_perception_mode == old(state).manual_perception_mode,
        final(state).detection_config == old(state).detection_config,
        final(state).synthetic == old(state).synthetic,
        final(state).everquest_log_cursor == old(state).everquest_log_cursor,
        final(state).everquest_event_seq == old(state).everquest_event_seq,
        r is Err ==> *final(state) == *old(state),
        planned is Err ==> r == Err::<SetCaptureTargetResponse, ToolError>(planned->Err_0),
{
}

/// A profile asks for its own interval, but at most every 16 milliseconds, and its own cursor; it
/// keeps the target while it follows the foreground window, and only then.
pub proof fn law_profiles_plan_their_capture<D>(
    state: &M1State<D>,
    profile: &Profile,
    r: (CaptureConfig, bool),
)
    requires
        call_ensures(plan_profile_capture::<D>, (state, profile), r),
    ensures
        profile.capture.min_update_interval_ms >= 16 ==> r.0.min_update_interval_ms
            == profile.capture.min_update_interval_ms,
        profile.capture.min_update_interval_ms < 16 ==> r.0.min_update_interval_ms == 16,
        r.0.cursor_visible == profile.capture.cursor_visible,
        r.0.dirty_region_only == state.capture_config.dirty_region_only,
        r.0.selected_backend == state.capture_config.selected_backend,
        r.1 <==> profile.capture.target !is ForegroundWindow,
        profile.capture.target is ForegroundWindow ==> r.0.target == state.capture_config.target,
        profile.capture.target is PrimaryMonitor ==> r.0.target is Primary,
        profile.capture.target matches capture::ProfileCaptureTarget::MonitorIndex { index } ==> r.0.target
            == (CaptureTarget::Monitor { monitor_index: index }),
{
}

/// An applied profile takes effect: its mode, unless the operator has set one, its detection, and its
/// capture, which observations report under the profile's name. The generation goes up by one where
/// the capture is another than before, and stays where it is the same.
pub proof fn law_profiles_take_effect<D>(
    state: &mut M1State<D>,
    profile: &Profile,
    detection: D,
    resolved: Result<(), ToolError>,
    r: Result<ObservationCaptureConfig, ToolError>,
)
    requires
        call_ensures(
            apply_profile_runtime_config_in_state::<D>,
            (state, profile, detection, resolved),
            r,
        ),
    ensures
        old(state).manual_perception_mode is None ==> final(state).perception_mode == profile.mode,
        old(state).manual_perception_mode is Some ==> final(state).perception_mode == old(state).perception_mode,
        final(state).manual_perception_mode == old(state).manual_perception_mode,
        final(state).detection_config == detection,
        r is Err <==> profile.capture.target !is ForegroundWindow && resolved is Err,
        r is Err ==> r->Err_0 == resolved->Err_0 && final(state).capture_config == old(state).capture_config && final(state).active_capture_config == old(state).active_capture_config
            && final(state).capture_generation == old(state).capture_generation,
        r is Ok ==> {
            let before = old(state).active_capture_config;
            let active = r->Ok_0;
            let same = before.target == active.target && before.min_update_interval_ms
                == active.min_update_interval_ms && before.cursor_visible == active.cursor_visible
                && before.dirty_region_only == active.dirty_region_only && before.source@
                == active.source@;
            &&& active == final(state).active_capture_config
            &&& active.source@ == "profile:"@ + profile.id@
            &&& active.cursor_visible == profile.capture.cursor_visible
            &&& active.dirty_region_only == old(state).capture_config.dirty_region_only
            &&& (profile.capture.min_update_interval_ms >= 16 ==> active.min_update_interval_ms
                == profile.capture.min_update_interval_ms)
            &&& (profile.capture.min_update_interval_ms < 16 ==> active.min_update_interval_ms
                == 16)
            &&& (active.target is ForegroundWindow <==> profile.capture.target is ForegroundWindow)
            &&& (active.target is PrimaryMonitor <==> profile.capture.target is PrimaryMonitor)
            &&& (active.target is MonitorIndex <==> profile.capture.target is MonitorIndex)
            &&& (active.target is MonitorIndex ==> active.target->index
                == profile.capture.target->index)
            &&& (same ==> active.generation == before.generation && final(state).capture_generation
                == old(state).capture_generation)
            &&& (!same && old(state).capture_generation < u64::MAX ==> active.generation == old(state).capture_generation + 1 && final(state).capture_generation == old(state).capture_generation + 1)
            &&& final(state).capture_config.cursor_visible == profile.capture.cursor_visible
            &&& final(state).capture_config.dirty_region_only == old(state).capture_config.dirty_region_only
            &&& (profile.capture.min_update_interval_ms >= 16 ==> final(state).capture_config.min_update_interval_ms == profile.capture.min_update_interval_ms)
            &&& (profile.capture.target is ForegroundWindow ==> final(state).capture_config.target
                == old(state).capture_config.target)
            &&& (profile.capture.target is PrimaryMonitor ==> final(state).capture_config.target is Primary)
            &&& (profile.capture.target is MonitorIndex ==> final(state).capture_config.target == (
            CaptureTarget::Monitor { monitor_index: profile.capture.target->index }))
        },
        final(state).capture_controller == old(state).capture_controller,
        final(state).synthetic == old(state).synthetic,
        final(state).force_no_perception == old(state).force_no_perception,
        final(state).force_observe_internal == old(state).force_observe_internal,
        final(state).everquest_log_cursor == old(state).everquest_log_cursor,
        final(state).everquest_event_seq == old(state).everquest_event_seq,
{
}

/// A mode that is set is in force, overrides the profile unless it is `auto`, and touches nothing
/// else; the response tells the mode before and after. A mode that cannot be read changes nothing.
pub proof fn law_modes_take_effect<D>(
    state: &mut M1State<D>,
    parsed: Result<PerceptionMode, ToolError>,
    r: Result<SetPerceptionModeResponse, ToolError>,
)
    requires
        call_ensures(set_perception_mode_in_state::<D>, (state, parsed), r),
    ensures
        r is Ok <==> parsed is Ok,
        parsed is Err ==> *final(state) == *old(state) && r->Err_0 == parsed->Err_0,
        parsed is Ok ==> {
            &&& final(state).perception_mode == parsed->Ok_0
            &&& (parsed->Ok_0 is Auto ==> final(state).manual_perception_mode is None)
            &&& (parsed->Ok_0 !is Auto ==> final(state).manual_perception_mode == Some(
                parsed->Ok_0,
            ))
            &&& (r->Ok_0).previous == old(state).perception_mode
            &&& (r->Ok_0).mode == parsed->Ok_0
            &&& (r->Ok_0).rationale@ == (match parsed->Ok_0 {
                PerceptionMode::Auto => "auto_select_by_foreground_and_a11y_density"@,
                PerceptionMode::A11yOnly => "manual_a11y_only"@,
                PerceptionMode::PixelOnly => "manual_pixel_only"@,
                PerceptionMode::Hybrid => "manual_hybrid"@,
            })
            &&& final(state).capture_config == old(state).capture_config
            &&& final(state).capture_controller == old(state).capture_controller
            &&& final(state).capture_generation == old(state).capture_generation
            &&& final(state).active_capture_config == old(state).active_capture_config
            &&& final(state).detection_config == old(state).detection_config
            &&& final(state).synthetic == old(state).synthetic
            &&& final(state).everquest_log_cursor == old(state).everquest_log_cursor
            &&& final(state).everquest_event_seq == old(state).everquest_event_seq
        },
{
}

/// A profile that is applied behind the operator's mode leaves that mode in force; behind `auto` the
/// profile's own mode is.
pub proof fn law_operators_mode_outlives_profiles<D>(
    first: &mut M1State<D>,
    second: &mut M1State<D>,
    mode: PerceptionMode,
    profile: &Profile,
    detection: D,
    resolved: Result<(), ToolError>,
    set: Result<SetPerceptionModeResponse, ToolError>,
    applied: Result<ObservationCaptureConfig, ToolError>,
)
    requires
        call_ensures(
            set_perception_mode_in_state::<D>,
            (first, Ok::<PerceptionMode, ToolError>(mode)),
            set,
        ),
        *final(first) == *old(second),
        call_ensures(
            apply_profile_runtime_config_in_state::<D>,
            (second, profile, detection, resolved),
            applied,
        ),
    ensures
        final(second).perception_mode == (if mode is Auto {
            profile.mode
        } else {
            mode
        }),
{
}

} // verus!
