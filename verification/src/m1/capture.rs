//! Screen capture: targets, configuration and what is reported of it.

use vstd::prelude::*;

use crate::error::{mcp_error, ErrorView, ToolError, CAPTURE_TARGET_INVALID};
use crate::geometry::Rect;
use crate::m1::observation::ElementId;
use crate::numerals::{signed_decimal, signed_text};
use crate::text::{cat2, cat7, text_equal};

verus! {

/// The shortest interval between frames, in milliseconds.
pub const MIN_CAPTURE_UPDATE_INTERVAL_MS: u64 = 16;

/// The shortest interval between frames, in milliseconds.
pub const MIN_CAPTURE_UPDATE_INTERVAL_MS_U32: u32 = 16;

/// What is captured.
#[derive(Clone, Copy, Debug, PartialEq, Eq, Structural)]
pub enum CaptureTarget {
    Primary,
    Monitor { monitor_index: u32 },
    Window { hwnd: i64 },
}

/// What is captured, as a request names it.
#[derive(Debug, PartialEq, Eq)]
pub enum CaptureTargetParam {
    Primary,
    Monitor { monitor_index: u32 },
    Window { window_hwnd: i64 },
    ElementWindow { element_id: ElementId },
}

/// What is captured, as a response names it.
#[derive(Clone, Copy, Debug, PartialEq, Eq, Structural)]
pub enum CaptureTargetWire {
    Primary,
    Monitor { monitor_index: u32 },
    Window { window_hwnd: i64 },
}

/// What is captured, as an observation names it.
#[derive(Clone, Copy, Debug, PartialEq, Eq, Structural)]
pub enum ObservationCaptureTarget {
    ForegroundWindow,
    PrimaryMonitor,
    MonitorIndex { index: u32 },
    Window { window_hwnd: i64 },
}

/// What is captured, as a profile names it.
#[derive(Clone, Copy, Debug, PartialEq, Eq, Structural)]
pub enum ProfileCaptureTarget {
    ForegroundWindow,
    PrimaryMonitor,
    MonitorIndex { index: u32 },
}

/// The technique that captures.
#[derive(Clone, Copy, Debug, PartialEq, Eq, Structural)]
pub enum CaptureBackend {
    GraphicsCaptureApi,
    DxgiDuplication,
}

/// The priority of the capture thread.
#[derive(Clone, Copy, Debug, PartialEq, Eq, Structural)]
pub enum CaptureThreadPriority {
    TimeCritical,
    Unsupported,
    Unknown,
    Other(i32),
}

/// How capture is configured.
#[derive(Clone, Copy, Debug, PartialEq, Eq, Structural)]
pub struct CaptureConfig {
    pub target: CaptureTarget,
    pub min_update_interval_ms: u64,
    pub cursor_visible: bool,
    pub dirty_region_only: bool,
    /// The technique that this configuration selects.
    pub selected_backend: CaptureBackend,
}

/// How a profile wants capture configured.
#[derive(Clone, Copy, Debug, PartialEq, Eq, Structural)]
pub struct ProfileCapture {
    pub target: ProfileCaptureTarget,
    pub min_update_interval_ms: u32,
    pub cursor_visible: bool,
}

/// How capture is configured, as an observation reports it.
#[derive(Debug, PartialEq, Eq)]
pub struct ObservationCaptureConfig {
    pub target: ObservationCaptureTarget,
    pub min_update_interval_ms: u32,
    pub cursor_visible: bool,
    pub dirty_region_only: bool,
    pub generation: u64,
    pub source: String,
}

impl Clone for ObservationCaptureConfig {
    fn clone(&self) -> (r: Self)
        ensures
            r == *self,
    {
        ObservationCaptureConfig {
            target: self.target,
            min_update_interval_ms: self.min_update_interval_ms,
            cursor_visible: self.cursor_visible,
            dirty_region_only: self.dirty_region_only,
            generation: self.generation,
            source: self.source.clone(),
        }
    }
}

/// A capture target as an observation names it.
pub open spec fn observed_target(target: CaptureTarget) -> ObservationCaptureTarget {
    match target {
        CaptureTarget::Primary => ObservationCaptureTarget::PrimaryMonitor,
        CaptureTarget::Monitor { monitor_index } => ObservationCaptureTarget::MonitorIndex {
            index: monitor_index,
        },
        CaptureTarget::Window { hwnd } => ObservationCaptureTarget::Window { window_hwnd: hwnd },
    }
}

/// A capture target as an observation names it.
pub fn observation_target_from_capture_target(target: &CaptureTarget) -> (r:
    ObservationCaptureTarget)
    ensures
        r == observed_target(*target),
{
    match target {
        CaptureTarget::Primary => ObservationCaptureTarget::PrimaryMonitor,
        CaptureTarget::Monitor { monitor_index } => ObservationCaptureTarget::MonitorIndex {
            index: *monitor_index,
        },
        CaptureTarget::Window { hwnd } => ObservationCaptureTarget::Window { window_hwnd: *hwnd },
    }
}

/// A profile's target as an observation names it.
pub open spec fn profiled_target(target: ProfileCaptureTarget) -> ObservationCaptureTarget {
    match target {
        ProfileCaptureTarget::ForegroundWindow => ObservationCaptureTarget::ForegroundWindow,
        ProfileCaptureTarget::PrimaryMonitor => ObservationCaptureTarget::PrimaryMonitor,
        ProfileCaptureTarget::MonitorIndex { index } => ObservationCaptureTarget::MonitorIndex {
            index,
        },
    }
}

/// A profile's target as an observation names it.
pub fn observation_target_from_profile_target(target: &ProfileCaptureTarget) -> (r:
    ObservationCaptureTarget)
    ensures
        r == profiled_target(*target),
{
    match target {
        ProfileCaptureTarget::ForegroundWindow => ObservationCaptureTarget::ForegroundWindow,
        ProfileCaptureTarget::PrimaryMonitor => ObservationCaptureTarget::PrimaryMonitor,
        ProfileCaptureTarget::MonitorIndex { index } => ObservationCaptureTarget::MonitorIndex {
            index: *index,
        },
    }
}

/// The target that a profile fixes; one that follows the foreground fixes none.
pub open spec fn fixed_target(target: ProfileCaptureTarget) -> Option<CaptureTarget> {
    match target {
        ProfileCaptureTarget::ForegroundWindow => None,
        ProfileCaptureTarget::PrimaryMonitor => Some(CaptureTarget::Primary),
        ProfileCaptureTarget::MonitorIndex { index } => Some(
            CaptureTarget::Monitor { monitor_index: index },
        ),
    }
}

/// The target that a profile fixes.
pub fn capture_target_from_profile_target(target: &ProfileCaptureTarget) -> (r: Option<
    CaptureTarget,
>)
    ensures
        r == fixed_target(*target),
{
    match target {
        ProfileCaptureTarget::ForegroundWindow => None,
        ProfileCaptureTarget::PrimaryMonitor => Some(CaptureTarget::Primary),
        ProfileCaptureTarget::MonitorIndex { index } => Some(
            CaptureTarget::Monitor { monitor_index: *index },
        ),
    }
}

/// A capture target as a response names it.
pub open spec fn wire_target(target: CaptureTarget) -> CaptureTargetWire {
    match target {
        CaptureTarget::Primary => CaptureTargetWire::Primary,
        CaptureTarget::Monitor { monitor_index } => CaptureTargetWire::Monitor { monitor_index },
        CaptureTarget::Window { hwnd } => CaptureTargetWire::Window { window_hwnd: hwnd },
    }
}

/// A capture target as a response names it.
pub fn capture_target_wire(target: &CaptureTarget) -> (r: CaptureTargetWire)
    ensures
        r == wire_target(*target),
{
    match target {
        CaptureTarget::Primary => CaptureTargetWire::Primary,
        CaptureTarget::Monitor { monitor_index } => CaptureTargetWire::Monitor {
            monitor_index: *monitor_index,
        },
        CaptureTarget::Window { hwnd } => CaptureTargetWire::Window { window_hwnd: *hwnd },
    }
}

/// An interval, lifted to the shortest one.
pub open spec fn lifted_interval(interval_ms: u64) -> u64 {
    if interval_ms < MIN_CAPTURE_UPDATE_INTERVAL_MS {
        MIN_CAPTURE_UPDATE_INTERVAL_MS
    } else {
        interval_ms
    }
}

/// Lifts an interval to the shortest one.
pub fn clamp_capture_interval(interval_ms: u64) -> (r: u64)
    ensures
        r == lifted_interval(interval_ms),
{
    if interval_ms < MIN_CAPTURE_UPDATE_INTERVAL_MS {
        MIN_CAPTURE_UPDATE_INTERVAL_MS
    } else {
        interval_ms
    }
}

/// An interval as it is reported: cut down to 32 bits and lifted to the shortest one.
pub open spec fn reported_interval(interval_ms: u64) -> u32 {
    if interval_ms > u32::MAX {
        u32::MAX
    } else if interval_ms < 16 {
        16
    } else {
        interval_ms as u32
    }
}

/// An interval as it is reported.
pub fn report_interval(interval_ms: u64) -> (r: u32)
    ensures
        r == reported_interval(interval_ms),
{
    if interval_ms > u32::MAX as u64 {
        u32::MAX
    } else if interval_ms < MIN_CAPTURE_UPDATE_INTERVAL_MS {
        MIN_CAPTURE_UPDATE_INTERVAL_MS_U32
    } else {
        interval_ms as u32
    }
}

/// A capture configuration as an observation reports it.
pub fn observation_capture_from_capture_config(
    config: &CaptureConfig,
    generation: u64,
    source: String,
) -> (r: ObservationCaptureConfig)
    ensures
        r == (ObservationCaptureConfig {
            target: observed_target(config.target),
            min_update_interval_ms: reported_interval(config.min_update_interval_ms),
            cursor_visible: config.cursor_visible,
            dirty_region_only: config.dirty_region_only,
            generation,
            source,
        }),
{
    ObservationCaptureConfig {
        target: observation_target_from_capture_target(&config.target),
        min_update_interval_ms: report_interval(config.min_update_interval_ms),
        cursor_visible: config.cursor_visible,
        dirty_region_only: config.dirty_region_only,
        generation,
        source,
    }
}

/// A profile's capture configuration as an observation reports it.
pub fn observation_capture_from_profile_capture(
    capture: &ProfileCapture,
    dirty_region_only: bool,
    generation: u64,
    source: String,
) -> (r: ObservationCaptureConfig)
    ensures
        r == (ObservationCaptureConfig {
            target: profiled_target(capture.target),
            min_update_interval_ms: reported_interval(capture.min_update_interval_ms as u64),
            cursor_visible: capture.cursor_visible,
            dirty_region_only,
            generation,
            source,
        }),
{
    ObservationCaptureConfig {
        target: observation_target_from_profile_target(&capture.target),
        min_update_interval_ms: report_interval(capture.min_update_interval_ms as u64),
        cursor_visible: capture.cursor_visible,
        dirty_region_only,
        generation,
        source,
    }
}

/// Whether two reported configurations agree in all but their generation.
pub open spec fn same_capture(a: ObservationCaptureConfig, b: ObservationCaptureConfig) -> bool {
    a.target == b.target && a.min_update_interval_ms == b.min_update_interval_ms
        && a.cursor_visible == b.cursor_visible && a.dirty_region_only == b.dirty_region_only
        && a.source@ == b.source@
}

/// Whether two reported configurations agree in all but their generation.
pub fn capture_config_without_generation_eq(
    left: &ObservationCaptureConfig,
    right: &ObservationCaptureConfig,
) -> (r: bool)
    ensures
        r == same_capture(*left, *right),
{
    left.target == right.target && left.min_update_interval_ms == right.min_update_interval_ms
        && left.cursor_visible == right.cursor_visible && left.dirty_region_only
        == right.dirty_region_only && text_equal(left.source.as_str(), right.source.as_str())
}

/// The name of a technique.
pub open spec fn backend_name(backend: CaptureBackend) -> Seq<char> {
    match backend {
        CaptureBackend::GraphicsCaptureApi => "graphics_capture_api"@,
        CaptureBackend::DxgiDuplication => "dxgi_duplication"@,
    }
}

/// The name of a technique.
pub fn capture_backend_name(backend: CaptureBackend) -> (r: &'static str)
    ensures
        r@ == backend_name(backend),
{
    match backend {
        CaptureBackend::GraphicsCaptureApi => "graphics_capture_api",
        CaptureBackend::DxgiDuplication => "dxgi_duplication",
    }
}

/// The name of a priority.
pub open spec fn priority_name(priority: CaptureThreadPriority) -> Seq<char> {
    match priority {
        CaptureThreadPriority::TimeCritical => "time_critical"@,
        CaptureThreadPriority::Unsupported => "unsupported"@,
        CaptureThreadPriority::Unknown => "unknown"@,
        CaptureThreadPriority::Other(value) => "other:"@ + signed_decimal(value as int),
    }
}

/// The name of a priority.
pub fn capture_thread_priority_name(priority: CaptureThreadPriority) -> (r: String)
    ensures
        r@ == priority_name(priority),
{
    match priority {
        CaptureThreadPriority::TimeCritical => "time_critical".to_owned(),
        CaptureThreadPriority::Unsupported => "unsupported".to_owned(),
        CaptureThreadPriority::Unknown => "unknown".to_owned(),
        CaptureThreadPriority::Other(value) => {
            let digits = signed_text(value as i64);
            cat2("other:", digits.as_str())
        },
    }
}

// ---------------------------------------------------------------------------------------------
// What is reported of a running capture
// ---------------------------------------------------------------------------------------------

/// The latest frame of a capture.
#[derive(Clone, Copy, Debug, PartialEq, Eq, Structural)]
pub struct LatestFrame {
    pub frame_seq: u64,
    pub width: u32,
    pub height: u32,
}

/// What is read of a running capture.
#[derive(Clone, Copy, Debug, PartialEq, Eq)]
pub struct ActiveCapture {
    pub target: CaptureTarget,
    pub backend: CaptureBackend,
    pub effective_backend: Option<CaptureBackend>,
    pub min_update_interval_ms: u64,
    pub cursor_visible: bool,
    pub dirty_region_only: bool,
    pub frames_captured: u64,
    pub frames_dropped: u64,
    pub latest_frame: Option<LatestFrame>,
    pub channel_len: usize,
    pub channel_capacity: usize,
    pub thread_priority: CaptureThreadPriority,
    pub stop_requested: bool,
}

/// What is read of the capture controller.
#[derive(Clone, Copy, Debug, PartialEq, Eq)]
pub struct ControllerReading {
    pub generation: u64,
    /// The capacity that a capture channel is made with.
    pub default_channel_capacity: usize,
    pub active: Option<ActiveCapture>,
}

/// What is reported of the capture controller.
#[derive(Debug, PartialEq, Eq)]
pub struct CaptureRuntimeReadback {
    pub status: String,
    pub target: Option<ObservationCaptureTarget>,
    pub backend: Option<String>,
    pub selected_backend: Option<String>,
    pub generation: u64,
    pub min_update_interval_ms: Option<u32>,
    pub cursor_visible: Option<bool>,
    pub dirty_region_only: Option<bool>,
    pub frames_captured: u64,
    pub frames_dropped: u64,
    pub latest_frame_seq: Option<u64>,
    pub latest_frame_width: Option<u32>,
    pub latest_frame_height: Option<u32>,
    pub channel_len: usize,
    pub channel_capacity: usize,
    pub thread_priority: Option<String>,
    pub stop_requested: bool,
}

/// The report with texts as sequences of characters.
#[verifier::ext_equal]
pub struct ReadbackView {
    pub status: Seq<char>,
    pub target: Option<ObservationCaptureTarget>,
    pub backend: Option<Seq<char>>,
    pub selected_backend: Option<Seq<char>>,
    pub generation: u64,
    pub min_update_interval_ms: Option<u32>,
    pub cursor_visible: Option<bool>,
    pub dirty_region_only: Option<bool>,
    pub frames_captured: u64,
    pub frames_dropped: u64,
    pub latest_frame: Option<LatestFrame>,
    pub channel_len: usize,
    pub channel_capacity: usize,
    pub thread_priority: Option<Seq<char>>,
    pub stop_requested: bool,
}

/// The report says what the view says.
pub open spec fn readback_is(r: CaptureRuntimeReadback, v: ReadbackView) -> bool {
    &&& r.status@ == v.status
    &&& r.target == v.target
    &&& crate::text::optional_view(r.backend) == v.backend
    &&& crate::text::optional_view(r.selected_backend) == v.selected_backend
    &&& r.generation == v.generation
    &&& r.min_update_interval_ms == v.min_update_interval_ms
    &&& r.cursor_visible == v.cursor_visible
    &&& r.dirty_region_only == v.dirty_region_only
    &&& r.frames_captured == v.frames_captured
    &&& r.frames_dropped == v.frames_dropped
    &&& match v.latest_frame {
        Some(frame) => r.latest_frame_seq == Some(frame.frame_seq) && r.latest_frame_width == Some(
            frame.width,
        ) && r.latest_frame_height == Some(frame.height),
        None => r.latest_frame_seq is None && r.latest_frame_width is None
            && r.latest_frame_height is None,
    }
    &&& r.channel_len == v.channel_len
    &&& r.channel_capacity == v.channel_capacity
    &&& crate::text::optional_view(r.thread_priority) == v.thread_priority
    &&& r.stop_requested == v.stop_requested
}

/// What is to be reported: of the configuration where nothing runs, of the running capture where
/// one does.
pub open spec fn readback_of(config: CaptureConfig, reading: ControllerReading) -> ReadbackView {
    match reading.active {
        None => ReadbackView {
            status: "inactive"@,
            target: None,
            backend: None,
            selected_backend: Some(backend_name(config.selected_backend)),
            generation: reading.generation,
            min_update_interval_ms: Some(reported_interval(config.min_update_interval_ms)),
            cursor_visible: Some(config.cursor_visible),
            dirty_region_only: Some(config.dirty_region_only),
            frames_captured: 0,
            frames_dropped: 0,
            latest_frame: None,
            channel_len: 0,
            channel_capacity: reading.default_channel_capacity,
            thread_priority: None,
            stop_requested: false,
        },
        Some(active) => ReadbackView {
            status: "running"@,
            target: Some(observed_target(active.target)),
            backend: match active.effective_backend {
                Some(backend) => Some(backend_name(backend)),
                None => None,
            },
            selected_backend: Some(backend_name(active.backend)),
            generation: reading.generation,
            min_update_interval_ms: Some(reported_interval(active.min_update_interval_ms)),
            cursor_visible: Some(active.cursor_visible),
            dirty_region_only: Some(active.dirty_region_only),
            frames_captured: active.frames_captured,
            frames_dropped: active.frames_dropped,
            latest_frame: active.latest_frame,
            channel_len: active.channel_len,
            channel_capacity: active.channel_capacity,
            thread_priority: Some(priority_name(active.thread_priority)),
            stop_requested: active.stop_requested,
        },
    }
}

/// Reports the capture controller.
pub fn capture_readback(config: &CaptureConfig, reading: &ControllerReading) -> (r:
    CaptureRuntimeReadback)
    ensures
        readback_is(r, readback_of(*config, *reading)),
{
    match &reading.active {
        None => CaptureRuntimeReadback {
            status: "inactive".to_owned(),
            target: None,
            backend: None,
            selected_backend: Some(capture_backend_name(config.selected_backend).to_owned()),
            generation: reading.generation,
            min_update_interval_ms: Some(report_interval(config.min_update_interval_ms)),
            cursor_visible: Some(config.cursor_visible),
            dirty_region_only: Some(config.dirty_region_only),
            frames_captured: 0,
            frames_dropped: 0,
            latest_frame_seq: None,
            latest_frame_width: None,
            latest_frame_height: None,
            channel_len: 0,
            channel_capacity: reading.default_channel_capacity,
            thread_priority: None,
            stop_requested: false,
        },
        Some(active) => {
            let backend: Option<String> = match active.effective_backend {
                Some(backend) => Some(capture_backend_name(backend).to_owned()),
                None => None,
            };
            let (seq, width, height): (Option<u64>, Option<u32>, Option<u32>) =
                match active.latest_frame {
                Some(frame) => (Some(frame.frame_seq), Some(frame.width), Some(frame.height)),
                None => (None, None, None),
            };
            CaptureRuntimeReadback {
                status: "running".to_owned(),
                target: Some(observation_target_from_capture_target(&active.target)),
                backend,
                selected_backend: Some(capture_backend_name(active.backend).to_owned()),
                generation: reading.generation,
                min_update_interval_ms: Some(report_interval(active.min_update_interval_ms)),
                cursor_visible: Some(active.cursor_visible),
                dirty_region_only: Some(active.dirty_region_only),
                frames_captured: active.frames_captured,
                frames_dropped: active.frames_dropped,
                latest_frame_seq: seq,
                latest_frame_width: width,
                latest_frame_height: height,
                channel_len: active.channel_len,
                channel_capacity: active.channel_capacity,
                thread_priority: Some(capture_thread_priority_name(active.thread_priority)),
                stop_requested: active.stop_requested,
            }
        },
    }
}

// ---------------------------------------------------------------------------------------------
// Targets out of requests
// ---------------------------------------------------------------------------------------------

/// The error for an element without an area.
pub open spec fn empty_element_window(element_id: Seq<char>, rect: Rect) -> ErrorView {
    ErrorView {
        code: CAPTURE_TARGET_INVALID@,
        message: "element_window target is not displaying a non-empty UI rectangle: element_id="@
            + element_id + " bbox=("@ + bbox_text(rect) + ")"@,
    }
}

/// A rectangle as messages print it.
pub open spec fn bbox_text(rect: Rect) -> Seq<char> {
    signed_decimal(rect.x as int) + ", "@ + signed_decimal(rect.y as int) + ", "@ + signed_decimal(
        rect.w as int,
    ) + ", "@ + signed_decimal(rect.h as int)
}

/// A rectangle as messages print it.
pub fn print_bbox(rect: Rect) -> (r: String)
    ensures
        r@ == bbox_text(rect),
{
    let x = signed_text(rect.x as i64);
    let y = signed_text(rect.y as i64);
    let w = signed_text(rect.w as i64);
    let h = signed_text(rect.h as i64);
    cat7(x.as_str(), ", ", y.as_str(), ", ", w.as_str(), ", ", h.as_str())
}

/// Checks that the element of an element window shows something.
pub fn validate_element_window_rect(element_id: &ElementId, rect: Rect) -> (r: Result<
    (),
    ToolError,
>)
    ensures
        if rect.has_area() {
            r is Ok
        } else {
            r matches Err(e) && e@ == empty_element_window(element_id.text(), rect)
        },
{
    if rect.w <= 0 || rect.h <= 0 {
        let id = element_id.to_text();
        let bbox = print_bbox(rect);
        return Err(
            mcp_error(
                CAPTURE_TARGET_INVALID,
                crate::text::cat5(
                    "element_window target is not displaying a non-empty UI rectangle: element_id=",
                    id.as_str(),
                    " bbox=(",
                    bbox.as_str(),
                    ")",
                ),
            ),
        );
    }
    Ok(())
}

/// The error for an element that cannot be found again.
pub open spec fn element_not_resolved(detail: Seq<char>) -> ErrorView {
    ErrorView {
        code: CAPTURE_TARGET_INVALID@,
        message: "element_window target could not be re-resolved: "@ + detail,
    }
}

/// Takes the target out of a request. `element_rect` is what was read of the element's rectangle
/// where the request names one.
pub fn capture_target_from_param(
    param: CaptureTargetParam,
    element_rect: Result<Rect, String>,
) -> (r: Result<CaptureTarget, ToolError>)
    ensures
        match param {
            CaptureTargetParam::Primary => r == Ok::<CaptureTarget, ToolError>(
                CaptureTarget::Primary,
            ),
            CaptureTargetParam::Monitor { monitor_index } => r == Ok::<CaptureTarget, ToolError>(
                CaptureTarget::Monitor { monitor_index },
            ),
            CaptureTargetParam::Window { window_hwnd } => r == Ok::<CaptureTarget, ToolError>(
                CaptureTarget::Window { hwnd: window_hwnd },
            ),
            CaptureTargetParam::ElementWindow { element_id } => match element_rect {
                Err(detail) => r matches Err(e) && e@ == element_not_resolved(detail@),
                Ok(rect) => if rect.has_area() {
                    r == Ok::<CaptureTarget, ToolError>(
                        CaptureTarget::Window { hwnd: element_id.hwnd },
                    )
                } else {
                    r matches Err(e) && e@ == empty_element_window(element_id.text(), rect)
                },
            },
        },
{
    match param {
        CaptureTargetParam::Primary => Ok(CaptureTarget::Primary),
        CaptureTargetParam::Monitor { monitor_index } => Ok(
            CaptureTarget::Monitor { monitor_index },
        ),
        CaptureTargetParam::Window { window_hwnd } => Ok(
            CaptureTarget::Window { hwnd: window_hwnd },
        ),
        CaptureTargetParam::ElementWindow { element_id } => {
            let rect = match element_rect {
                Ok(rect) => rect,
                Err(detail) => {
                    return Err(
                        mcp_error(
                            CAPTURE_TARGET_INVALID,
                            cat2(
                                "element_window target could not be re-resolved: ",
                                detail.as_str(),
                            ),
                        ),
                    );
                },
            };
            match validate_element_window_rect(&element_id, rect) {
                Ok(()) => Ok(CaptureTarget::Window { hwnd: element_id.hwnd }),
                Err(e) => Err(e),
            }
        },
    }
}

/// No interval is reported or set below the shortest one, and one that is long enough is kept.
pub proof fn law_capture_interval_floor(interval_ms: u64)
    ensures
        lifted_interval(interval_ms) >= MIN_CAPTURE_UPDATE_INTERVAL_MS,
        interval_ms >= MIN_CAPTURE_UPDATE_INTERVAL_MS ==> lifted_interval(interval_ms)
            == interval_ms,
        reported_interval(interval_ms) >= MIN_CAPTURE_UPDATE_INTERVAL_MS_U32,
        16 <= interval_ms <= u32::MAX ==> reported_interval(interval_ms) == interval_ms,
{
}

/// A runtime report tells of the capture that runs, field by field; where none runs it tells of the
/// configuration that is set, and counts nothing.
pub proof fn law_reports_tell_of_the_capture(
    config: &CaptureConfig,
    reading: &ControllerReading,
    r: CaptureRuntimeReadback,
)
    requires
        call_ensures(capture_readback, (config, reading), r),
    ensures
        r.generation == reading.generation,
        reading.active is None ==> {
            &&& r.status@ == "inactive"@
            &&& r.target is None
            &&& r.backend is None
            &&& r.selected_backend is Some
            &&& r.selected_backend->Some_0@ == (match config.selected_backend {
                CaptureBackend::GraphicsCaptureApi => "graphics_capture_api"@,
                CaptureBackend::DxgiDuplication => "dxgi_duplication"@,
            })
            &&& r.min_update_interval_ms is Some
            &&& (16 <= config.min_update_interval_ms <= u32::MAX ==> r.min_update_interval_ms->Some_0
                == config.min_update_interval_ms)
            &&& r.cursor_visible == Some(config.cursor_visible)
            &&& r.dirty_region_only == Some(config.dirty_region_only)
            &&& r.frames_captured == 0 && r.frames_dropped == 0
            &&& r.latest_frame_seq is None && r.latest_frame_width is None && r.latest_frame_height
                is None
            &&& r.channel_len == 0 && r.channel_capacity == reading.default_channel_capacity
            &&& r.thread_priority is None
            &&& !r.stop_requested
        },
        reading.active is Some ==> {
            let active = reading.active->Some_0;
            &&& r.status@ == "running"@
            &&& r.target is Some
            &&& (active.target is Primary <==> r.target->Some_0 is PrimaryMonitor)
            &&& (active.target is Monitor <==> r.target->Some_0 is MonitorIndex)
            &&& (active.target is Window <==> r.target->Some_0 is Window)
            &&& (active.target is Monitor ==> r.target->Some_0->index
                == active.target->monitor_index)
            &&& (active.target is Window ==> r.target->Some_0->window_hwnd == active.target->hwnd)
            &&& (r.backend is Some <==> active.effective_backend is Some)
            &&& (active.effective_backend is Some ==> r.backend->Some_0@ == (
            match active.effective_backend->Some_0 {
                CaptureBackend::GraphicsCaptureApi => "graphics_capture_api"@,
                CaptureBackend::DxgiDuplication => "dxgi_duplication"@,
            }))
            &&& r.selected_backend is Some
            &&& r.selected_backend->Some_0@ == (match active.backend {
                CaptureBackend::GraphicsCaptureApi => "graphics_capture_api"@,
                CaptureBackend::DxgiDuplication => "dxgi_duplication"@,
            })
            &&& r.min_update_interval_ms is Some
            &&& (16 <= active.min_update_interval_ms <= u32::MAX ==> r.min_update_interval_ms->Some_0
                == active.min_update_interval_ms)
            &&& r.cursor_visible == Some(active.cursor_visible)
            &&& r.dirty_region_only == Some(active.dirty_region_only)
            &&& r.frames_captured == active.frames_captured && r.frames_dropped
                == active.frames_dropped
            &&& (active.latest_frame is Some <==> r.latest_frame_seq is Some)
            &&& (active.latest_frame matches Some(frame) ==> r.latest_frame_seq == Some(
                frame.frame_seq,
            ) && r.latest_frame_width == Some(frame.width) && r.latest_frame_height == Some(
                frame.height,
            ))
            &&& r.channel_len == active.channel_len && r.channel_capacity
                == active.channel_capacity
            &&& r.thread_priority is Some
            &&& r.thread_priority->Some_0@ == (match active.thread_priority {
                CaptureThreadPriority::TimeCritical => "time_critical"@,
                CaptureThreadPriority::Unsupported => "unsupported"@,
                CaptureThreadPriority::Unknown => "unknown"@,
                CaptureThreadPriority::Other(value) => "other:"@ + signed_decimal(value as int),
            })
            &&& r.stop_requested == active.stop_requested
        },
{
}

/// An interval is never set below 16 milliseconds and is otherwise left as it is; in a report it is
/// also cut off where it no longer fits.
pub proof fn law_intervals_are_at_least_16(interval_ms: u64, set: u64, reported: u32)
    requires
        call_ensures(clamp_capture_interval, (interval_ms,), set),
        call_ensures(report_interval, (interval_ms,), reported),
    ensures
        interval_ms >= 16 ==> set == interval_ms,
        interval_ms < 16 ==> set == 16 && reported == 16,
        16 <= interval_ms <= u32::MAX ==> reported == interval_ms,
        interval_ms > u32::MAX ==> reported == u32::MAX,
{
}

/// A target keeps what it points at, whichever form it is written in: as it is observed, as it goes
/// over the wire, and as a profile names it.
pub proof fn law_targets_keep_what_they_point_at(
    target: &CaptureTarget,
    observed: ObservationCaptureTarget,
    wire: CaptureTargetWire,
    named: &ProfileCaptureTarget,
    named_observed: ObservationCaptureTarget,
    named_fixed: Option<CaptureTarget>,
)
    requires
        call_ensures(observation_target_from_capture_target, (target,), observed),
        call_ensures(capture_target_wire, (target,), wire),
        call_ensures(observation_target_from_profile_target, (named,), named_observed),
        call_ensures(capture_target_from_profile_target, (named,), named_fixed),
    ensures
        *target is Primary ==> observed is PrimaryMonitor && wire is Primary,
        *target matches CaptureTarget::Monitor { monitor_index } ==> observed == (
        ObservationCaptureTarget::MonitorIndex { index: monitor_index }) && wire == (
        CaptureTargetWire::Monitor { monitor_index }),
        *target matches CaptureTarget::Window { hwnd } ==> observed == (
        ObservationCaptureTarget::Window { window_hwnd: hwnd }) && wire == (
        CaptureTargetWire::Window { window_hwnd: hwnd }),
        *named is ForegroundWindow <==> named_observed is ForegroundWindow,
        *named is ForegroundWindow <==> named_fixed is None,
        *named is PrimaryMonitor ==> named_observed is PrimaryMonitor && named_fixed == Some(
            CaptureTarget::Primary,
        ),
        *named matches ProfileCaptureTarget::MonitorIndex { index } ==> named_observed == (
        ObservationCaptureTarget::MonitorIndex { index }) && named_fixed == Some(
            CaptureTarget::Monitor { monitor_index: index },
        ),
{
}

/// What is asked to be captured is captured: an element by the window it is in, as long as it shows
/// an area, and everything else as it was named.
pub proof fn law_targets_are_those_asked_for(
    param: CaptureTargetParam,
    element_rect: Result<Rect, String>,
    r: Result<CaptureTarget, ToolError>,
)
    requires
        call_ensures(capture_target_from_param, (param, element_rect), r),
    ensures
        param is Primary ==> r == Ok::<CaptureTarget, ToolError>(CaptureTarget::Primary),
        param matches CaptureTargetParam::Monitor { monitor_index } ==> r == Ok::<
            CaptureTarget,
            ToolError,
        >(CaptureTarget::Monitor { monitor_index }),
        param matches CaptureTargetParam::Window { window_hwnd } ==> r == Ok::<
            CaptureTarget,
            ToolError,
        >(CaptureTarget::Window { hwnd: window_hwnd }),
        param matches CaptureTargetParam::ElementWindow { element_id } ==> {
            &&& (r is Ok <==> element_rect is Ok && element_rect->Ok_0.w > 0 && element_rect->Ok_0.h
                > 0)
            &&& (r is Ok ==> r->Ok_0 == (CaptureTarget::Window { hwnd: element_id.hwnd }))
            &&& (r is Err ==> (r->Err_0)@.code == CAPTURE_TARGET_INVALID@)
            &&& (element_rect is Err ==> (r->Err_0)@.message
                == "element_window target could not be re-resolved: "@ + element_rect->Err_0@)
        },
{
}

/// Two captures are the same exactly if they differ in nothing but the generation.
pub proof fn law_captures_are_the_same_but_for_the_generation(
    left: &ObservationCaptureConfig,
    right: &ObservationCaptureConfig,
    r: bool,
)
    requires
        call_ensures(capture_config_without_generation_eq, (left, right), r),
    ensures
        r <==> left.target == right.target && left.min_update_interval_ms
            == right.min_update_interval_ms && left.cursor_visible == right.cursor_visible
            && left.dirty_region_only == right.dirty_region_only && left.source@ == right.source@,
{
}

/// A configuration is observed with its own target, interval, switches, generation and source.
pub proof fn law_configurations_are_observed_as_they_are(
    config: &CaptureConfig,
    capture: &ProfileCapture,
    dirty_region_only: bool,
    generation: u64,
    source: String,
    set: ObservationCaptureConfig,
    profiled: ObservationCaptureConfig,
)
    requires
        call_ensures(observation_capture_from_capture_config, (config, generation, source), set),
        call_ensures(
            observation_capture_from_profile_capture,
            (capture, dirty_region_only, generation, source),
            profiled,
        ),
    ensures
        set.generation == generation && profiled.generation == generation,
        set.source == source && profiled.source == source,
        set.cursor_visible == config.cursor_visible,
        profiled.cursor_visible == capture.cursor_visible,
        set.dirty_region_only == config.dirty_region_only,
        profiled.dirty_region_only == dirty_region_only,
        16 <= config.min_update_interval_ms <= u32::MAX ==> set.min_update_interval_ms
            == config.min_update_interval_ms,
        16 <= capture.min_update_interval_ms ==> profiled.min_update_interval_ms
            == capture.min_update_interval_ms,
        capture.min_update_interval_ms < 16 ==> profiled.min_update_interval_ms == 16,
        config.target is Window ==> set.target is Window && set.target->window_hwnd
            == config.target->hwnd,
        capture.target is ForegroundWindow ==> profiled.target is ForegroundWindow,
{
}

} // verus!
