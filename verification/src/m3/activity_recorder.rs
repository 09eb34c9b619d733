//! Always-on operator-activity recorder.
//!
//! Turns the stream of window events and idle probes into timeline rows: foreground switches,
//! title changes, idle transitions and session boundaries. Window events are triggers, not truth:
//! where the window of an event is unusable, the real foreground is read instead, and every idle
//! probe reconciles the recorded foreground with the real one.
//!
//! The functions decide; the host reads windows, writes rows and sleeps. Each takes what was read
//! and returns the row to write or the step to take next.

use vstd::prelude::*;

use crate::json::{json_i64, json_int, json_optional_int, json_optional_text, json_text, json_u64,
    Json, JsonView, ObjectBuilder};
use crate::m3::suggestions::floor_sub;
use crate::m3::timeline::{agent_of, TimelineActor, TimelineKind, TimelineRecord, TimelineView};
use crate::numerals::{parse_unsigned, parsed_unsigned};
use crate::text::{cat2, cat3, debug_quoted, quoted, text_equal, trim,
    trimmed};

verus! {

/// Names the idle threshold override, in milliseconds.
pub const IDLE_TIMEOUT_ENV: &'static str = "SYNAPSE_TIMELINE_IDLE_TIMEOUT_MS";

pub const DEFAULT_IDLE_TIMEOUT_MS: u64 = 180_000;

pub const MIN_IDLE_POLL_INTERVAL_MS: u64 = 250;

pub const MAX_IDLE_POLL_INTERVAL_MS: u64 = 5_000;

/// How long a shutdown waits for the worker.
pub const SHUTDOWN_ACK_TIMEOUT_MS: u64 = 5_000;

// ---------------------------------------------------------------------------------------------
// Configuration
// ---------------------------------------------------------------------------------------------

/// The idle policy of a recorder.
#[derive(Clone, Copy, Debug, PartialEq, Eq, Structural)]
pub struct RecorderConfig {
    pub idle_timeout_ms: u64,
    pub idle_poll_interval_ms: u64,
}

/// Why an idle policy is refused.
#[derive(Debug, PartialEq, Eq)]
pub enum RecorderConfigError {
    /// The setting is no integer.
    NotAnInteger { value: String },
    /// The setting is zero.
    Zero,
}

impl RecorderConfigError {
    /// What the error says.
    pub open spec fn text(self) -> Seq<char> {
        match self {
            RecorderConfigError::NotAnInteger { value } => IDLE_TIMEOUT_ENV@
                + " must be a positive integer of milliseconds, got "@ + debug_quoted(value@),
            RecorderConfigError::Zero => IDLE_TIMEOUT_ENV@
                + " must be at least 1 millisecond, got 0"@,
        }
    }

    /// What the error says.
    pub fn message(&self) -> (r: String)
        ensures
            r@ == self.text(),
    {
        match self {
            RecorderConfigError::NotAnInteger { value } => {
                let shown = quoted(value.as_str());
                cat3(
                    IDLE_TIMEOUT_ENV,
                    " must be a positive integer of milliseconds, got ",
                    shown.as_str(),
                )
            },
            RecorderConfigError::Zero => cat2(
                IDLE_TIMEOUT_ENV,
                " must be at least 1 millisecond, got 0",
            ),
        }
    }
}

/// What the environment says of the idle timeout.
#[derive(Debug)]
pub enum IdleTimeoutSetting {
    /// Nothing.
    NotPresent,
    /// A text.
    Value(String),
    /// Something that is no text; what can be shown of it.
    NotUnicode(String),
}

/// The poll interval of a timeout: a quarter of it, within bounds, and no longer than it.
pub open spec fn poll_interval(timeout_ms: u64) -> u64 {
    let quarter = timeout_ms / 4;
    let bounded = if quarter < MIN_IDLE_POLL_INTERVAL_MS {
        MIN_IDLE_POLL_INTERVAL_MS
    } else if quarter > MAX_IDLE_POLL_INTERVAL_MS {
        MAX_IDLE_POLL_INTERVAL_MS
    } else {
        quarter
    };
    if bounded <= timeout_ms {
        bounded
    } else {
        timeout_ms
    }
}

/// The timeout that a setting denotes: the default where it is absent.
pub open spec fn timeout_of(raw: Option<Seq<char>>) -> Option<nat> {
    match raw {
        None => Some(DEFAULT_IDLE_TIMEOUT_MS as nat),
        Some(value) => parsed_unsigned(trimmed(value), u64::MAX as nat),
    }
}

/// The configuration that a setting asks for, or what is wrong with the setting.
pub open spec fn is_config_of(
    raw: Option<Seq<char>>,
    r: Result<RecorderConfig, RecorderConfigError>,
) -> bool {
    match timeout_of(raw) {
        None => r matches Err(RecorderConfigError::NotAnInteger { value }) && value@
            == raw->Some_0,
        Some(ms) => if ms == 0 {
            r matches Err(RecorderConfigError::Zero)
        } else {
            r matches Ok(config) && config.idle_timeout_ms == ms && config.idle_poll_interval_ms
                == poll_interval(config.idle_timeout_ms)
        },
    }
}

impl RecorderConfig {
    /// The configuration that the environment asks for. A setting that is no text is refused like any
    /// other that is no integer.
    pub fn from_setting(setting: &IdleTimeoutSetting) -> (r: Result<
        RecorderConfig,
        RecorderConfigError,
    >)
        ensures
            match *setting {
                IdleTimeoutSetting::NotPresent => is_config_of(None, r),
                IdleTimeoutSetting::Value(raw) => is_config_of(Some(raw@), r),
                IdleTimeoutSetting::NotUnicode(shown) => r matches Err(
                    RecorderConfigError::NotAnInteger { value },
                ) && value@ == shown@,
            },
    {
        match setting {
            IdleTimeoutSetting::NotPresent => Self::from_raw(None),
            IdleTimeoutSetting::Value(raw) => Self::from_raw(Some(raw.as_str())),
            IdleTimeoutSetting::NotUnicode(shown) => Err(
                RecorderConfigError::NotAnInteger { value: shown.clone() },
            ),
        }
    }

    /// Reads the idle policy.
    pub fn from_raw(raw: Option<&str>) -> (r: Result<RecorderConfig, RecorderConfigError>)
        ensures
            is_config_of(
                match raw {
                    Some(text) => Some(text@),
                    None => None,
                },
                r,
            ),
    {
        let idle_timeout_ms: u64 = match raw {
            None => DEFAULT_IDLE_TIMEOUT_MS,
            Some(value) => {
                let cut = trim(value);
                match parse_unsigned(cut.as_str(), u64::MAX) {
                    Some(ms) => ms,
                    None => {
                        return Err(
                            RecorderConfigError::NotAnInteger { value: value.to_owned() },
                        );
                    },
                }
            },
        };
        if idle_timeout_ms == 0 {
            return Err(RecorderConfigError::Zero);
        }
        let quarter: u64 = idle_timeout_ms / 4;
        let bounded: u64 = if quarter < MIN_IDLE_POLL_INTERVAL_MS {
            MIN_IDLE_POLL_INTERVAL_MS
        } else if quarter > MAX_IDLE_POLL_INTERVAL_MS {
            MAX_IDLE_POLL_INTERVAL_MS
        } else {
            quarter
        };
        let idle_poll_interval_ms: u64 = if bounded <= idle_timeout_ms {
            bounded
        } else {
            idle_timeout_ms
        };
        Ok(RecorderConfig { idle_timeout_ms, idle_poll_interval_ms })
    }
}

// ---------------------------------------------------------------------------------------------
// Foreground and idle transitions
// ---------------------------------------------------------------------------------------------

/// The foreground window as it was last recorded.
#[derive(Debug, PartialEq, Eq)]
pub struct ForegroundSnapshot {
    pub hwnd: i64,
    pub pid: u32,
    pub process_name: String,
    pub process_path: String,
    pub title: String,
}

/// A foreground window with texts as sequences of characters.
#[verifier::ext_equal]
pub struct SnapshotView {
    pub hwnd: i64,
    pub pid: u32,
    pub process_name: Seq<char>,
    pub process_path: Seq<char>,
    pub title: Seq<char>,
}

impl View for ForegroundSnapshot {
    type V = SnapshotView;

    open spec fn view(&self) -> SnapshotView {
        SnapshotView {
            hwnd: self.hwnd,
            pid: self.pid,
            process_name: self.process_name@,
            process_path: self.process_path@,
            title: self.title@,
        }
    }
}

impl Clone for ForegroundSnapshot {
    fn clone(&self) -> (r: Self)
        ensures
            r == *self,
    {
        ForegroundSnapshot {
            hwnd: self.hwnd,
            pid: self.pid,
            process_name: self.process_name.clone(),
            process_path: self.process_path.clone(),
            title: self.title.clone(),
        }
    }
}

/// An optional foreground window with texts as sequences of characters.
pub open spec fn snapshot_view(s: Option<ForegroundSnapshot>) -> Option<SnapshotView> {
    match s {
        Some(snapshot) => Some(snapshot@),
        None => None,
    }
}

/// How the foreground moved.
#[derive(Clone, Copy, Debug, PartialEq, Eq, Structural)]
pub enum ForegroundTransition {
    Duplicate,
    TitleChanged,
    Switched,
}

/// How the foreground moved: within the same window of the same process only the title can.
pub open spec fn transition(prev: Option<SnapshotView>, next: SnapshotView) -> ForegroundTransition {
    match prev {
        Some(before) => if before.hwnd == next.hwnd && before.pid == next.pid {
            if before.title == next.title {
                ForegroundTransition::Duplicate
            } else {
                ForegroundTransition::TitleChanged
            }
        } else {
            ForegroundTransition::Switched
        },
        None => ForegroundTransition::Switched,
    }
}

/// Says how the foreground moved.
pub fn classify_foreground_transition(
    prev: Option<&ForegroundSnapshot>,
    next: &ForegroundSnapshot,
) -> (r: ForegroundTransition)
    ensures
        r == transition(
            match prev {
                Some(before) => Some(before@),
                None => None,
            },
            next@,
        ),
{
    match prev {
        Some(before) => {
            if before.hwnd == next.hwnd && before.pid == next.pid {
                if text_equal(before.title.as_str(), next.title.as_str()) {
                    ForegroundTransition::Duplicate
                } else {
                    ForegroundTransition::TitleChanged
                }
            } else {
                ForegroundTransition::Switched
            }
        },
        None => ForegroundTransition::Switched,
    }
}

/// A change between idle and active.
#[derive(Clone, Copy, Debug, PartialEq, Eq, Structural)]
pub enum IdleEdge {
    Start,
    End,
}

/// The change that an idle reading makes: idleness begins at the timeout and ends below it.
pub open spec fn idle_edge(currently_idle: bool, idle_ms: u64, timeout_ms: u64) -> Option<IdleEdge> {
    if !currently_idle && idle_ms >= timeout_ms {
        Some(IdleEdge::Start)
    } else if currently_idle && idle_ms < timeout_ms {
        Some(IdleEdge::End)
    } else {
        None
    }
}

/// The change that an idle reading makes.
pub fn idle_transition(currently_idle: bool, idle_ms: u64, timeout_ms: u64) -> (r: Option<IdleEdge>)
    ensures
        r == idle_edge(currently_idle, idle_ms, timeout_ms),
{
    if !currently_idle && idle_ms >= timeout_ms {
        Some(IdleEdge::Start)
    } else if currently_idle && idle_ms < timeout_ms {
        Some(IdleEdge::End)
    } else {
        None
    }
}

/// Who holds the lease on real input.
#[derive(Debug)]
pub struct LeaseStatus {
    pub held: bool,
    pub owner_session_id: Option<String>,
}

/// The session of the agent that drives the foreground: the holder of the lease, unless that is
/// the operator.
pub open spec fn driving_agent(status: LeaseStatus, operator_session: Seq<char>) -> Option<Seq<char>> {
    match status.owner_session_id {
        Some(owner) => if status.held && owner@ != operator_session {
            Some(owner@)
        } else {
            None
        },
        None => None,
    }
}

/// Says who drives the foreground. `operator_session` is the session under which the operator
/// preempts the lease.
pub fn current_actor(status: &LeaseStatus, operator_session: &str) -> (r: TimelineActor)
    ensures
        agent_of(r) == driving_agent(*status, operator_session@),
{
    match &status.owner_session_id {
        Some(owner) => {
            if status.held && !text_equal(owner.as_str(), operator_session) {
                TimelineActor::Agent { session_id: owner.clone() }
            } else {
                TimelineActor::Human
            }
        },
        None => TimelineActor::Human,
    }
}

// ---------------------------------------------------------------------------------------------
// The recorder's state
// ---------------------------------------------------------------------------------------------

/// Why a row is not to be written.
#[derive(Clone, Copy, Debug, PartialEq, Eq, Structural)]
pub enum SuppressReason {
    Paused,
    ExcludedApp,
}

/// What a recorder counts.
#[derive(Clone, Copy, Debug, PartialEq, Eq, Structural)]
pub struct RecorderCounters {
    pub rows_written: u64,
    pub write_failures: u64,
    pub rows_suppressed_paused: u64,
    pub rows_suppressed_excluded: u64,
}

/// A recorder: its policy, its counters, and what it has recorded last.
#[derive(Debug)]
pub struct ActivityRecorder {
    pub config: RecorderConfig,
    pub counters: RecorderCounters,
    /// The last recorded foreground.
    pub foreground: Option<ForegroundSnapshot>,
    pub idle: bool,
    pub shutdown_requested: bool,
    pub sink_closed_logged: bool,
}

/// A recorder's state with texts as sequences of characters.
#[verifier::ext_equal]
pub struct RecorderView {
    pub config: RecorderConfig,
    pub counters: RecorderCounters,
    pub foreground: Option<SnapshotView>,
    pub idle: bool,
    pub shutdown_requested: bool,
    pub sink_closed_logged: bool,
}

impl View for ActivityRecorder {
    type V = RecorderView;

    open spec fn view(&self) -> RecorderView {
        RecorderView {
            config: self.config,
            counters: self.counters,
            foreground: snapshot_view(self.foreground),
            idle: self.idle,
            shutdown_requested: self.shutdown_requested,
            sink_closed_logged: self.sink_closed_logged,
        }
    }
}

/// A counter after one more event; it starts over behind the greatest `u64`.
pub open spec fn bumped(n: u64) -> u64 {
    if n == u64::MAX {
        0
    } else {
        (n + 1) as u64
    }
}

fn bump(n: u64) -> (r: u64)
    ensures
        r == bumped(n),
{
    if n == u64::MAX {
        0
    } else {
        n + 1
    }
}

/// The counters after a row was kept from being written.
pub open spec fn with_suppressed(c: RecorderCounters, reason: SuppressReason) -> RecorderCounters {
    match reason {
        SuppressReason::Paused => RecorderCounters {
            rows_suppressed_paused: bumped(c.rows_suppressed_paused),
            ..c
        },
        SuppressReason::ExcludedApp => RecorderCounters {
            rows_suppressed_excluded: bumped(c.rows_suppressed_excluded),
            ..c
        },
    }
}

/// The counters after the recording filter was asked.
pub open spec fn gated(c: RecorderCounters, gate: Option<SuppressReason>) -> RecorderCounters {
    match gate {
        Some(reason) => with_suppressed(c, reason),
        None => c,
    }
}

/// When and by whom a row is made.
#[derive(Debug)]
pub struct RowStamp {
    pub now_ts_ns: u64,
    pub actor: TimelineActor,
}

/// What is read of a foreground window.
#[derive(Debug, PartialEq, Eq)]
pub struct ForegroundReading {
    pub hwnd: i64,
    pub pid: u32,
    pub process_name: String,
    pub process_path: String,
    pub window_title: String,
}

/// A reading as a snapshot.
pub open spec fn reading_view(reading: ForegroundReading) -> SnapshotView {
    SnapshotView {
        hwnd: reading.hwnd,
        pid: reading.pid,
        process_name: reading.process_name@,
        process_path: reading.process_path@,
        title: reading.window_title@,
    }
}

fn snapshot_of(reading: &ForegroundReading) -> (r: ForegroundSnapshot)
    ensures
        r@ == reading_view(*reading),
{
    ForegroundSnapshot {
        hwnd: reading.hwnd,
        pid: reading.pid,
        process_name: reading.process_name.clone(),
        process_path: reading.process_path.clone(),
        title: reading.window_title.clone(),
    }
}

/// The payload of a foreground switch.
pub open spec fn focus_payload(next: SnapshotView, source: Seq<char>) -> JsonView {
    JsonView::Object(
        seq![
            ("hwnd"@, json_int(next.hwnd as int)),
            ("pid"@, json_int(next.pid as int)),
            ("process_path"@, JsonView::Text(next.process_path)),
            ("source"@, JsonView::Text(source)),
            ("title"@, JsonView::Text(next.title)),
        ],
    )
}

/// The payload of a title change.
pub open spec fn title_payload(next: SnapshotView, previous_title: Option<Seq<char>>) -> JsonView {
    JsonView::Object(
        seq![
            ("hwnd"@, json_int(next.hwnd as int)),
            ("pid"@, json_int(next.pid as int)),
            ("previous_title"@, json_optional_text(previous_title)),
            ("title"@, JsonView::Text(next.title)),
        ],
    )
}

/// The title of the last recorded foreground.
pub open spec fn title_of(s: Option<SnapshotView>) -> Option<Seq<char>> {
    match s {
        Some(snapshot) => Some(snapshot.title),
        None => None,
    }
}

/// The row of a foreground switch.
pub open spec fn focus_row(
    next: SnapshotView,
    source: Seq<char>,
    now: u64,
    agent: Option<Seq<char>>,
) -> TimelineView {
    TimelineView {
        ts_ns: now,
        kind: TimelineKind::FocusChange,
        agent,
        app: Some(next.process_name),
        payload: focus_payload(next, source),
    }
}

/// The row of a title change.
pub open spec fn title_row(
    next: SnapshotView,
    prev: Option<SnapshotView>,
    now: u64,
    agent: Option<Seq<char>>,
) -> TimelineView {
    TimelineView {
        ts_ns: now,
        kind: TimelineKind::TitleChange,
        agent,
        app: Some(next.process_name),
        payload: title_payload(next, title_of(prev)),
    }
}

fn make_focus_row(next: &ForegroundSnapshot, source: &str, stamp: RowStamp) -> (r: TimelineRecord)
    ensures
        r@ == focus_row(next@, source@, stamp.now_ts_ns, agent_of(stamp.actor)),
{
    let builder = ObjectBuilder::new().with("hwnd", json_i64(next.hwnd)).with(
        "pid",
        json_u64(next.pid as u64),
    ).with("process_path", json_text(next.process_path.as_str())).with(
        "source",
        json_text(source),
    ).with("title", json_text(next.title.as_str()));
    proof {
        assert(builder@ =~= focus_payload(next@, source@)->Object_0);
    }
    TimelineRecord {
        ts_ns: stamp.now_ts_ns,
        kind: TimelineKind::FocusChange,
        actor: stamp.actor,
        app: Some(next.process_name.clone()),
        payload: builder.build(),
    }
}

fn make_title_row(
    next: &ForegroundSnapshot,
    prev: &Option<ForegroundSnapshot>,
    stamp: RowStamp,
) -> (r: TimelineRecord)
    ensures
        r@ == title_row(next@, snapshot_view(*prev), stamp.now_ts_ns, agent_of(stamp.actor)),
{
    let previous_title = match prev {
        Some(snapshot) => json_text(snapshot.title.as_str()),
        None => Json::Null,
    };
    let builder = ObjectBuilder::new().with("hwnd", json_i64(next.hwnd)).with(
        "pid",
        json_u64(next.pid as u64),
    ).with("previous_title", previous_title).with("title", json_text(next.title.as_str()));
    proof {
        assert(builder@ =~= title_payload(
            next@,
            title_of(snapshot_view(*prev)),
        )->Object_0);
    }
    TimelineRecord {
        ts_ns: stamp.now_ts_ns,
        kind: TimelineKind::TitleChange,
        actor: stamp.actor,
        app: Some(next.process_name.clone()),
        payload: builder.build(),
    }
}

/// A window event that the recorder cares about, or another.
#[derive(Clone, Copy, Debug, PartialEq, Eq, Structural)]
pub enum WindowEventKind {
    ForegroundChanged,
    NameChanged,
    Other,
}

/// What a window event calls for.
#[derive(Clone, Copy, Debug, PartialEq, Eq, Structural)]
pub enum AccessibleStep {
    Nothing,
    /// Resolve the foreground and record it.
    ResolveForeground(i64),
    /// Read the title of the window and record it.
    ReadTitle(i64),
}

/// What was read to resolve a foreground event. A failed read is `None`.
#[derive(Debug)]
pub struct TriggerReadings {
    /// Whether the window of the event is visible.
    pub event_visible: Option<bool>,
    pub event_window: Option<ForegroundReading>,
    /// The real foreground.
    pub current: Option<ForegroundReading>,
    /// Whether the real foreground is visible.
    pub current_visible: Option<bool>,
}

/// The foreground that an event stands for: the window of the event where it is visible and can be
/// read, otherwise the real foreground where that is visible.
pub open spec fn resolved_foreground(readings: TriggerReadings) -> Option<ForegroundReading> {
    if readings.event_visible == Some(true) && readings.event_window is Some {
        readings.event_window
    } else if readings.current is Some && readings.current_visible == Some(true) {
        readings.current
    } else {
        None
    }
}

/// Resolves the foreground that an event stands for.
pub fn resolve_foreground_trigger(readings: TriggerReadings) -> (r: Option<ForegroundReading>)
    ensures
        r == resolved_foreground(readings),
{
    let event_is_visible = match readings.event_visible {
        Some(visible) => visible,
        None => false,
    };
    if event_is_visible {
        if let Some(window) = readings.event_window {
            return Some(window);
        }
    }
    let current_is_visible = match readings.current_visible {
        Some(visible) => visible,
        None => false,
    };
    if current_is_visible {
        readings.current
    } else {
        None
    }
}

/// The recorder after it was shown a foreground, and the row to write. An excluded foreground
/// leaves the last recorded one alone, so that the next recordable one counts as a switch.
pub open spec fn applied(
    before: RecorderView,
    next: SnapshotView,
    source: Seq<char>,
    gate: Option<SuppressReason>,
    now: u64,
    agent: Option<Seq<char>>,
) -> (RecorderView, Option<TimelineView>) {
    if gate is Some {
        (RecorderView { counters: gated(before.counters, gate), ..before }, None)
    } else {
        (
            RecorderView { foreground: Some(next), ..before },
            match transition(before.foreground, next) {
                ForegroundTransition::Duplicate => None,
                ForegroundTransition::TitleChanged => Some(
                    title_row(next, before.foreground, now, agent),
                ),
                ForegroundTransition::Switched => Some(focus_row(next, source, now, agent)),
            },
        )
    }
}

/// The recorder after it was shown the title of its foreground, and the row to write.
pub open spec fn retitled(
    before: RecorderView,
    next: SnapshotView,
    gate: Option<SuppressReason>,
    now: u64,
    agent: Option<Seq<char>>,
) -> (RecorderView, Option<TimelineView>) {
    if before.foreground is None || next.title == before.foreground->Some_0.title {
        (before, None)
    } else {
        (
            RecorderView {
                foreground: Some(next),
                counters: gated(before.counters, gate),
                ..before
            },
            if gate is Some {
                None
            } else {
                Some(title_row(next, before.foreground, now, agent))
            },
        )
    }
}

/// A row with texts as sequences of characters.
pub open spec fn row_view(row: Option<TimelineRecord>) -> Option<TimelineView> {
    match row {
        Some(record) => Some(record@),
        None => None,
    }
}

/// The step that an idle probe takes first.
#[derive(Clone, Copy, Debug, PartialEq, Eq, Structural)]
pub enum IdleProbeStep {
    /// Paused: nothing is perceived.
    Stop,
    /// The pause is over: resume, and go on where that succeeds.
    Resume,
    /// Reconcile the foreground and note idle transitions.
    Reconcile,
}

/// The instant of the last input: the idle time before now.
pub open spec fn last_input_ns(now: u64, idle_ms: u64) -> u64 {
    let idle_ns = if idle_ms * 1_000_000 <= u64::MAX {
        idle_ms * 1_000_000
    } else {
        u64::MAX as int
    };
    floor_sub(now as int, idle_ns) as u64
}

/// The row of an idle transition, dated back to the last input.
pub open spec fn idle_row(
    edge: IdleEdge,
    idle_ms: u64,
    config: RecorderConfig,
    now: u64,
) -> TimelineView {
    TimelineView {
        ts_ns: last_input_ns(now, idle_ms),
        kind: match edge {
            IdleEdge::Start => TimelineKind::IdleStart,
            IdleEdge::End => TimelineKind::IdleEnd,
        },
        agent: None,
        app: None,
        payload: match edge {
            IdleEdge::Start => JsonView::Object(
                seq![
                    ("idle_ms_at_detection"@, json_int(idle_ms as int)),
                    ("idle_timeout_ms"@, json_int(config.idle_timeout_ms as int)),
                ],
            ),
            IdleEdge::End => JsonView::Object(
                seq![("idle_ms_at_detection"@, json_int(idle_ms as int))],
            ),
        },
    }
}

/// The recorder after an idle reading, and the row to write.
pub open spec fn idled(
    before: RecorderView,
    idle_ms: u64,
    gate: Option<SuppressReason>,
    now: u64,
) -> (RecorderView, Option<TimelineView>) {
    match idle_edge(before.idle, idle_ms, before.config.idle_timeout_ms) {
        None => (before, None),
        Some(edge) => (
            RecorderView {
                idle: edge is Start,
                counters: gated(before.counters, gate),
                ..before
            },
            if gate is Some {
                None
            } else {
                Some(idle_row(edge, idle_ms, before.config, now))
            },
        ),
    }
}

/// The payload of a session's end.
pub open spec fn session_end_view(pid: u32, c: RecorderCounters, edge: Seq<char>) -> JsonView {
    JsonView::Object(
        seq![
            ("edge"@, JsonView::Text(edge)),
            ("pid"@, json_int(pid as int)),
            ("rows_written"@, json_int(c.rows_written as int)),
            ("write_failures"@, json_int(c.write_failures as int)),
        ],
    )
}

/// The payload of a session's end.
pub fn session_end_payload(pid: u32, counters: &RecorderCounters, edge: &str) -> (r: Json)
    ensures
        r@ == session_end_view(pid, *counters, edge@),
{
    let builder = ObjectBuilder::new().with("edge", json_text(edge)).with(
        "pid",
        json_u64(pid as u64),
    ).with("rows_written", json_u64(counters.rows_written)).with(
        "write_failures",
        json_u64(counters.write_failures),
    );
    proof {
        assert(builder@ =~= session_end_view(pid, *counters, edge@)->Object_0);
    }
    builder.build()
}

/// The row of a session's end.
pub open spec fn session_end_row(
    pid: u32,
    c: RecorderCounters,
    edge: Seq<char>,
    now: u64,
) -> TimelineView {
    TimelineView {
        ts_ns: now,
        kind: TimelineKind::SessionEnd,
        agent: None,
        app: None,
        payload: session_end_view(pid, c, edge),
    }
}

fn boundary(kind: TimelineKind, now: u64, payload: Json) -> (r: TimelineRecord)
    ensures
        r@ == (TimelineView { ts_ns: now, kind, agent: None, app: None, payload: payload@ }),
{
    TimelineRecord { ts_ns: now, kind, actor: TimelineActor::Human, app: None, payload }
}

/// A recorder that ends its session, with the row of the session's end, unless something holds that
/// row back.
pub open spec fn session_ended(
    before: RecorderView,
    edge: Seq<char>,
    gate: Option<SuppressReason>,
    pid: u32,
    now: u64,
) -> (RecorderView, Option<TimelineView>) {
    (
        RecorderView { counters: gated(before.counters, gate), ..before },
        if gate is Some {
            None
        } else {
            Some(session_end_row(pid, before.counters, edge, now))
        },
    )
}

/// A recorder after an event that came while it was paused: the event is counted, and the recorded
/// foreground is dropped.
pub open spec fn blinded(before: RecorderView) -> RecorderView {
    RecorderView {
        foreground: None,
        counters: with_suppressed(before.counters, SuppressReason::Paused),
        ..before
    }
}

impl ActivityRecorder {
    /// A recorder that has recorded nothing.
    pub fn new(config: RecorderConfig) -> (r: ActivityRecorder)
        ensures
            r@ == fresh_recorder(config),
    {
        ActivityRecorder {
            config,
            counters: RecorderCounters {
                rows_written: 0,
                write_failures: 0,
                rows_suppressed_paused: 0,
                rows_suppressed_excluded: 0,
            },
            foreground: None,
            idle: false,
            shutdown_requested: false,
            sink_closed_logged: false,
        }
    }

    /// Whether an event of this kind is handed to the recorder at all.
    pub fn records_event(kind: WindowEventKind) -> (r: bool)
        ensures
            r == (kind !is Other),
    {
        matches!(kind, WindowEventKind::ForegroundChanged | WindowEventKind::NameChanged)
    }

    /// Notes how handing an event to the worker went, and says whether the loss of the worker is to
    /// be reported: once.
    pub fn record_accessible_event(&mut self, delivered: bool) -> (r: bool)
        ensures
            r == (!delivered && !old(self).sink_closed_logged),
            final(self)@ == (RecorderView {
                sink_closed_logged: old(self).sink_closed_logged || !delivered,
                ..old(self)@
            }),
    {
        if delivered {
            return false;
        }
        let report = !self.sink_closed_logged;
        self.sink_closed_logged = true;
        report
    }

    /// Decides what a window event calls for. While paused nothing is perceived, and the recorded
    /// foreground is dropped so that the first event after a resume records it anew.
    pub fn handle_accessible(&mut self, kind: WindowEventKind, window_id: i64, paused: bool) -> (r:
        AccessibleStep)
        ensures
            if paused {
                &&& r is Nothing
                &&& final(self)@ == blinded(old(self)@)
            } else {
                &&& final(self)@ == old(self)@
                &&& r == match kind {
                    WindowEventKind::ForegroundChanged => AccessibleStep::ResolveForeground(
                        window_id,
                    ),
                    WindowEventKind::NameChanged => if old(self)@.foreground is Some
                        && old(self)@.foreground->Some_0.hwnd == window_id {
                        AccessibleStep::ReadTitle(window_id)
                    } else {
                        AccessibleStep::Nothing
                    },
                    WindowEventKind::Other => AccessibleStep::Nothing,
                }
            },
    {
        if paused {
            self.foreground = None;
            self.counters.rows_suppressed_paused = bump(self.counters.rows_suppressed_paused);
            return AccessibleStep::Nothing;
        }
        match kind {
            WindowEventKind::ForegroundChanged => AccessibleStep::ResolveForeground(window_id),
            WindowEventKind::NameChanged => match &self.foreground {
                Some(previous) => {
                    if previous.hwnd == window_id {
                        AccessibleStep::ReadTitle(window_id)
                    } else {
                        AccessibleStep::Nothing
                    }
                },
                None => AccessibleStep::Nothing,
            },
            WindowEventKind::Other => AccessibleStep::Nothing,
        }
    }

    /// Counts a row that the recording filter holds back.
    pub fn suppressed(&mut self, gate: Option<SuppressReason>) -> (r: bool)
        ensures
            r == (gate is Some),
            final(self)@ == (RecorderView {
                counters: gated(old(self).counters, gate),
                ..old(self)@
            }),
    {
        match gate {
            None => false,
            Some(SuppressReason::Paused) => {
                self.counters.rows_suppressed_paused = bump(self.counters.rows_suppressed_paused);
                true
            },
            Some(SuppressReason::ExcludedApp) => {
                self.counters.rows_suppressed_excluded = bump(
                    self.counters.rows_suppressed_excluded,
                );
                true
            },
        }
    }

    /// Takes in the foreground and gives the row to write. `gate` is what the pause and exclusion
    /// gate says of the foreground's process, `source` what set off the reading.
    pub fn apply_foreground(
        &mut self,
        reading: &ForegroundReading,
        source: &str,
        gate: Option<SuppressReason>,
        stamp: RowStamp,
    ) -> (r: Option<TimelineRecord>)
        ensures
            (final(self)@, row_view(r)) == applied(
                old(self)@,
                reading_view(*reading),
                source@,
                gate,
                stamp.now_ts_ns,
                agent_of(stamp.actor),
            ),
    {
        let next = snapshot_of(reading);
        if self.suppressed(gate) {
            return None;
        }
        let moved = classify_foreground_transition(self.foreground.as_ref(), &next);
        let row = match moved {
            ForegroundTransition::Duplicate => None,
            ForegroundTransition::TitleChanged => Some(
                make_title_row(&next, &self.foreground, stamp),
            ),
            ForegroundTransition::Switched => Some(make_focus_row(&next, source, stamp)),
        };
        self.foreground = Some(next);
        row
    }

    /// Takes in the title of the recorded foreground, where the window could still be read, and
    /// gives the row to write.
    pub fn handle_name_change(
        &mut self,
        reading: Option<&ForegroundReading>,
        gate: Option<SuppressReason>,
        stamp: RowStamp,
    ) -> (r: Option<TimelineRecord>)
        ensures
            match reading {
                None => final(self)@ == old(self)@ && r is None,
                Some(reading) => (final(self)@, row_view(r)) == retitled(
                    old(self)@,
                    reading_view(*reading),
                    gate,
                    stamp.now_ts_ns,
                    agent_of(stamp.actor),
                ),
            },
    {
        let reading = match reading {
            Some(reading) => reading,
            None => {
                return None;
            },
        };
        match &self.foreground {
            None => {
                return None;
            },
            Some(previous) => {
                if text_equal(reading.window_title.as_str(), previous.title.as_str()) {
                    return None;
                }
            },
        }
        let next = snapshot_of(reading);
        let row = if self.suppressed(gate) {
            None
        } else {
            Some(make_title_row(&next, &self.foreground, stamp))
        };
        self.foreground = Some(next);
        row
    }

    /// Decides how an idle probe begins. While paused the recorded foreground is dropped, and the
    /// probe resumes the recorder where its pause has run out.
    pub fn begin_idle_probe(&mut self, paused: bool, auto_resume_due: bool) -> (r: IdleProbeStep)
        ensures
            r == (if !paused {
                IdleProbeStep::Reconcile
            } else if auto_resume_due {
                IdleProbeStep::Resume
            } else {
                IdleProbeStep::Stop
            }),
            final(self)@ == (RecorderView {
                foreground: if paused {
                    None
                } else {
                    old(self)@.foreground
                },
                ..old(self)@
            }),
    {
        if paused {
            self.foreground = None;
            if auto_resume_due {
                IdleProbeStep::Resume
            } else {
                IdleProbeStep::Stop
            }
        } else {
            IdleProbeStep::Reconcile
        }
    }

    /// Takes in the real foreground at an idle probe, where it could be read and is visible.
    pub fn reconcile_foreground(
        &mut self,
        current: Option<&ForegroundReading>,
        visible: Option<bool>,
        gate: Option<SuppressReason>,
        stamp: RowStamp,
    ) -> (r: Option<TimelineRecord>)
        ensures
            if current is Some && visible == Some(true) {
                (final(self)@, row_view(r)) == applied(
                    old(self)@,
                    reading_view(*current->Some_0),
                    "poll"@,
                    gate,
                    stamp.now_ts_ns,
                    agent_of(stamp.actor),
                )
            } else {
                final(self)@ == old(self)@ && r is None
            },
    {
        let is_visible = match visible {
            Some(visible) => visible,
            None => false,
        };
        match current {
            Some(reading) => {
                if is_visible {
                    self.apply_foreground(reading, "poll", gate, stamp)
                } else {
                    None
                }
            },
            None => None,
        }
    }

    /// Takes in an idle reading and gives the row to write.
    pub fn handle_idle_probe(&mut self, idle_ms: u64, gate: Option<SuppressReason>, now_ts_ns: u64) -> (r:
        Option<TimelineRecord>)
        ensures
            (final(self)@, row_view(r)) == idled(old(self)@, idle_ms, gate, now_ts_ns),
    {
        let edge = match idle_transition(self.idle, idle_ms, self.config.idle_timeout_ms) {
            Some(edge) => edge,
            None => {
                return None;
            },
        };
        let wide: u128 = idle_ms as u128 * 1_000_000;
        let idle_ns: u64 = if wide <= u64::MAX as u128 {
            wide as u64
        } else {
            u64::MAX
        };
        let ts_ns: u64 = now_ts_ns.saturating_sub(idle_ns);
        match edge {
            IdleEdge::Start => {
                self.idle = true;
                if self.suppressed(gate) {
                    return None;
                }
                let builder = ObjectBuilder::new().with(
                    "idle_ms_at_detection",
                    json_u64(idle_ms),
                ).with("idle_timeout_ms", json_u64(self.config.idle_timeout_ms));
                proof {
                    assert(builder@ =~= idle_row(
                        edge,
                        idle_ms,
                        self.config,
                        now_ts_ns,
                    ).payload->Object_0);
                }
                Some(boundary(TimelineKind::IdleStart, ts_ns, builder.build()))
            },
            IdleEdge::End => {
                self.idle = false;
                if self.suppressed(gate) {
                    return None;
                }
                let builder = ObjectBuilder::new().with("idle_ms_at_detection", json_u64(idle_ms));
                proof {
                    assert(builder@ =~= idle_row(
                        edge,
                        idle_ms,
                        self.config,
                        now_ts_ns,
                    ).payload->Object_0);
                }
                Some(boundary(TimelineKind::IdleEnd, ts_ns, builder.build()))
            },
        }
    }

    /// The row of the session's end, unless the recording filter holds it back.
    pub fn write_session_end(
        &mut self,
        edge: &str,
        gate: Option<SuppressReason>,
        pid: u32,
        now_ts_ns: u64,
    ) -> (r: Option<TimelineRecord>)
        ensures
            (final(self)@, row_view(r)) == session_ended(
                old(self)@,
                edge@,
                gate,
                pid,
                now_ts_ns,
            ),
    {
        if self.suppressed(gate) {
            return None;
        }
        Some(
            boundary(
                TimelineKind::SessionEnd,
                now_ts_ns,
                session_end_payload(pid, &self.counters, edge),
            ),
        )
    }

    /// Counts how the write of a row went.
    pub fn note_write(&mut self, succeeded: bool)
        ensures
            final(self)@ == (RecorderView {
                counters: if succeeded {
                    RecorderCounters {
                        rows_written: bumped(old(self).counters.rows_written),
                        ..old(self).counters
                    }
                } else {
                    RecorderCounters {
                        write_failures: bumped(old(self).counters.write_failures),
                        ..old(self).counters
                    }
                },
                ..old(self)@
            }),
    {
        if succeeded {
            self.counters.rows_written = bump(self.counters.rows_written);
        } else {
            self.counters.write_failures = bump(self.counters.write_failures);
        }
    }

    /// The rows written and the writes that failed.
    pub fn readback(&self) -> (r: (u64, u64))
        ensures
            r == (self.counters.rows_written, self.counters.write_failures),
    {
        (self.counters.rows_written, self.counters.write_failures)
    }

    /// The rows held back while paused and for excluded apps.
    pub fn suppressed_counters(&self) -> (r: (u64, u64))
        ensures
            r == (self.counters.rows_suppressed_paused, self.counters.rows_suppressed_excluded),
    {
        (self.counters.rows_suppressed_paused, self.counters.rows_suppressed_excluded)
    }
}

/// A recorder that has recorded nothing.
pub open spec fn fresh_recorder(config: RecorderConfig) -> RecorderView {
    RecorderView {
        config,
        counters: RecorderCounters {
            rows_written: 0,
            write_failures: 0,
            rows_suppressed_paused: 0,
            rows_suppressed_excluded: 0,
        },
        foreground: None,
        idle: false,
        shutdown_requested: false,
        sink_closed_logged: false,
    }
}

// ---------------------------------------------------------------------------------------------
// Pausing and resuming
// ---------------------------------------------------------------------------------------------

/// Which step of a control action failed, and what the step said.
#[derive(Debug, PartialEq, Eq)]
pub enum RecorderFailure {
    PauseWrite(String),
    PauseFlush(String),
    ResumeWrite(String),
    ResumeFlush(String),
    Persist(String),
    StartupProbe(String),
    StartupResume(String),
    StartupWrite(String),
    StartupFlush(String),
}

impl RecorderFailure {
    /// What the failure says: the step and the state that the recorder was left in, then what the
    /// step said.
    pub open spec fn text(self) -> Seq<char> {
        match self {
            RecorderFailure::PauseWrite(d) =>
                "write session_end pause boundary row; recording is unchanged: "@ + d@,
            RecorderFailure::PauseFlush(d) =>
                "flush session_end pause boundary row; recording is unchanged: "@ + d@,
            RecorderFailure::ResumeWrite(d) =>
                "write session_start resume boundary row \u{2014} recording IS resumed but the timeline write path is broken: "@
                + d@,
            RecorderFailure::ResumeFlush(d) =>
                "flush session_start resume boundary row \u{2014} recording IS resumed but the timeline write path is broken: "@
                + d@,
            RecorderFailure::Persist(d) => d@,
            RecorderFailure::StartupProbe(d) =>
                "probe GetLastInputInfo for the activity recorder idle source: "@ + d@,
            RecorderFailure::StartupResume(d) =>
                "auto-resume expired timeline pause at recorder startup: "@ + d@,
            RecorderFailure::StartupWrite(d) =>
                "write CF_TIMELINE session_start row at recorder startup: "@ + d@,
            RecorderFailure::StartupFlush(d) =>
                "flush CF_TIMELINE session_start row at recorder startup: "@ + d@,
        }
    }

    /// What the failure says.
    pub fn message(&self) -> (r: String)
        ensures
            r@ == self.text(),
    {
        match self {
            RecorderFailure::PauseWrite(d) => cat2(
                "write session_end pause boundary row; recording is unchanged: ",
                d.as_str(),
            ),
            RecorderFailure::PauseFlush(d) => cat2(
                "flush session_end pause boundary row; recording is unchanged: ",
                d.as_str(),
            ),
            RecorderFailure::ResumeWrite(d) => cat2(
                "write session_start resume boundary row \u{2014} recording IS resumed but the timeline write path is broken: ",
                d.as_str(),
            ),
            RecorderFailure::ResumeFlush(d) => cat2(
                "flush session_start resume boundary row \u{2014} recording IS resumed but the timeline write path is broken: ",
                d.as_str(),
            ),
            RecorderFailure::Persist(d) => d.clone(),
            RecorderFailure::StartupProbe(d) => cat2(
                "probe GetLastInputInfo for the activity recorder idle source: ",
                d.as_str(),
            ),
            RecorderFailure::StartupResume(d) => cat2(
                "auto-resume expired timeline pause at recorder startup: ",
                d.as_str(),
            ),
            RecorderFailure::StartupWrite(d) => cat2(
                "write CF_TIMELINE session_start row at recorder startup: ",
                d.as_str(),
            ),
            RecorderFailure::StartupFlush(d) => cat2(
                "flush CF_TIMELINE session_start row at recorder startup: ",
                d.as_str(),
            ),
        }
    }
}

/// The outcome of a pause or a resume. `S` is the durable control state.
#[derive(Debug, PartialEq, Eq)]
pub struct RecorderControlOutcome<S> {
    pub was_paused: bool,
    /// Whether a session boundary was written and flushed for this transition.
    pub boundary_row_written: bool,
    pub state: S,
}

/// What a pause does next: the boundary row is written and flushed while still recording, then the
/// control state is stored, which closes the recording filter.
#[derive(Debug)]
pub enum PauseStep {
    /// Write this boundary row.
    Write(TimelineRecord),
    /// Flush the boundary row.
    Flush,
    /// Store the control state.
    Persist,
    /// Give up; recording goes on.
    Fail(RecorderFailure),
}

/// What a resume does next, once the control state is stored and the recording filter is open: the boundary row
/// is written and flushed, which proves that the write path works.
#[derive(Debug)]
pub enum ResumeStep<S> {
    /// Write this boundary row.
    Write(TimelineRecord, S),
    /// Flush the boundary row.
    Flush(S),
    /// The resume is over.
    Done(Result<RecorderControlOutcome<S>, RecorderFailure>),
}

/// The row that closes the session at a pause.
pub open spec fn pause_row(
    c: RecorderCounters,
    paused_until_ns: Option<u64>,
    changed_by: Seq<char>,
    pid: u32,
    now: u64,
) -> TimelineView {
    TimelineView {
        ts_ns: now,
        kind: TimelineKind::SessionEnd,
        agent: None,
        app: None,
        payload: JsonView::Object(
            seq![
                ("by_session"@, JsonView::Text(changed_by)),
                ("edge"@, JsonView::Text("pause"@)),
                ("paused_until_ns"@, json_optional_int(paused_until_ns)),
                ("pid"@, json_int(pid as int)),
                ("rows_written"@, json_int(c.rows_written as int)),
                ("write_failures"@, json_int(c.write_failures as int)),
            ],
        ),
    }
}

/// The row that opens the session at a resume.
pub open spec fn resume_row(changed_by: Seq<char>, pid: u32, now: u64) -> TimelineView {
    TimelineView {
        ts_ns: now,
        kind: TimelineKind::SessionStart,
        agent: None,
        app: None,
        payload: JsonView::Object(
            seq![
                ("by_session"@, JsonView::Text(changed_by)),
                ("edge"@, JsonView::Text("resume"@)),
                ("pid"@, json_int(pid as int)),
            ],
        ),
    }
}

/// The row that opens the session at startup.
pub open spec fn startup_row(
    config: RecorderConfig,
    initial_idle_ms: u64,
    pid: u32,
    now: u64,
) -> TimelineView {
    TimelineView {
        ts_ns: now,
        kind: TimelineKind::SessionStart,
        agent: None,
        app: None,
        payload: JsonView::Object(
            seq![
                ("edge"@, JsonView::Text("startup"@)),
                ("idle_poll_interval_ms"@, json_int(config.idle_poll_interval_ms as int)),
                ("idle_timeout_ms"@, json_int(config.idle_timeout_ms as int)),
                ("initial_idle_ms"@, json_int(initial_idle_ms as int)),
                ("pid"@, json_int(pid as int)),
            ],
        ),
    }
}

impl ActivityRecorder {
    /// Begins a pause. A recorder that is paused already only stores its control state.
    pub fn pause(
        &self,
        was_paused: bool,
        paused_until_ns: Option<u64>,
        changed_by: &str,
        pid: u32,
        now_ts_ns: u64,
    ) -> (r: PauseStep)
        ensures
            if was_paused {
                r is Persist
            } else {
                r matches PauseStep::Write(row) && row@ == pause_row(
                    self.counters,
                    paused_until_ns,
                    changed_by@,
                    pid,
                    now_ts_ns,
                )
            },
    {
        if was_paused {
            return PauseStep::Persist;
        }
        let until = match paused_until_ns {
            Some(ns) => json_u64(ns),
            None => Json::Null,
        };
        let builder = ObjectBuilder::new().with("by_session", json_text(changed_by)).with(
            "edge",
            json_text("pause"),
        ).with("paused_until_ns", until).with("pid", json_u64(pid as u64)).with(
            "rows_written",
            json_u64(self.counters.rows_written),
        ).with("write_failures", json_u64(self.counters.write_failures));
        proof {
            assert(builder@ =~= pause_row(
                self.counters,
                paused_until_ns,
                changed_by@,
                pid,
                now_ts_ns,
            ).payload->Object_0);
        }
        PauseStep::Write(boundary(TimelineKind::SessionEnd, now_ts_ns, builder.build()))
    }

    /// Goes on with a resume once storing the control state was tried. A recorder that was not
    /// paused writes no boundary row.
    pub fn resume<S>(
        &self,
        was_paused: bool,
        stored: Result<S, String>,
        changed_by: &str,
        pid: u32,
        now_ts_ns: u64,
    ) -> (r: ResumeStep<S>)
        ensures
            match stored {
                Err(d) => r == ResumeStep::Done(
                    Err::<RecorderControlOutcome<S>, RecorderFailure>(RecorderFailure::Persist(d)),
                ),
                Ok(state) => if was_paused {
                    r matches ResumeStep::Write(row, kept) && row@ == resume_row(
                        changed_by@,
                        pid,
                        now_ts_ns,
                    ) && kept == state
                } else {
                    r == ResumeStep::Done(
                        Ok::<RecorderControlOutcome<S>, RecorderFailure>(
                            RecorderControlOutcome {
                                was_paused: false,
                                boundary_row_written: false,
                                state,
                            },
                        ),
                    )
                },
            },
    {
        let state = match stored {
            Ok(state) => state,
            Err(d) => {
                return ResumeStep::Done(Err(RecorderFailure::Persist(d)));
            },
        };
        if !was_paused {
            return ResumeStep::Done(
                Ok(
                    RecorderControlOutcome {
                        was_paused: false,
                        boundary_row_written: false,
                        state,
                    },
                ),
            );
        }
        let builder = ObjectBuilder::new().with("by_session", json_text(changed_by)).with(
            "edge",
            json_text("resume"),
        ).with("pid", json_u64(pid as u64));
        proof {
            assert(builder@ =~= resume_row(changed_by@, pid, now_ts_ns).payload->Object_0);
        }
        ResumeStep::Write(
            boundary(TimelineKind::SessionStart, now_ts_ns, builder.build()),
            state,
        )
    }
}

/// Goes on with a pause once writing the boundary row was tried.
pub fn pause_written(written: Result<(), String>) -> (r: PauseStep)
    ensures
        match written {
            Ok(_) => r is Flush,
            Err(d) => r == PauseStep::Fail(RecorderFailure::PauseWrite(d)),
        },
{
    match written {
        Ok(()) => PauseStep::Flush,
        Err(d) => PauseStep::Fail(RecorderFailure::PauseWrite(d)),
    }
}

/// Goes on with a pause once flushing the boundary row was tried.
pub fn pause_flushed(flushed: Result<(), String>) -> (r: PauseStep)
    ensures
        match flushed {
            Ok(_) => r is Persist,
            Err(d) => r == PauseStep::Fail(RecorderFailure::PauseFlush(d)),
        },
{
    match flushed {
        Ok(()) => PauseStep::Persist,
        Err(d) => PauseStep::Fail(RecorderFailure::PauseFlush(d)),
    }
}

/// Ends a pause once storing the control state was tried.
pub fn pause_recording<S>(was_paused: bool, stored: Result<S, String>) -> (r: Result<
    RecorderControlOutcome<S>,
    RecorderFailure,
>)
    ensures
        match stored {
            Ok(state) => r == Ok::<RecorderControlOutcome<S>, RecorderFailure>(
                RecorderControlOutcome { was_paused, boundary_row_written: !was_paused, state },
            ),
            Err(d) => r == Err::<RecorderControlOutcome<S>, RecorderFailure>(
                RecorderFailure::Persist(d),
            ),
        },
{
    match stored {
        Ok(state) => Ok(
            RecorderControlOutcome { was_paused, boundary_row_written: !was_paused, state },
        ),
        Err(d) => Err(RecorderFailure::Persist(d)),
    }
}

/// Goes on with a resume once writing the boundary row was tried.
pub fn resume_written<S>(state: S, written: Result<(), String>) -> (r: ResumeStep<S>)
    ensures
        match written {
            Ok(_) => r == ResumeStep::Flush(state),
            Err(d) => r == ResumeStep::Done(
                Err::<RecorderControlOutcome<S>, RecorderFailure>(RecorderFailure::ResumeWrite(d)),
            ),
        },
{
    match written {
        Ok(()) => ResumeStep::Flush(state),
        Err(d) => ResumeStep::Done(Err(RecorderFailure::ResumeWrite(d))),
    }
}

/// Ends a resume once flushing the boundary row was tried.
pub fn resume_recording<S>(state: S, flushed: Result<(), String>) -> (r: Result<
    RecorderControlOutcome<S>,
    RecorderFailure,
>)
    ensures
        match flushed {
            Ok(_) => r == Ok::<RecorderControlOutcome<S>, RecorderFailure>(
                RecorderControlOutcome { was_paused: true, boundary_row_written: true, state },
            ),
            Err(d) => r == Err::<RecorderControlOutcome<S>, RecorderFailure>(
                RecorderFailure::ResumeFlush(d),
            ),
        },
{
    match flushed {
        Ok(()) => Ok(
            RecorderControlOutcome { was_paused: true, boundary_row_written: true, state },
        ),
        Err(d) => Err(RecorderFailure::ResumeFlush(d)),
    }
}

// ---------------------------------------------------------------------------------------------
// Starting up and shutting down
// ---------------------------------------------------------------------------------------------

/// What a recorder does next on its way up.
#[derive(Debug)]
pub enum SpawnStep {
    /// The persisted pause has run out: store that recording is resumed.
    PersistResume { initial_idle_ms: u64 },
    /// Ask the recording filter whether recording is paused.
    AskGate { initial_idle_ms: u64 },
    /// Write the row that opens the session.
    Write(TimelineRecord),
    /// Flush that row.
    Flush,
    /// Start the worker and the idle probe.
    Start,
    /// Refuse to start.
    Fail(RecorderFailure),
}

impl ActivityRecorder {
    /// Begins to start up: the idle source must answer, or the recorder does not start.
    pub fn spawn(probe: Result<u64, String>, auto_resume_due: bool) -> (r: SpawnStep)
        ensures
            match probe {
                Err(d) => r == SpawnStep::Fail(RecorderFailure::StartupProbe(d)),
                Ok(initial_idle_ms) => if auto_resume_due {
                    r == (SpawnStep::PersistResume { initial_idle_ms })
                } else {
                    r == (SpawnStep::AskGate { initial_idle_ms })
                },
            },
    {
        match probe {
            Err(d) => SpawnStep::Fail(RecorderFailure::StartupProbe(d)),
            Ok(initial_idle_ms) => {
                if auto_resume_due {
                    SpawnStep::PersistResume { initial_idle_ms }
                } else {
                    SpawnStep::AskGate { initial_idle_ms }
                }
            },
        }
    }

    /// Goes on once storing the resume was tried.
    pub fn spawn_resumed(initial_idle_ms: u64, stored: Result<(), String>) -> (r: SpawnStep)
        ensures
            match stored {
                Err(d) => r == SpawnStep::Fail(RecorderFailure::StartupResume(d)),
                Ok(_) => r == (SpawnStep::AskGate { initial_idle_ms }),
            },
    {
        match stored {
            Err(d) => SpawnStep::Fail(RecorderFailure::StartupResume(d)),
            Ok(()) => SpawnStep::AskGate { initial_idle_ms },
        }
    }

    /// Goes on once the recording filter has answered: a paused recorder starts without a row.
    pub fn spawn_gated(
        paused: bool,
        config: RecorderConfig,
        initial_idle_ms: u64,
        pid: u32,
        now_ts_ns: u64,
    ) -> (r: SpawnStep)
        ensures
            if paused {
                r is Start
            } else {
                r matches SpawnStep::Write(row) && row@ == startup_row(
                    config,
                    initial_idle_ms,
                    pid,
                    now_ts_ns,
                )
            },
    {
        if paused {
            return SpawnStep::Start;
        }
        let builder = ObjectBuilder::new().with("edge", json_text("startup")).with(
            "idle_poll_interval_ms",
            json_u64(config.idle_poll_interval_ms),
        ).with("idle_timeout_ms", json_u64(config.idle_timeout_ms)).with(
            "initial_idle_ms",
            json_u64(initial_idle_ms),
        ).with("pid", json_u64(pid as u64));
        proof {
            assert(builder@ =~= startup_row(
                config,
                initial_idle_ms,
                pid,
                now_ts_ns,
            ).payload->Object_0);
        }
        SpawnStep::Write(boundary(TimelineKind::SessionStart, now_ts_ns, builder.build()))
    }

    /// Goes on once writing the opening row was tried.
    pub fn spawn_written(written: Result<(), String>) -> (r: SpawnStep)
        ensures
            match written {
                Err(d) => r == SpawnStep::Fail(RecorderFailure::StartupWrite(d)),
                Ok(_) => r is Flush,
            },
    {
        match written {
            Err(d) => SpawnStep::Fail(RecorderFailure::StartupWrite(d)),
            Ok(()) => SpawnStep::Flush,
        }
    }

    /// Goes on once flushing the opening row was tried.
    pub fn spawn_flushed(flushed: Result<(), String>) -> (r: SpawnStep)
        ensures
            match flushed {
                Err(d) => r == SpawnStep::Fail(RecorderFailure::StartupFlush(d)),
                Ok(_) => r is Start,
            },
    {
        match flushed {
            Err(d) => SpawnStep::Fail(RecorderFailure::StartupFlush(d)),
            Ok(()) => SpawnStep::Start,
        }
    }
}

/// What a recorder does next on its way down.
#[derive(Clone, Copy, Debug, PartialEq, Eq, Structural)]
pub enum ShutdownStep {
    /// It was asked to shut down before.
    Nothing,
    /// Stop the idle probe and ask the worker to end the session.
    AskWorker,
    /// Wait for the worker's answer.
    AwaitWorker,
    /// The worker has ended the session: join it.
    JoinWorker,
    /// The worker is gone: end the session without it.
    EndSession(SessionEndEdge),
    /// The worker does not answer: abort it and end the session without it.
    AbortWorker(SessionEndEdge),
}

/// What a session's end that was written without the worker says of its cause.
#[derive(Clone, Copy, Debug, PartialEq, Eq, Structural)]
pub enum SessionEndEdge {
    ShutdownWorkerGone,
    ShutdownTimeout,
    Drop,
}

impl SessionEndEdge {
    pub open spec fn name(self) -> Seq<char> {
        match self {
            SessionEndEdge::ShutdownWorkerGone => "shutdown_worker_gone"@,
            SessionEndEdge::ShutdownTimeout => "shutdown_timeout"@,
            SessionEndEdge::Drop => "drop"@,
        }
    }

    /// The name of the cause in the row.
    pub fn as_str(self) -> (r: &'static str)
        ensures
            r@ == self.name(),
    {
        match self {
            SessionEndEdge::ShutdownWorkerGone => "shutdown_worker_gone",
            SessionEndEdge::ShutdownTimeout => "shutdown_timeout",
            SessionEndEdge::Drop => "drop",
        }
    }
}

impl ActivityRecorder {
    /// Begins to shut down, once.
    pub fn shutdown(&mut self) -> (r: ShutdownStep)
        ensures
            r == (if old(self).shutdown_requested {
                ShutdownStep::Nothing
            } else {
                ShutdownStep::AskWorker
            }),
            final(self)@ == (RecorderView { shutdown_requested: true, ..old(self)@ }),
    {
        if self.shutdown_requested {
            return ShutdownStep::Nothing;
        }
        self.shutdown_requested = true;
        ShutdownStep::AskWorker
    }

    /// Goes on once asking the worker was tried.
    pub fn shutdown_asked(delivered: bool) -> (r: ShutdownStep)
        ensures
            r == (if delivered {
                ShutdownStep::AwaitWorker
            } else {
                ShutdownStep::EndSession(SessionEndEdge::ShutdownWorkerGone)
            }),
    {
        if delivered {
            ShutdownStep::AwaitWorker
        } else {
            ShutdownStep::EndSession(SessionEndEdge::ShutdownWorkerGone)
        }
    }

    /// Goes on once the wait for the worker is over.
    pub fn shutdown_awaited(acknowledged: bool) -> (r: ShutdownStep)
        ensures
            r == (if acknowledged {
                ShutdownStep::JoinWorker
            } else {
                ShutdownStep::AbortWorker(SessionEndEdge::ShutdownTimeout)
            }),
    {
        if acknowledged {
            ShutdownStep::JoinWorker
        } else {
            ShutdownStep::AbortWorker(SessionEndEdge::ShutdownTimeout)
        }
    }

    /// Decides whether a recorder that is dropped still has to end its session: it has, unless a
    /// shutdown was asked for.
    pub fn dropped(&mut self) -> (r: Option<SessionEndEdge>)
        ensures
            r == (if old(self).shutdown_requested {
                None::<SessionEndEdge>
            } else {
                Some(SessionEndEdge::Drop)
            }),
            final(self)@ == (RecorderView { shutdown_requested: true, ..old(self)@ }),
    {
        if self.shutdown_requested {
            return None;
        }
        self.shutdown_requested = true;
        Some(SessionEndEdge::Drop)
    }

    /// The row of a session's end that is written without the worker, unless the recording filter
    /// holds it back: the pause of a paused recorder has ended the session already.
    pub fn write_session_end_direct(
        &mut self,
        edge: SessionEndEdge,
        gate: Option<SuppressReason>,
        pid: u32,
        now_ts_ns: u64,
    ) -> (r: Option<TimelineRecord>)
        ensures
            (final(self)@, row_view(r)) == session_ended(
                old(self)@,
                edge.name(),
                gate,
                pid,
                now_ts_ns,
            ),
    {
        self.write_session_end(edge.as_str(), gate, pid, now_ts_ns)
    }
}

// ---------------------------------------------------------------------------------------------
// Laws
// ---------------------------------------------------------------------------------------------

/// The poll interval is positive and never longer than the timeout, so that an idle phase is noticed
/// within one timeout of its beginning; beyond that it lies within its bounds.
pub proof fn law_poll_keeps_up_with_timeout(timeout_ms: u64)
    requires
        timeout_ms > 0,
    ensures
        0 < poll_interval(timeout_ms) <= timeout_ms,
        poll_interval(timeout_ms) <= MAX_IDLE_POLL_INTERVAL_MS,
        timeout_ms >= MIN_IDLE_POLL_INTERVAL_MS ==> poll_interval(timeout_ms)
            >= MIN_IDLE_POLL_INTERVAL_MS,
{
}

/// A gate that says that the recorder is paused holds back every row, whatever is shown.
pub proof fn law_paused_recorder_writes_nothing(
    before: RecorderView,
    next: SnapshotView,
    source: Seq<char>,
    idle_ms: u64,
    now: u64,
    agent: Option<Seq<char>>,
    edge: Seq<char>,
    pid: u32,
)
    ensures
        session_ended(before, edge, Some(SuppressReason::Paused), pid, now).1 is None,
        applied(before, next, source, Some(SuppressReason::Paused), now, agent).1 is None,
        retitled(before, next, Some(SuppressReason::Paused), now, agent).1 is None,
        idled(before, idle_ms, Some(SuppressReason::Paused), now).1 is None,
        applied(before, next, source, Some(SuppressReason::Paused), now, agent).0.counters
            == with_suppressed(before.counters, SuppressReason::Paused),
{
}

/// An excluded foreground writes no row and leaves the recorded foreground alone; once the exclusion
/// is lifted, the next reading is recorded as if the excluded one had not been there.
pub proof fn law_exclusion_leaves_the_baseline(
    before: RecorderView,
    excluded: SnapshotView,
    next: SnapshotView,
    source: Seq<char>,
    now: u64,
    later: u64,
    agent: Option<Seq<char>>,
)
    ensures
        ({
            let during = applied(
                before,
                excluded,
                source,
                Some(SuppressReason::ExcludedApp),
                now,
                agent,
            );
            &&& during.1 is None
            &&& during.0.foreground == before.foreground
            &&& applied(during.0, next, source, None, later, agent).1 == applied(
                before,
                next,
                source,
                None,
                later,
                agent,
            ).1
        }),
{
}

/// The same foreground shown twice is recorded once.
pub proof fn law_same_foreground_is_recorded_once(
    before: RecorderView,
    next: SnapshotView,
    source: Seq<char>,
    again: Seq<char>,
    now: u64,
    later: u64,
    agent: Option<Seq<char>>,
)
    ensures
        ({
            let first = applied(before, next, source, None, now, agent);
            let second = applied(first.0, next, again, None, later, agent);
            &&& second.1 is None
            &&& second.0 == first.0
        }),
{
}

/// The first foreground after an event during a pause is always recorded as a switch.
pub proof fn law_first_foreground_after_pause_is_recorded(
    before: RecorderView,
    next: SnapshotView,
    source: Seq<char>,
    now: u64,
    agent: Option<Seq<char>>,
)
    ensures
        applied(blinded(before), next, source, None, now, agent).1 == Some(
            focus_row(next, source, now, agent),
        ),
{
}

/// Idle edges alternate: a start is never followed by a start, nor an end by an end, and a reading
/// on the same side of the timeout makes no edge.
pub proof fn law_idle_edges_alternate(
    before: RecorderView,
    first_ms: u64,
    second_ms: u64,
    gate: Option<SuppressReason>,
    now: u64,
)
    ensures
        ({
            let timeout = before.config.idle_timeout_ms;
            let mid = idled(before, first_ms, gate, now).0;
            let first = idle_edge(before.idle, first_ms, timeout);
            let second = idle_edge(mid.idle, second_ms, timeout);
            &&& mid.config == before.config
            &&& first is Some && second is Some ==> first != second
            &&& (first_ms >= timeout) == (second_ms >= timeout) ==> second is None
        }),
{
}

/// Idle rows are dated back to the last input, never into the future.
pub proof fn law_idle_rows_are_dated_back(now: u64, idle_ms: u64)
    ensures
        last_input_ns(now, idle_ms) <= now,
        idle_ms * 1_000_000 <= now ==> last_input_ns(now, idle_ms) == now - idle_ms * 1_000_000,
{
}

/// Rows are attributed to the session that holds the lease, and to the human where none holds it or
/// the operator's does.
pub proof fn law_operator_is_human(status: LeaseStatus, operator_session: Seq<char>)
    ensures
        status.held && (status.owner_session_id matches Some(owner) && owner@ != operator_session)
            ==> driving_agent(status, operator_session) == Some(status.owner_session_id->Some_0@),
        !status.held ==> driving_agent(status, operator_session) is None,
        status.owner_session_id matches Some(owner) && owner@ == operator_session ==> driving_agent(
            status,
            operator_session,
        ) is None,
{
}

/// Without a setting a user is idle after three minutes. A setting is a positive whole number of
/// milliseconds; anything else is refused, zero for itself. The recorder looks four times within the
/// timeout, but at least 250 milliseconds and at most five seconds apart, and never more seldom than
/// the timeout.
pub proof fn law_idle_settings_are_read(
    raw: Option<&str>,
    r: Result<RecorderConfig, RecorderConfigError>,
)
    requires
        call_ensures(RecorderConfig::from_raw, (raw,), r),
    ensures
        raw is None ==> r is Ok && (r->Ok_0).idle_timeout_ms == 180_000,
        raw is Some ==> {
            let parsed = parsed_unsigned(trimmed(raw->Some_0@), u64::MAX as nat);
            &&& (r is Ok <==> parsed is Some && parsed->Some_0 > 0)
            &&& (r is Ok ==> (r->Ok_0).idle_timeout_ms == parsed->Some_0)
            &&& (parsed is None ==> r->Err_0 is NotAnInteger && (r->Err_0)->value@ == raw->Some_0@)
            &&& (parsed == Some(0nat) ==> r->Err_0 is Zero)
        },
        r is Ok ==> {
            let timeout = (r->Ok_0).idle_timeout_ms;
            let every = (r->Ok_0).idle_poll_interval_ms;
            &&& every <= timeout
            &&& (1_000 <= timeout <= 20_000 ==> 4
                * every <= timeout < 4 * every + 4)
            &&& (timeout > 20_000 ==> every == 5_000)
            &&& (250 <= timeout < 1_000 ==> every
                == 250)
            &&& (timeout < 250 ==> every == timeout)
        },
{
}

/// A window is the same by its handle and its process; with another title it has changed its title, and
/// any other window is a switch.
pub proof fn law_windows_are_the_same_by_handle_and_process(
    prev: Option<&ForegroundSnapshot>,
    next: &ForegroundSnapshot,
    r: ForegroundTransition,
)
    requires
        call_ensures(classify_foreground_transition, (prev, next), r),
    ensures
        r is Switched <==> prev is None || prev->Some_0.hwnd != next.hwnd || prev->Some_0.pid
            != next.pid,
        r is Duplicate <==> prev is Some && prev->Some_0.hwnd == next.hwnd && prev->Some_0.pid
            == next.pid && prev->Some_0.title@ == next.title@,
{
}

/// A user becomes idle once the timeout has passed without input, and is no longer idle as soon as there
/// was input within it.
pub proof fn law_users_are_idle_after_the_timeout(
    currently_idle: bool,
    idle_ms: u64,
    timeout_ms: u64,
    r: Option<IdleEdge>,
)
    requires
        call_ensures(idle_transition, (currently_idle, idle_ms, timeout_ms), r),
    ensures
        !currently_idle ==> (r == Some(IdleEdge::Start) <==> idle_ms >= timeout_ms) && r != Some(
            IdleEdge::End,
        ),
        currently_idle ==> (r == Some(IdleEdge::End) <==> idle_ms < timeout_ms) && r != Some(
            IdleEdge::Start,
        ),
{
}

/// An agent acts while its session holds the lease; the operator's own session is human, as is anyone
/// without a lease.
pub proof fn law_leases_tell_who_acts(
    status: &LeaseStatus,
    operator_session: &str,
    r: TimelineActor,
)
    requires
        call_ensures(current_actor, (status, operator_session), r),
    ensures
        agent_of(r) is Some <==> status.held && status.owner_session_id is Some
            && status.owner_session_id->Some_0@ != operator_session@,
        agent_of(r) is Some ==> agent_of(r)->Some_0 == status.owner_session_id->Some_0@,
{
}

/// A window in front that is not held back becomes the last one that was recorded, and is written where
/// it is another than before: with its title alone where only that changed, and with all of it where
/// the window did. What is held back is counted and leaves everything else as it was.
pub proof fn law_foregrounds_are_recorded(
    recorder: &mut ActivityRecorder,
    reading: &ForegroundReading,
    source: &str,
    gate: Option<SuppressReason>,
    stamp: RowStamp,
    r: Option<TimelineRecord>,
)
    requires
        call_ensures(
            ActivityRecorder::apply_foreground,
            (recorder, reading, source, gate, stamp),
            r,
        ),
    ensures
        final(recorder).config == old(recorder).config,
        final(recorder).idle == old(recorder).idle,
        final(recorder).shutdown_requested == old(recorder).shutdown_requested,
        gate is Some ==> r is None && snapshot_view(final(recorder).foreground) == snapshot_view(
            old(recorder).foreground,
        ),
        gate is None ==> {
            let before = old(recorder).foreground;
            let switched = before is None || before->Some_0.hwnd != reading.hwnd
                || before->Some_0.pid != reading.pid;
            &&& final(recorder).counters == old(recorder).counters
            &&& final(recorder).foreground is Some
            &&& final(recorder).foreground->Some_0.hwnd == reading.hwnd
            &&& final(recorder).foreground->Some_0.pid == reading.pid
            &&& final(recorder).foreground->Some_0.title@ == reading.window_title@
            &&& final(recorder).foreground->Some_0.process_name@ == reading.process_name@
            &&& final(recorder).foreground->Some_0.process_path@ == reading.process_path@
            &&& (r is None <==> !switched && before->Some_0.title@ == reading.window_title@)
            &&& (r is Some ==> {
                let row = r->Some_0@;
                let data = row.payload->Object_0;
                &&& row.ts_ns == stamp.now_ts_ns
                &&& row.agent == agent_of(stamp.actor)
                &&& row.app == Some(reading.process_name@)
                &&& (row.kind is FocusChange <==> switched)
                &&& (row.kind is TitleChange <==> !switched)
                &&& row.payload is Object
                &&& (switched ==> data.len() == 5 && data[0] == ("hwnd"@, json_int(
                    reading.hwnd as int,
                )) && data[1] == ("pid"@, json_int(reading.pid as int)) && data[2] == (
                    "process_path"@,
                    JsonView::Text(reading.process_path@),
                ) && data[3] == ("source"@, JsonView::Text(source@)) && data[4] == (
                    "title"@,
                    JsonView::Text(reading.window_title@),
                ))
                &&& (!switched ==> data.len() == 4 && data[0] == ("hwnd"@, json_int(
                    reading.hwnd as int,
                )) && data[1] == ("pid"@, json_int(reading.pid as int)) && data[2] == (
                    "previous_title"@,
                    JsonView::Text(before->Some_0.title@),
                ) && data[3] == ("title"@, JsonView::Text(reading.window_title@)))
            })
        },
{
    assert(final(recorder)@.config == final(recorder).config);
    assert(final(recorder)@.counters == final(recorder).counters);
}

/// What is held back is counted by its reason, and nothing else is counted by it.
pub proof fn law_held_back_rows_are_counted(
    recorder: &mut ActivityRecorder,
    gate: Option<SuppressReason>,
    r: bool,
)
    requires
        call_ensures(ActivityRecorder::suppressed, (recorder, gate), r),
        old(recorder).counters.rows_suppressed_paused < u64::MAX,
        old(recorder).counters.rows_suppressed_excluded < u64::MAX,
    ensures
        r <==> gate is Some,
        gate is None ==> final(recorder).counters == old(recorder).counters,
        gate == Some(SuppressReason::Paused) ==> final(recorder).counters.rows_suppressed_paused
            == old(recorder).counters.rows_suppressed_paused + 1 && final(recorder).counters.rows_suppressed_excluded == old(recorder).counters.rows_suppressed_excluded,
        gate == Some(SuppressReason::ExcludedApp) ==> final(recorder).counters.rows_suppressed_excluded == old(recorder).counters.rows_suppressed_excluded + 1
            && final(recorder).counters.rows_suppressed_paused == old(recorder).counters.rows_suppressed_paused,
        final(recorder).counters.rows_written == old(recorder).counters.rows_written,
        final(recorder).counters.write_failures == old(recorder).counters.write_failures,
{
    assert(final(recorder)@.counters == final(recorder).counters);
}

/// A row that was written is counted as written, and one that was not as a failure; both can be read
/// back, as can what was held back.
pub proof fn law_writes_are_counted(
    recorder: &mut ActivityRecorder,
    succeeded: bool,
    written: (u64, u64),
    held_back: (u64, u64),
)
    requires
        call_ensures(ActivityRecorder::note_write, (recorder, succeeded), ()),
        old(recorder).counters.rows_written < u64::MAX,
        old(recorder).counters.write_failures < u64::MAX,
        call_ensures(ActivityRecorder::readback, (&*final(recorder),), written),
        call_ensures(ActivityRecorder::suppressed_counters, (&*final(recorder),), held_back),
    ensures
        succeeded ==> written.0 == old(recorder).counters.rows_written + 1 && written.1 == old(recorder).counters.write_failures,
        !succeeded ==> written.0 == old(recorder).counters.rows_written && written.1 == old(recorder).counters.write_failures + 1,
        held_back.0 == old(recorder).counters.rows_suppressed_paused,
        held_back.1 == old(recorder).counters.rows_suppressed_excluded,
        snapshot_view(final(recorder).foreground) == snapshot_view(old(recorder).foreground),
        final(recorder).idle == old(recorder).idle,
{
    assert(final(recorder)@.counters == final(recorder).counters);
    assert(final(recorder)@.foreground == snapshot_view(final(recorder).foreground));
}

/// A new title is recorded of the window that was last recorded, and only if it is another; it is then
/// known even where the row was held back.
pub proof fn law_title_changes_are_recorded(
    recorder: &mut ActivityRecorder,
    reading: Option<&ForegroundReading>,
    gate: Option<SuppressReason>,
    stamp: RowStamp,
    r: Option<TimelineRecord>,
)
    requires
        call_ensures(
            ActivityRecorder::handle_name_change,
            (recorder, reading, gate, stamp),
            r,
        ),
    ensures
        r is Some <==> reading is Some && old(recorder).foreground is Some
            && reading->Some_0.window_title@ != old(recorder).foreground->Some_0.title@ && gate
            is None,
        r is Some ==> {
            let row = r->Some_0@;
            &&& row.kind is TitleChange
            &&& row.ts_ns == stamp.now_ts_ns
            &&& row.agent == agent_of(stamp.actor)
            &&& row.app == Some(reading->Some_0.process_name@)
            &&& row.payload is Object && row.payload->Object_0.len() == 4
            &&& row.payload->Object_0[2] == (
                "previous_title"@,
                JsonView::Text(old(recorder).foreground->Some_0.title@),
            )
            &&& row.payload->Object_0[3] == (
                "title"@,
                JsonView::Text(reading->Some_0.window_title@),
            )
        },
        reading is Some && old(recorder).foreground is Some && reading->Some_0.window_title@ != old(recorder).foreground->Some_0.title@ ==> final(recorder).foreground is Some && final(recorder).foreground->Some_0.title@ == reading->Some_0.window_title@,
        reading is None || old(recorder).foreground is None ==> final(recorder)@ == old(recorder)@,
{
}

/// A change between idle and not is recorded at the time of the last input, and what is idle follows it
/// even where the row was held back; without a change nothing is.
pub proof fn law_idle_changes_are_recorded(
    recorder: &mut ActivityRecorder,
    idle_ms: u64,
    gate: Option<SuppressReason>,
    now_ts_ns: u64,
    r: Option<TimelineRecord>,
)
    requires
        call_ensures(
            ActivityRecorder::handle_idle_probe,
            (recorder, idle_ms, gate, now_ts_ns),
            r,
        ),
    ensures
        final(recorder).idle <==> idle_ms >= old(recorder).config.idle_timeout_ms,
        r is Some <==> final(recorder).idle != old(recorder).idle && gate is None,
        r is Some ==> {
            let row = r->Some_0@;
            &&& (row.kind is IdleStart <==> final(recorder).idle)
            &&& (row.kind is IdleEnd <==> !final(recorder).idle)
            &&& row.agent is None && row.app is None
            &&& (idle_ms * 1_000_000 <= now_ts_ns ==> row.ts_ns == now_ts_ns - idle_ms * 1_000_000)
            &&& (idle_ms * 1_000_000 > now_ts_ns ==> row.ts_ns == 0)
            &&& row.payload is Object
            &&& row.payload->Object_0[0] == ("idle_ms_at_detection"@, json_int(idle_ms as int))
            &&& (final(recorder).idle ==> row.payload->Object_0.len() == 2
                && row.payload->Object_0[1] == (
                "idle_timeout_ms"@,
                json_int(old(recorder).config.idle_timeout_ms as int),
            ))
        },
        snapshot_view(final(recorder).foreground) == snapshot_view(old(recorder).foreground),
        final(recorder).config == old(recorder).config,
{
    assert(final(recorder)@.idle == final(recorder).idle);
    assert(final(recorder)@.config == final(recorder).config);
    assert(final(recorder)@.foreground == snapshot_view(final(recorder).foreground));
}

/// Of a window's events the change of the window in front is followed up, and a new name where it is of
/// the window that was last recorded. While the recorder is paused nothing is, and what was recorded
/// is forgotten.
pub proof fn law_window_events_are_followed_up(
    recorder: &mut ActivityRecorder,
    kind: WindowEventKind,
    window_id: i64,
    paused: bool,
    r: AccessibleStep,
    records: bool,
)
    requires
        call_ensures(
            ActivityRecorder::handle_accessible,
            (recorder, kind, window_id, paused),
            r,
        ),
        call_ensures(ActivityRecorder::records_event, (kind,), records),
    ensures
        records <==> kind is ForegroundChanged || kind is NameChanged,
        paused ==> r is Nothing && final(recorder).foreground is None,
        !paused ==> final(recorder)@ == old(recorder)@,
        !paused && kind is ForegroundChanged ==> r == AccessibleStep::ResolveForeground(window_id),
        !paused && kind is NameChanged && old(recorder).foreground is Some && old(recorder).foreground->Some_0.hwnd == window_id ==> r == AccessibleStep::ReadTitle(window_id),
        !paused && kind is NameChanged && (old(recorder).foreground is None || old(recorder).foreground->Some_0.hwnd != window_id) ==> r is Nothing,
        kind is Other ==> r is Nothing,
{
    assert(final(recorder)@.foreground == snapshot_view(final(recorder).foreground));
}

/// A probe goes on where the recorder is not paused, resumes where the pause has run out, and otherwise
/// stops; a paused recorder forgets what was in front.
pub proof fn law_probes_stop_while_paused(
    recorder: &mut ActivityRecorder,
    paused: bool,
    auto_resume_due: bool,
    r: IdleProbeStep,
)
    requires
        call_ensures(
            ActivityRecorder::begin_idle_probe,
            (recorder, paused, auto_resume_due),
            r,
        ),
    ensures
        r is Reconcile <==> !paused,
        r is Resume <==> paused && auto_resume_due,
        r is Stop <==> paused && !auto_resume_due,
        paused ==> final(recorder).foreground is None,
        !paused ==> final(recorder)@ == old(recorder)@,
{
    assert(final(recorder)@.foreground == snapshot_view(final(recorder).foreground));
}

/// A polled window is recorded as any window in front is, where it can be seen; and not otherwise.
pub proof fn law_polled_windows_are_recorded(
    polled: &mut ActivityRecorder,
    applied_to: &mut ActivityRecorder,
    current: &ForegroundReading,
    visible: Option<bool>,
    gate: Option<SuppressReason>,
    stamp: RowStamp,
    source: &str,
    r: Option<TimelineRecord>,
    direct: Option<TimelineRecord>,
)
    requires
        call_ensures(
            ActivityRecorder::reconcile_foreground,
            (polled, Some(current), visible, gate, stamp),
            r,
        ),
        source@ == "poll"@,
        *old(applied_to) == *old(polled),
        call_ensures(
            ActivityRecorder::apply_foreground,
            (applied_to, current, source, gate, stamp),
            direct,
        ),
    ensures
        visible == Some(true) ==> row_view(r) == row_view(direct) && final(polled)@ == final(applied_to)@,
        visible != Some(true) ==> r is None && final(polled)@ == old(polled)@,
{
}

/// The window of an event is taken where it can be seen, or else the window in front where that can be.
pub proof fn law_seen_windows_are_taken(readings: TriggerReadings, r: Option<ForegroundReading>)
    requires
        call_ensures(resolve_foreground_trigger, (readings,), r),
    ensures
        readings.event_visible == Some(true) && readings.event_window is Some ==> r
            == readings.event_window,
        (readings.event_visible != Some(true) || readings.event_window is None)
            && readings.current_visible == Some(true) ==> r == readings.current,
        (readings.event_visible != Some(true) || readings.event_window is None)
            && readings.current_visible != Some(true) ==> r is None,
{
}

/// The end of a session is written with the counts as they stand, unless it is held back.
pub proof fn law_session_ends_are_recorded(
    recorder: &mut ActivityRecorder,
    edge: &str,
    gate: Option<SuppressReason>,
    pid: u32,
    now_ts_ns: u64,
    r: Option<TimelineRecord>,
)
    requires
        call_ensures(
            ActivityRecorder::write_session_end,
            (recorder, edge, gate, pid, now_ts_ns),
            r,
        ),
    ensures
        r is Some <==> gate is None,
        r is Some ==> {
            let row = r->Some_0@;
            let data = row.payload->Object_0;
            &&& row.kind is SessionEnd
            &&& row.ts_ns == now_ts_ns
            &&& row.agent is None && row.app is None
            &&& row.payload is Object && data.len() == 4
            &&& data[0] == ("edge"@, JsonView::Text(edge@))
            &&& data[1] == ("pid"@, json_int(pid as int))
            &&& data[2] == (
                "rows_written"@,
                json_int(old(recorder).counters.rows_written as int),
            )
            &&& data[3] == (
                "write_failures"@,
                json_int(old(recorder).counters.write_failures as int),
            )
        },
{
}

/// A pause that is new is first written, with who asked for it and until when, then flushed, then
/// stored; one that was on is only stored. It fails, and recording goes on, where one of these does.
pub proof fn law_pauses_are_written_before_they_are_stored<S>(
    recorder: &ActivityRecorder,
    was_paused: bool,
    paused_until_ns: Option<u64>,
    changed_by: &str,
    pid: u32,
    now_ts_ns: u64,
    written: Result<(), String>,
    flushed: Result<(), String>,
    stored: Result<S, String>,
    first: PauseStep,
    second: PauseStep,
    third: PauseStep,
    r: Result<RecorderControlOutcome<S>, RecorderFailure>,
)
    requires
        call_ensures(
            ActivityRecorder::pause,
            (recorder, was_paused, paused_until_ns, changed_by, pid, now_ts_ns),
            first,
        ),
        call_ensures(pause_written, (written,), second),
        call_ensures(pause_flushed, (flushed,), third),
        call_ensures(pause_recording::<S>, (was_paused, stored), r),
    ensures
        was_paused ==> first is Persist,
        !was_paused ==> first is Write,
        first is Write ==> {
            let row = first->Write_0@;
            let data = row.payload->Object_0;
            &&& row.kind is SessionEnd && row.ts_ns == now_ts_ns
            &&& row.agent is None && row.app is None
            &&& row.payload is Object && data.len() == 6
            &&& data[0] == ("by_session"@, JsonView::Text(changed_by@))
            &&& data[1] == ("edge"@, JsonView::Text("pause"@))
            &&& data[2].0 == "paused_until_ns"@
            &&& (paused_until_ns is Some ==> data[2].1 == json_int(
                paused_until_ns->Some_0 as int,
            ))
            &&& (paused_until_ns is None ==> data[2].1 is Null)
            &&& data[3] == ("pid"@, json_int(pid as int))
            &&& data[4] == ("rows_written"@, json_int(recorder.counters.rows_written as int))
            &&& data[5] == ("write_failures"@, json_int(recorder.counters.write_failures as int))
        },
        written is Ok ==> second is Flush,
        written is Err ==> second == PauseStep::Fail(RecorderFailure::PauseWrite(written->Err_0)),
        flushed is Ok ==> third is Persist,
        flushed is Err ==> third == PauseStep::Fail(RecorderFailure::PauseFlush(flushed->Err_0)),
        r is Ok <==> stored is Ok,
        stored is Err ==> r->Err_0 == RecorderFailure::Persist(stored->Err_0),
        r is Ok ==> (r->Ok_0).was_paused == was_paused && (r->Ok_0).boundary_row_written
            == !was_paused && (r->Ok_0).state == stored->Ok_0,
{
}

/// A resumption is stored first, then written, with who asked for it, then flushed; where nothing was
/// paused it is over once it is stored.
pub proof fn law_resumptions_are_stored_before_they_are_written<S>(
    recorder: &ActivityRecorder,
    was_paused: bool,
    stored: Result<S, String>,
    changed_by: &str,
    pid: u32,
    now_ts_ns: u64,
    state: S,
    written: Result<(), String>,
    flushed: Result<(), String>,
    first: ResumeStep<S>,
    second: ResumeStep<S>,
    r: Result<RecorderControlOutcome<S>, RecorderFailure>,
)
    requires
        call_ensures(
            ActivityRecorder::resume::<S>,
            (recorder, was_paused, stored, changed_by, pid, now_ts_ns),
            first,
        ),
        call_ensures(resume_written::<S>, (state, written), second),
        call_ensures(resume_recording::<S>, (state, flushed), r),
    ensures
        first is Write <==> stored is Ok && was_paused,
        stored is Err ==> first is Done && first->Done_0 is Err && first->Done_0->Err_0
            == RecorderFailure::Persist(stored->Err_0),
        stored is Ok && !was_paused ==> first is Done && first->Done_0 is Ok
            && !first->Done_0->Ok_0.was_paused && !first->Done_0->Ok_0.boundary_row_written
            && first->Done_0->Ok_0.state == stored->Ok_0,
        first is Write ==> {
            let row = first->Write_0@;
            let data = row.payload->Object_0;
            &&& first->Write_1 == stored->Ok_0
            &&& row.kind is SessionStart && row.ts_ns == now_ts_ns
            &&& row.agent is None && row.app is None
            &&& row.payload is Object && data.len() == 3
            &&& data[0] == ("by_session"@, JsonView::Text(changed_by@))
            &&& data[1] == ("edge"@, JsonView::Text("resume"@))
            &&& data[2] == ("pid"@, json_int(pid as int))
        },
        written is Ok ==> second == ResumeStep::Flush(state),
        written is Err ==> second is Done && second->Done_0 is Err && second->Done_0->Err_0
            == RecorderFailure::ResumeWrite(written->Err_0),
        r is Ok <==> flushed is Ok,
        r is Ok ==> (r->Ok_0).was_paused && (r->Ok_0).boundary_row_written && (r->Ok_0).state
            == state,
        flushed is Err ==> r->Err_0 == RecorderFailure::ResumeFlush(flushed->Err_0),
{
}

/// A recorder starts once the idle source can be read: where a pause has run out it stores that first,
/// and unless it is paused it first writes and flushes a row with its settings. It refuses to start
/// where one of these fails.
pub proof fn law_recorders_start_step_by_step(
    probe: Result<u64, String>,
    auto_resume_due: bool,
    initial_idle_ms: u64,
    done: Result<(), String>,
    paused: bool,
    config: RecorderConfig,
    pid: u32,
    now_ts_ns: u64,
    first: SpawnStep,
    resumed: SpawnStep,
    allowed: SpawnStep,
    written: SpawnStep,
    flushed: SpawnStep,
)
    requires
        call_ensures(ActivityRecorder::spawn, (probe, auto_resume_due), first),
        call_ensures(ActivityRecorder::spawn_resumed, (initial_idle_ms, done), resumed),
        call_ensures(
            ActivityRecorder::spawn_gated,
            (paused, config, initial_idle_ms, pid, now_ts_ns),
            allowed,
        ),
        call_ensures(ActivityRecorder::spawn_written, (done,), written),
        call_ensures(ActivityRecorder::spawn_flushed, (done,), flushed),
    ensures
        probe is Err ==> first == SpawnStep::Fail(RecorderFailure::StartupProbe(probe->Err_0)),
        probe is Ok && auto_resume_due ==> first is PersistResume
            && first->PersistResume_initial_idle_ms == probe->Ok_0,
        probe is Ok && !auto_resume_due ==> first is AskGate && first->AskGate_initial_idle_ms
            == probe->Ok_0,
        done is Ok ==> resumed is AskGate && resumed->AskGate_initial_idle_ms == initial_idle_ms
            && written is Flush && flushed is Start,
        done is Err ==> resumed == SpawnStep::Fail(RecorderFailure::StartupResume(done->Err_0))
            && written == SpawnStep::Fail(RecorderFailure::StartupWrite(done->Err_0)) && flushed
            == SpawnStep::Fail(RecorderFailure::StartupFlush(done->Err_0)),
        paused ==> allowed is Start,
        !paused ==> allowed is Write,
        allowed is Write ==> {
            let row = allowed->Write_0@;
            let data = row.payload->Object_0;
            &&& row.kind is SessionStart && row.ts_ns == now_ts_ns
            &&& row.agent is None && row.app is None
            &&& row.payload is Object && data.len() == 5
            &&& data[0] == ("edge"@, JsonView::Text("startup"@))
            &&& data[1] == (
                "idle_poll_interval_ms"@,
                json_int(config.idle_poll_interval_ms as int),
            )
            &&& data[2] == ("idle_timeout_ms"@, json_int(config.idle_timeout_ms as int))
            &&& data[3] == ("initial_idle_ms"@, json_int(initial_idle_ms as int))
            &&& data[4] == ("pid"@, json_int(pid as int))
        },
{
}

/// A recorder shuts down once: its worker is asked, and where it cannot be asked or does not answer in
/// time the session is ended in its place. A recorder that is dropped without that ends its session
/// too, and a second shutdown does nothing.
pub proof fn law_recorders_shut_down_once(
    recorder: &mut ActivityRecorder,
    lost: &mut ActivityRecorder,
    delivered: bool,
    acknowledged: bool,
    first: ShutdownStep,
    asked: ShutdownStep,
    awaited: ShutdownStep,
    dropped: Option<SessionEndEdge>,
)
    requires
        call_ensures(ActivityRecorder::shutdown, (recorder,), first),
        call_ensures(ActivityRecorder::shutdown_asked, (delivered,), asked),
        call_ensures(ActivityRecorder::shutdown_awaited, (acknowledged,), awaited),
        call_ensures(ActivityRecorder::dropped, (lost,), dropped),
    ensures
        old(recorder).shutdown_requested ==> first is Nothing,
        !old(recorder).shutdown_requested ==> first is AskWorker,
        final(recorder).shutdown_requested,
        delivered ==> asked is AwaitWorker,
        !delivered ==> asked == ShutdownStep::EndSession(SessionEndEdge::ShutdownWorkerGone),
        acknowledged ==> awaited is JoinWorker,
        !acknowledged ==> awaited == ShutdownStep::AbortWorker(SessionEndEdge::ShutdownTimeout),
        old(lost).shutdown_requested ==> dropped is None,
        !old(lost).shutdown_requested ==> dropped == Some(SessionEndEdge::Drop),
        final(lost).shutdown_requested,
{
    assert(final(recorder)@.shutdown_requested == final(recorder).shutdown_requested);
    assert(final(lost)@.shutdown_requested == final(lost).shutdown_requested);
}

/// A session that is ended in the worker's place is ended as any is, under the name of what ended it.
pub proof fn law_sessions_ended_directly_are_named(
    recorder: &mut ActivityRecorder,
    edge: SessionEndEdge,
    gate: Option<SuppressReason>,
    pid: u32,
    now_ts_ns: u64,
    r: Option<TimelineRecord>,
)
    requires
        call_ensures(
            ActivityRecorder::write_session_end_direct,
            (recorder, edge, gate, pid, now_ts_ns),
            r,
        ),
    ensures
        r is Some <==> gate is None,
        r is Some ==> {
            let row = r->Some_0@;
            &&& row.kind is SessionEnd && row.ts_ns == now_ts_ns
            &&& row.payload is Object && row.payload->Object_0.len() == 4
            &&& row.payload->Object_0[0].0 == "edge"@
            &&& row.payload->Object_0[0].1 == JsonView::Text(
                match edge {
                    SessionEndEdge::ShutdownWorkerGone => "shutdown_worker_gone"@,
                    SessionEndEdge::ShutdownTimeout => "shutdown_timeout"@,
                    SessionEndEdge::Drop => "drop"@,
                },
            )
            &&& row.payload->Object_0[1] == ("pid"@, json_int(pid as int))
            &&& row.payload->Object_0[2] == (
                "rows_written"@,
                json_int(old(recorder).counters.rows_written as int),
            )
        },
{
}

/// A recorder begins with nothing counted, nothing in front and no one idle. That its sink is closed is
/// said once.
pub proof fn law_recorders_begin_afresh(
    config: RecorderConfig,
    fresh: ActivityRecorder,
    recorder: &mut ActivityRecorder,
    delivered: bool,
    says: bool,
)
    requires
        call_ensures(ActivityRecorder::new, (config,), fresh),
        call_ensures(ActivityRecorder::record_accessible_event, (recorder, delivered), says),
    ensures
        fresh.config == config,
        fresh.counters.rows_written == 0 && fresh.counters.write_failures == 0,
        fresh.counters.rows_suppressed_paused == 0 && fresh.counters.rows_suppressed_excluded == 0,
        fresh.foreground is None && !fresh.idle && !fresh.shutdown_requested,
        says <==> !delivered && !old(recorder).sink_closed_logged,
        says ==> final(recorder).sink_closed_logged,
        delivered ==> final(recorder)@ == old(recorder)@,
{
    assert(fresh@.config == fresh.config);
    assert(fresh@.counters == fresh.counters);
    assert(fresh@.foreground == snapshot_view(fresh.foreground));
    assert(final(recorder)@.sink_closed_logged == final(recorder).sink_closed_logged);
}

/// A setting is taken as its text is, and one that is no text is refused as no number.
pub proof fn law_idle_settings_are_taken_as_text(
    setting: &IdleTimeoutSetting,
    raw: Option<&str>,
    direct: Result<RecorderConfig, RecorderConfigError>,
    r: Result<RecorderConfig, RecorderConfigError>,
)
    requires
        call_ensures(RecorderConfig::from_setting, (setting,), r),
        call_ensures(RecorderConfig::from_raw, (raw,), direct),
        *setting is NotPresent ==> raw is None,
        *setting matches IdleTimeoutSetting::Value(text) ==> raw is Some && raw->Some_0@ == text@,
    ensures
        *setting is NotPresent || *setting is Value ==> (r is Ok <==> direct is Ok),
        (*setting is NotPresent || *setting is Value) && r is Ok ==> r->Ok_0 == direct->Ok_0,
        *setting is NotUnicode ==> r is Err && r->Err_0 is NotAnInteger,
{
}

} // verus!
