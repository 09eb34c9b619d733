//! Suggestion engine.
//!
//! Decides whether a routine that the operator appears to be executing is surfaced as a
//! suggestion, and when it is not. The gates, in the order in which they are asked:
//!
//! 1. disabled and archived routines never surface
//! 2. confidence threshold
//! 3. feedback suppression
//! 4. quiet hours
//! 5. at most one live suggestion per routine
//! 6. spacing between suggestions for the same routine
//! 7. a cap on the suggestions of a rolling window
//!
//! A live suggestion ends by timing out or by its routine leaving the set of live intents. Both
//! endings are fed back to the routine. Storage is read before and written after these functions
//! run: they take the rows that were read and return the writes to perform, in order.

use vstd::prelude::*;

use crate::clock::{clock_secs, local_hour_minute, minute_of_day};
use crate::error::{mcp_error, ErrorView, ToolError, STORAGE_CORRUPTED, STORAGE_READ_FAILED,
    STORAGE_WRITE_FAILED};
use crate::ieee::Real64;
use crate::keys::StoredRow;
use crate::m3::intent::{ask_for_every_candidate, every_candidate, IntentCurrentParams};
use crate::m3::permissions::{read_and_write, read_only, Permission, RequiredPermissions};
use crate::m3::routine_index::{RoutineSet, RoutineTimes};
use crate::m3::routines::{count32, is_retired, retired, to_count32, IntentCandidate,
    IntentCandidateView, RoutineFeedbackOutcome, RoutineLifecycle};
use crate::order::{descending_order, ints, is_descending_order, positions};
use crate::numerals::{padded_text, parse_unsigned, parsed_unsigned, zero_padded};
use crate::text::{cat2, cat3, cat4, clone_optional, from_utf8_lossy, optional_text_equal,
    optional_view, text_equal, utf8_lossy, views};

verus! {

/// Key prefix of suggestion rows.
pub const SUGGESTION_PREFIX: &'static str = "suggestion/v1/";

/// Schema version of a [`SuggestionRecord`].
pub const SUGGESTION_RECORD_VERSION: u32 = 1;

/// The actor recorded on the feedback that the engine generates.
pub const SUGGESTION_ACTOR: &'static str = "suggestion-engine";

/// Minutes in a day.
pub const MINUTES_PER_DAY: u32 = 1440;

/// The bits of the default confidence threshold, 0.6.
pub const DEFAULT_MIN_CONFIDENCE_BITS: u64 = 0x3fe3_3333_3333_3333;

// ---------------------------------------------------------------------------------------------
// Configuration
// ---------------------------------------------------------------------------------------------

/// Engine knobs.
#[derive(Clone, Copy, Debug, PartialEq, Eq)]
pub struct SuggestionConfig {
    /// Minimum intent confidence to surface.
    pub min_confidence: Real64,
    /// How long a live suggestion stays live before timing out.
    pub expiry_secs: u64,
    /// Maximum suggestions created per rolling global window.
    pub global_max: u32,
    /// The global rolling window.
    pub global_window_secs: u64,
    /// Minimum spacing between suggestions for the same routine.
    pub per_routine_window_secs: u64,
    /// Quiet hours as local minutes of the day `[start, end)`, wrapping past midnight where the
    /// start is greater than the end.
    pub quiet_hours: Option<(u32, u32)>,
}

/// The settings of the engine as the environment gives them. The confidence has been read as a
/// number already.
#[derive(Debug)]
pub struct SuggestionSettings {
    pub min_confidence: Option<Real64>,
    pub expiry_secs: Option<String>,
    pub global_max: Option<String>,
    pub global_window_secs: Option<String>,
    pub per_routine_window_secs: Option<String>,
    pub quiet_start_min: Option<String>,
    pub quiet_end_min: Option<String>,
}

/// What a setting denotes: its number where it is one of at most `max`.
pub open spec fn setting_number(raw: Option<String>, max: nat) -> Option<nat> {
    match raw {
        Some(text) => parsed_unsigned(text@, max),
        None => None,
    }
}

/// A setting's number, or the default where it is absent or no number.
pub open spec fn setting_or(raw: Option<String>, max: nat, default: nat) -> nat {
    match setting_number(raw, max) {
        Some(n) => n,
        None => default,
    }
}

/// The quiet hours that two settings denote: both must be minutes of a day.
pub open spec fn quiet_hours_of(start: Option<String>, end: Option<String>) -> Option<(u32, u32)> {
    match (setting_number(start, u32::MAX as nat), setting_number(end, u32::MAX as nat)) {
        (Some(s), Some(e)) => if s < MINUTES_PER_DAY && e < MINUTES_PER_DAY {
            Some((s as u32, e as u32))
        } else {
            None
        },
        _ => None,
    }
}

fn read_setting(raw: &Option<String>, max: u64) -> (r: Option<u64>)
    ensures
        match r {
            Some(n) => setting_number(*raw, max as nat) == Some(n as nat),
            None => setting_number(*raw, max as nat) is None,
        },
{
    match raw {
        Some(text) => parse_unsigned(text.as_str(), max),
        None => None,
    }
}

fn read_setting_or(raw: &Option<String>, max: u64, default: u64) -> (r: u64)
    requires
        default <= max,
    ensures
        r == setting_or(*raw, max as nat, default as nat),
        r <= max,
{
    match read_setting(raw, max) {
        Some(n) => n,
        None => default,
    }
}

impl SuggestionConfig {
    /// Reads the settings. An absent or unreadable setting takes its default.
    pub fn from_settings(settings: &SuggestionSettings) -> (r: SuggestionConfig)
        ensures
            r.min_confidence == match settings.min_confidence {
                Some(c) => c,
                None => Real64 { bits: DEFAULT_MIN_CONFIDENCE_BITS },
            },
            r.expiry_secs == setting_or(settings.expiry_secs, u64::MAX as nat, 600),
            r.global_max == setting_or(settings.global_max, u32::MAX as nat, 5),
            r.global_window_secs == setting_or(settings.global_window_secs, u64::MAX as nat, 3_600),
            r.per_routine_window_secs == setting_or(
                settings.per_routine_window_secs,
                u64::MAX as nat,
                14_400,
            ),
            r.quiet_hours == quiet_hours_of(settings.quiet_start_min, settings.quiet_end_min),
    {
        let quiet_start = read_setting(&settings.quiet_start_min, u32::MAX as u64);
        let quiet_end = read_setting(&settings.quiet_end_min, u32::MAX as u64);
        let quiet_hours = match (quiet_start, quiet_end) {
            (Some(start), Some(end)) => if start < MINUTES_PER_DAY as u64 && end
                < MINUTES_PER_DAY as u64 {
                Some((start as u32, end as u32))
            } else {
                None
            },
            _ => None,
        };
        SuggestionConfig {
            min_confidence: match settings.min_confidence {
                Some(c) => c,
                None => Real64 { bits: DEFAULT_MIN_CONFIDENCE_BITS },
            },
            expiry_secs: read_setting_or(&settings.expiry_secs, u64::MAX, 600),
            global_max: read_setting_or(&settings.global_max, u32::MAX as u64, 5) as u32,
            global_window_secs: read_setting_or(&settings.global_window_secs, u64::MAX, 3_600),
            per_routine_window_secs: read_setting_or(
                &settings.per_routine_window_secs,
                u64::MAX,
                14_400,
            ),
            quiet_hours,
        }
    }
}

// ---------------------------------------------------------------------------------------------
// Records
// ---------------------------------------------------------------------------------------------

/// Lifecycle of a surfaced suggestion.
#[derive(Clone, Copy, Debug, PartialEq, Eq, Structural)]
pub enum SuggestionStatus {
    /// Surfaced and awaiting the operator.
    Live,
    /// The operator accepted.
    Accepted,
    /// The operator declined.
    Declined,
    /// Timed out unanswered.
    Expired,
    /// The routine left the set of live intents.
    Abandoned,
}

/// One surfaced suggestion.
#[derive(Debug, PartialEq, Eq)]
pub struct SuggestionRecord {
    pub record_version: u32,
    pub suggestion_id: String,
    pub routine_id: String,
    pub label: Option<String>,
    pub created_ts_ns: u64,
    pub expiry_ts_ns: u64,
    pub status: SuggestionStatus,
    /// Intent confidence at creation.
    pub confidence: Real64,
    pub matched_prefix_len: u32,
    pub total_steps: u32,
    pub remaining_step_count: u32,
    pub proposed_plan_ref: Option<String>,
    /// When the suggestion left `Live`.
    pub resolved_ts_ns: Option<u64>,
    pub resolution_note: Option<String>,
}

/// A suggestion with texts as sequences of characters.
#[verifier::ext_equal]
pub struct SuggestionView {
    pub record_version: u32,
    pub suggestion_id: Seq<char>,
    pub routine_id: Seq<char>,
    pub label: Option<Seq<char>>,
    pub created_ts_ns: u64,
    pub expiry_ts_ns: u64,
    pub status: SuggestionStatus,
    pub confidence: Real64,
    pub matched_prefix_len: u32,
    pub total_steps: u32,
    pub remaining_step_count: u32,
    pub proposed_plan_ref: Option<Seq<char>>,
    pub resolved_ts_ns: Option<u64>,
    pub resolution_note: Option<Seq<char>>,
}

impl View for SuggestionRecord {
    type V = SuggestionView;

    open spec fn view(&self) -> SuggestionView {
        SuggestionView {
            record_version: self.record_version,
            suggestion_id: self.suggestion_id@,
            routine_id: self.routine_id@,
            label: optional_view(self.label),
            created_ts_ns: self.created_ts_ns,
            expiry_ts_ns: self.expiry_ts_ns,
            status: self.status,
            confidence: self.confidence,
            matched_prefix_len: self.matched_prefix_len,
            total_steps: self.total_steps,
            remaining_step_count: self.remaining_step_count,
            proposed_plan_ref: optional_view(self.proposed_plan_ref),
            resolved_ts_ns: self.resolved_ts_ns,
            resolution_note: optional_view(self.resolution_note),
        }
    }
}

impl Clone for SuggestionRecord {
    fn clone(&self) -> (r: Self)
        ensures
            r == *self,
    {
        SuggestionRecord {
            record_version: self.record_version,
            suggestion_id: self.suggestion_id.clone(),
            routine_id: self.routine_id.clone(),
            label: clone_optional(&self.label),
            created_ts_ns: self.created_ts_ns,
            expiry_ts_ns: self.expiry_ts_ns,
            status: self.status,
            confidence: self.confidence,
            matched_prefix_len: self.matched_prefix_len,
            total_steps: self.total_steps,
            remaining_step_count: self.remaining_step_count,
            proposed_plan_ref: clone_optional(&self.proposed_plan_ref),
            resolved_ts_ns: self.resolved_ts_ns,
            resolution_note: clone_optional(&self.resolution_note),
        }
    }
}

/// The suggestions of a list, with texts as sequences of characters.
pub open spec fn suggestion_views(s: Seq<SuggestionRecord>) -> Seq<SuggestionView> {
    s.map_values(|r: SuggestionRecord| r@)
}

/// Whether two suggestions compare equal: in all fields, the confidence as IEEE has it.
pub open spec fn suggestion_same(a: SuggestionView, b: SuggestionView) -> bool {
    a.confidence.is_same(b.confidence) && a == (SuggestionView { confidence: a.confidence, ..b })
}

/// Compares two suggestions.
pub fn suggestions_equal(a: &SuggestionRecord, b: &SuggestionRecord) -> (r: bool)
    ensures
        r == suggestion_same(a@, b@),
{
    a.record_version == b.record_version && text_equal(
        a.suggestion_id.as_str(),
        b.suggestion_id.as_str(),
    ) && text_equal(a.routine_id.as_str(), b.routine_id.as_str()) && optional_text_equal(
        &a.label,
        &b.label,
    ) && a.created_ts_ns == b.created_ts_ns && a.expiry_ts_ns == b.expiry_ts_ns && a.status
        == b.status && a.confidence.same(b.confidence) && a.matched_prefix_len
        == b.matched_prefix_len && a.total_steps == b.total_steps && a.remaining_step_count
        == b.remaining_step_count && optional_text_equal(
        &a.proposed_plan_ref,
        &b.proposed_plan_ref,
    ) && optional_number_equal(a.resolved_ts_ns, b.resolved_ts_ns) && optional_text_equal(
        &a.resolution_note,
        &b.resolution_note,
    )
}

fn optional_number_equal(a: Option<u64>, b: Option<u64>) -> (r: bool)
    ensures
        r == (a == b),
{
    match (a, b) {
        (Some(x), Some(y)) => x == y,
        (None, None) => true,
        _ => false,
    }
}

// ---------------------------------------------------------------------------------------------
// Gating
// ---------------------------------------------------------------------------------------------

/// Why a candidate did not surface, or that it did.
#[derive(Clone, Copy, Debug, PartialEq, Eq, Structural)]
pub enum GateOutcome {
    Surface,
    DisabledRoutine,
    BelowThreshold,
    SuppressedCooldown,
    QuietHours,
    DuplicateLive,
    PerRoutineCap,
    GlobalCap,
}

/// What gating needs to know of the suggestions that exist.
#[derive(Debug)]
pub struct SuggestionAggregates {
    pub live_routines: RoutineSet,
    /// The most recent creation of each routine, whatever its status.
    pub last_created_by_routine: RoutineTimes,
    /// The creation of every suggestion, for the global window.
    pub created_ts: Vec<u64>,
}

/// The mathematical form of the aggregates.
#[verifier::ext_equal]
pub struct AggregatesView {
    pub live: Set<Seq<char>>,
    pub last_created: Map<Seq<char>, u64>,
    pub created: Seq<u64>,
}

impl View for SuggestionAggregates {
    type V = AggregatesView;

    open spec fn view(&self) -> AggregatesView {
        AggregatesView {
            live: self.live_routines@,
            last_created: self.last_created_by_routine@,
            created: self.created_ts@,
        }
    }
}

impl Default for SuggestionAggregates {
    fn default() -> (r: Self)
        ensures
            r@ == no_suggestions(),
    {
        SuggestionAggregates {
            live_routines: RoutineSet::new(),
            last_created_by_routine: RoutineTimes::new(),
            created_ts: Vec::new(),
        }
    }
}

/// The aggregates over no suggestion at all.
pub open spec fn no_suggestions() -> AggregatesView {
    AggregatesView { live: Set::empty(), last_created: Map::empty(), created: Seq::empty() }
}

/// A number of seconds in nanoseconds, cut off at the greatest `u64`.
pub open spec fn window_ns(secs: u64) -> int {
    if secs * 1_000_000_000 <= u64::MAX {
        secs * 1_000_000_000
    } else {
        u64::MAX as int
    }
}

fn to_window_ns(secs: u64) -> (r: u64)
    ensures
        r == window_ns(secs),
{
    let wide: u128 = secs as u128 * 1_000_000_000;
    if wide <= u64::MAX as u128 {
        wide as u64
    } else {
        u64::MAX
    }
}

/// `a - b`, or zero where that is negative.
pub open spec fn floor_sub(a: int, b: int) -> int {
    if a >= b {
        a - b
    } else {
        0
    }
}

/// Whether a minute of the day lies in the quiet hours.
pub open spec fn is_quiet(minute: u32, quiet: Option<(u32, u32)>) -> bool {
    match quiet {
        None => false,
        Some((start, end)) => if start <= end {
            start <= minute < end
        } else {
            minute >= start || minute < end
        },
    }
}

/// How many instants are not before the floor.
pub open spec fn count_since(created: Seq<u64>, floor: int) -> nat
    decreases created.len(),
{
    if created.len() == 0 {
        0
    } else {
        count_since(created.drop_last(), floor) + if created.last() >= floor {
            1nat
        } else {
            0nat
        }
    }
}

/// How many suggestions fall into the global window that ends now.
pub open spec fn created_in_window(created: Seq<u64>, now: u64, config: SuggestionConfig) -> nat {
    count_since(created, floor_sub(now as int, window_ns(config.global_window_secs)))
}

/// Whether the routine has had a suggestion too recently.
pub open spec fn is_spaced_out(
    last_created: Map<Seq<char>, u64>,
    routine_id: Seq<char>,
    now: u64,
    config: SuggestionConfig,
) -> bool {
    !last_created.contains_key(routine_id) || floor_sub(now as int, last_created[routine_id] as int)
        >= window_ns(config.per_routine_window_secs)
}

/// What gating says of one candidate: the first gate that holds it back, if any does.
pub open spec fn gate(
    routine_id: Seq<char>,
    confidence: Real64,
    lifecycle: RoutineLifecycle,
    suppressed: bool,
    now: u64,
    minute: Option<u32>,
    known: AggregatesView,
    config: SuggestionConfig,
) -> GateOutcome {
    if is_retired(lifecycle) {
        GateOutcome::DisabledRoutine
    } else if confidence.is_less(config.min_confidence) {
        GateOutcome::BelowThreshold
    } else if suppressed {
        GateOutcome::SuppressedCooldown
    } else if minute is Some && is_quiet(minute->0, config.quiet_hours) {
        GateOutcome::QuietHours
    } else if known.live.contains(routine_id) {
        GateOutcome::DuplicateLive
    } else if !is_spaced_out(known.last_created, routine_id, now, config) {
        GateOutcome::PerRoutineCap
    } else if count32(created_in_window(known.created, now, config) as int) >= config.global_max {
        GateOutcome::GlobalCap
    } else {
        GateOutcome::Surface
    }
}

/// Whether a minute of the day lies in the quiet hours.
pub fn in_quiet_hours(minute: u32, quiet: Option<(u32, u32)>) -> (r: bool)
    ensures
        r == is_quiet(minute, quiet),
{
    match quiet {
        None => false,
        Some((start, end)) => if start <= end {
            minute >= start && minute < end
        } else {
            minute >= start || minute < end
        },
    }
}

fn count_created_since(created: &Vec<u64>, floor: u64) -> (r: usize)
    ensures
        r == count_since(created@, floor as int),
        r <= created@.len(),
{
    let mut count: usize = 0;
    let mut i: usize = 0;
    assert(created@.subrange(0, 0) =~= Seq::empty());
    while i < created.len()
        invariant
            i <= created@.len(),
            count <= i,
            count == count_since(created@.subrange(0, i as int), floor as int),
        decreases created@.len() - i,
    {
        proof {
            assert(created@.subrange(0, i + 1).drop_last() =~= created@.subrange(0, i as int));
        }
        if created[i] >= floor {
            count += 1;
        }
        i += 1;
    }
    assert(created@.subrange(0, created@.len() as int) =~= created@);
    count
}

/// Decides whether one candidate surfaces. `suppressed` is the verdict of the feedback cooldown.
pub fn gate_decision(
    routine_id: &str,
    confidence: Real64,
    lifecycle: RoutineLifecycle,
    suppressed: bool,
    now_ns: u64,
    now_minute: Option<u32>,
    aggregates: &SuggestionAggregates,
    config: &SuggestionConfig,
) -> (r: GateOutcome)
    ensures
        r == gate(
            routine_id@,
            confidence,
            lifecycle,
            suppressed,
            now_ns,
            now_minute,
            aggregates@,
            *config,
        ),
{
    if retired(lifecycle) {
        return GateOutcome::DisabledRoutine;
    }
    if confidence.less(config.min_confidence) {
        return GateOutcome::BelowThreshold;
    }
    if suppressed {
        return GateOutcome::SuppressedCooldown;
    }
    if let Some(minute) = now_minute {
        if in_quiet_hours(minute, config.quiet_hours) {
            return GateOutcome::QuietHours;
        }
    }
    if aggregates.live_routines.contains(routine_id) {
        return GateOutcome::DuplicateLive;
    }
    if let Some(last) = aggregates.last_created_by_routine.get(routine_id) {
        if now_ns.saturating_sub(last) < to_window_ns(config.per_routine_window_secs) {
            return GateOutcome::PerRoutineCap;
        }
    }
    let window_floor: u64 = now_ns.saturating_sub(to_window_ns(config.global_window_secs));
    let global_count: usize = count_created_since(&aggregates.created_ts, window_floor);
    if to_count32(global_count) >= config.global_max {
        return GateOutcome::GlobalCap;
    }
    GateOutcome::Surface
}

// ---------------------------------------------------------------------------------------------
// Rows
// ---------------------------------------------------------------------------------------------

/// The text of a suggestion's storage key: routine, then creation in twenty digits, so that the
/// keys of a routine stand in the order of creation.
pub open spec fn suggestion_key_text(routine_id: Seq<char>, created_ts_ns: u64) -> Seq<char> {
    SUGGESTION_PREFIX@ + routine_id + "/"@ + zero_padded(created_ts_ns as nat, 20)
}

/// The storage key of a suggestion.
pub fn suggestion_key(routine_id: &str, created_ts_ns: u64) -> (r: Vec<u8>)
    ensures
        r@ == vstd::utf8::encode_utf8(suggestion_key_text(routine_id@, created_ts_ns)),
{
    let digits = padded_text(created_ts_ns);
    let text = cat4(SUGGESTION_PREFIX, routine_id, "/", digits.as_str());
    crate::keys::copy_key(text.as_str().as_bytes())
}

/// The error for a storage read that failed.
pub open spec fn storage_failure(detail: Seq<char>) -> ErrorView {
    ErrorView {
        code: STORAGE_READ_FAILED@,
        message: "suggestion engine storage failure: "@ + detail,
    }
}

/// Reports a storage read that failed.
pub fn storage_error(detail: &str) -> (r: ToolError)
    ensures
        r@ == storage_failure(detail@),
{
    mcp_error(STORAGE_READ_FAILED, cat2("suggestion engine storage failure: ", detail))
}

/// The error for a suggestion row that cannot be decoded.
pub open spec fn row_decode_failure(key: Seq<u8>, detail: Seq<char>) -> ErrorView {
    ErrorView {
        code: STORAGE_CORRUPTED@,
        message: "SUGGESTION_ROW_DECODE_FAILED in CF_KV at "@ + utf8_lossy(key) + ": "@ + detail,
    }
}

/// The row at the given position is the first that cannot be decoded.
pub open spec fn fails_first_at<T>(rows: Seq<StoredRow<T>>, at: int) -> bool {
    &&& 0 <= at < rows.len()
    &&& forall|i: int| 0 <= i < at ==> (#[trigger] rows[i]).value is Ok
    &&& rows[at].value is Err
}

/// `records` are the decoded values of `rows`, all of which could be decoded.
pub open spec fn decodes_to<T>(rows: Seq<StoredRow<T>>, records: Seq<T>) -> bool {
    &&& records.len() == rows.len()
    &&& forall|i: int|
        0 <= i < rows.len() ==> (#[trigger] rows[i]).value is Ok && rows[i].value->Ok_0 == records[i]
}

/// Takes the decoded suggestions out of the rows that were read. The first row that cannot be
/// decoded fails the whole load.
pub fn load_all_suggestions(rows: &Result<Vec<StoredRow<SuggestionRecord>>, String>) -> (r: Result<
    Vec<SuggestionRecord>,
    ToolError,
>)
    ensures
        match rows {
            Err(detail) => r matches Err(e) && e@ == storage_failure(detail@),
            Ok(rows) => match r {
                Ok(records) => decodes_to(rows@, records@),
                Err(e) => exists|at: int| #[trigger]
                    fails_first_at(rows@, at) && e@ == row_decode_failure(
                        rows@[at].key@,
                        rows@[at].value->Err_0@,
                    ),
            },
        },
{
    let list = match rows {
        Ok(list) => list,
        Err(detail) => {
            return Err(storage_error(detail.as_str()));
        },
    };
    let mut out: Vec<SuggestionRecord> = Vec::new();
    let mut i: usize = 0;
    while i < list.len()
        invariant
            i <= list@.len(),
            *rows == Ok::<Vec<StoredRow<SuggestionRecord>>, String>(*list),
            out@.len() == i,
            forall|k: int| 0 <= k < i ==> (#[trigger] list@[k]).value is Ok,
            forall|k: int| 0 <= k < i ==> (#[trigger] list@[k]).value->Ok_0 == out@[k],
        decreases list@.len() - i,
    {
        match &list[i].value {
            Ok(record) => {
                out.push(record.clone());
            },
            Err(detail) => {
                let place = from_utf8_lossy(list[i].key.as_slice());
                let error = mcp_error(
                    STORAGE_CORRUPTED,
                    cat4(
                        "SUGGESTION_ROW_DECODE_FAILED in CF_KV at ",
                        place.as_str(),
                        ": ",
                        detail.as_str(),
                    ),
                );
                assert(fails_first_at(rows->Ok_0@, i as int));
                assert(error@ == row_decode_failure(
                    rows->Ok_0@[i as int].key@,
                    rows->Ok_0@[i as int].value->Err_0@,
                ));
                return Err(error);
            },
        }
        i += 1;
    }
    Ok(out)
}

/// What comparing a suggestion with the rows found under its key says.
pub open spec fn is_confirmation(
    record: SuggestionRecord,
    rows: Result<Vec<StoredRow<SuggestionRecord>>, String>,
    r: Result<(), ToolError>,
) -> bool {
    match rows {
        Err(detail) => r matches Err(e) && e@ == storage_failure(detail@),
        Ok(rows) => if rows@.len() == 0 {
            r matches Err(e) && e@ == (ErrorView {
                code: STORAGE_CORRUPTED@,
                message: "SUGGESTION_READBACK_MISSING: row for "@ + record.suggestion_id@
                    + " vanished immediately after write"@,
            })
        } else {
            match rows@[0].value {
                Err(detail) => r matches Err(e) && e@ == storage_failure(detail@),
                Ok(readback) => if suggestion_same(readback@, record@) {
                    r is Ok
                } else {
                    r matches Err(e) && e@ == (ErrorView {
                        code: STORAGE_CORRUPTED@,
                        message: "SUGGESTION_READBACK_MISMATCH for "@ + record.suggestion_id@
                            + ": persisted row != value just written"@,
                    })
                },
            }
        },
    }
}

/// Compares a suggestion that was just written with the rows found under its key.
pub fn confirm_suggestion_write(
    record: &SuggestionRecord,
    rows: &Result<Vec<StoredRow<SuggestionRecord>>, String>,
) -> (r: Result<(), ToolError>)
    ensures
        is_confirmation(*record, *rows, r),
{
    match rows {
        Err(detail) => Err(storage_error(detail.as_str())),
        Ok(rows) => {
            if rows.len() == 0 {
                return Err(
                    mcp_error(
                        STORAGE_CORRUPTED,
                        cat3(
                            "SUGGESTION_READBACK_MISSING: row for ",
                            record.suggestion_id.as_str(),
                            " vanished immediately after write",
                        ),
                    ),
                );
            }
            match &rows[0].value {
                Err(detail) => Err(storage_error(detail.as_str())),
                Ok(readback) => if suggestions_equal(readback, record) {
                    Ok(())
                } else {
                    Err(
                        mcp_error(
                            STORAGE_CORRUPTED,
                            cat3(
                                "SUGGESTION_READBACK_MISMATCH for ",
                                record.suggestion_id.as_str(),
                                ": persisted row != value just written",
                            ),
                        ),
                    )
                },
            }
        },
    }
}

/// How storing a suggestion went.
#[derive(Debug)]
pub struct SuggestionWrite {
    /// Whether it could be encoded, or why not.
    pub encoded: Result<(), String>,
    /// Whether the row was stored, or why not.
    pub stored: Result<(), String>,
    /// The rows found under its key afterwards.
    pub found: Result<Vec<StoredRow<SuggestionRecord>>, String>,
}

/// Why a suggestion is not stored.
pub open spec fn write_failure(what: Seq<char>, id: Seq<char>, detail: Seq<char>) -> ErrorView {
    ErrorView { code: STORAGE_WRITE_FAILED@, message: what + id + ": "@ + detail }
}

/// Says whether a suggestion was stored: it was encoded, stored, and is found again as it was written.
pub fn write_suggestion(record: &SuggestionRecord, write: &SuggestionWrite) -> (r: Result<
    (),
    ToolError,
>)
    ensures
        match write.encoded {
            Err(detail) => r matches Err(e) && e@ == write_failure(
                "failed to encode suggestion "@,
                record.suggestion_id@,
                detail@,
            ),
            Ok(_) => match write.stored {
                Err(detail) => r matches Err(e) && e@ == write_failure(
                    "failed to persist suggestion "@,
                    record.suggestion_id@,
                    detail@,
                ),
                Ok(_) => is_confirmation(*record, write.found, r),
            },
        },
{
    if let Err(detail) = &write.encoded {
        return Err(
            mcp_error(
                STORAGE_WRITE_FAILED,
                cat4(
                    "failed to encode suggestion ",
                    record.suggestion_id.as_str(),
                    ": ",
                    detail.as_str(),
                ),
            ),
        );
    }
    if let Err(detail) = &write.stored {
        return Err(
            mcp_error(
                STORAGE_WRITE_FAILED,
                cat4(
                    "failed to persist suggestion ",
                    record.suggestion_id.as_str(),
                    ": ",
                    detail.as_str(),
                ),
            ),
        );
    }
    confirm_suggestion_write(record, &write.found)
}

// ---------------------------------------------------------------------------------------------
// One pass of the engine: settling what is live
// ---------------------------------------------------------------------------------------------

/// One write that a pass asks for.
#[derive(Debug, PartialEq, Eq)]
pub enum TickEffect {
    /// Store this suggestion and confirm it.
    Write(SuggestionRecord),
    /// Record how a suggestion ended on its routine.
    Feedback(TerminalFeedback),
}

/// The feedback that a pass records when a suggestion ends.
#[derive(Debug, PartialEq, Eq)]
pub struct TerminalFeedback {
    pub routine_id: String,
    pub outcome: RoutineFeedbackOutcome,
    pub note: String,
    pub now_ts_ns: u64,
    pub actor: String,
}

/// A write with texts as sequences of characters.
#[verifier::ext_equal]
pub enum EffectView {
    Write(SuggestionView),
    Feedback {
        routine_id: Seq<char>,
        outcome: RoutineFeedbackOutcome,
        note: Seq<char>,
        now_ts_ns: u64,
        actor: Seq<char>,
    },
}

impl View for TickEffect {
    type V = EffectView;

    open spec fn view(&self) -> EffectView {
        match *self {
            TickEffect::Write(record) => EffectView::Write(record@),
            TickEffect::Feedback(feedback) => EffectView::Feedback {
                routine_id: feedback.routine_id@,
                outcome: feedback.outcome,
                note: feedback.note@,
                now_ts_ns: feedback.now_ts_ns,
                actor: feedback.actor@,
            },
        }
    }
}

/// The writes of a list, with texts as sequences of characters.
pub open spec fn effect_views(s: Seq<TickEffect>) -> Seq<EffectView> {
    s.map_values(|e: TickEffect| e@)
}

/// A live suggestion whose time is up.
pub open spec fn times_out(r: SuggestionView, now: u64) -> bool {
    r.status is Live && now >= r.expiry_ts_ns
}

/// A live suggestion with time left whose routine is no longer among the intents.
pub open spec fn is_dropped(r: SuggestionView, now: u64, intents: Set<Seq<char>>) -> bool {
    r.status is Live && now < r.expiry_ts_ns && !intents.contains(r.routine_id)
}

/// A suggestion after the settling pass.
pub open spec fn settled(r: SuggestionView, now: u64, intents: Set<Seq<char>>) -> SuggestionView {
    if times_out(r, now) {
        SuggestionView {
            status: SuggestionStatus::Expired,
            resolved_ts_ns: Some(now),
            resolution_note: Some("timed out unanswered"@),
            ..r
        }
    } else if is_dropped(r, now, intents) {
        SuggestionView {
            status: SuggestionStatus::Abandoned,
            resolved_ts_ns: Some(now),
            resolution_note: Some("routine left the live intent set"@),
            ..r
        }
    } else {
        r
    }
}

/// The feedback that the end of a suggestion records.
pub open spec fn terminal_feedback(
    routine_id: Seq<char>,
    outcome: RoutineFeedbackOutcome,
    now: u64,
    note: Seq<char>,
) -> EffectView {
    EffectView::Feedback { routine_id, outcome, note, now_ts_ns: now, actor: SUGGESTION_ACTOR@ }
}

/// The writes that settling one suggestion asks for: the row, then the feedback.
pub open spec fn settle_effects(
    r: SuggestionView,
    now: u64,
    intents: Set<Seq<char>>,
) -> Seq<EffectView> {
    if times_out(r, now) {
        seq![
            EffectView::Write(settled(r, now, intents)),
            terminal_feedback(
                r.routine_id,
                RoutineFeedbackOutcome::IgnoredTimeout,
                now,
                "suggestion expired (timeout)"@,
            ),
        ]
    } else if is_dropped(r, now, intents) {
        seq![
            EffectView::Write(settled(r, now, intents)),
            terminal_feedback(
                r.routine_id,
                RoutineFeedbackOutcome::Abandoned,
                now,
                "suggestion abandoned (intent dropped)"@,
            ),
        ]
    } else {
        Seq::empty()
    }
}

/// The writes that settling a list asks for, in its order; a dry run asks for none.
pub open spec fn all_settle_effects(
    s: Seq<SuggestionView>,
    now: u64,
    intents: Set<Seq<char>>,
    dry_run: bool,
) -> Seq<EffectView>
    decreases s.len(),
{
    if s.len() == 0 || dry_run {
        Seq::empty()
    } else {
        all_settle_effects(s.drop_last(), now, intents, dry_run) + settle_effects(
            s.last(),
            now,
            intents,
        )
    }
}

/// Every suggestion of a list after the settling pass.
pub open spec fn all_settled(
    s: Seq<SuggestionView>,
    now: u64,
    intents: Set<Seq<char>>,
) -> Seq<SuggestionView> {
    Seq::new(s.len(), |i: int| settled(s[i], now, intents))
}

/// The ids of the suggestions that time out, in order.
pub open spec fn expired_ids(s: Seq<SuggestionView>, now: u64) -> Seq<Seq<char>>
    decreases s.len(),
{
    if s.len() == 0 {
        Seq::empty()
    } else if times_out(s.last(), now) {
        expired_ids(s.drop_last(), now).push(s.last().suggestion_id)
    } else {
        expired_ids(s.drop_last(), now)
    }
}

/// The ids of the suggestions whose routine left the intents, in order.
pub open spec fn abandoned_ids(
    s: Seq<SuggestionView>,
    now: u64,
    intents: Set<Seq<char>>,
) -> Seq<Seq<char>>
    decreases s.len(),
{
    if s.len() == 0 {
        Seq::empty()
    } else if is_dropped(s.last(), now, intents) {
        abandoned_ids(s.drop_last(), now, intents).push(s.last().suggestion_id)
    } else {
        abandoned_ids(s.drop_last(), now, intents)
    }
}

/// The routines among the candidates.
pub open spec fn candidate_routines<S, E>(candidates: Seq<IntentCandidate<S, E>>) -> Set<
    Seq<char>,
> {
    Set::new(
        |id: Seq<char>|
            exists|i: int| 0 <= i < candidates.len() && (#[trigger] candidates[i]).routine_id@ == id,
    )
}

/// The outcome of the settling pass: the suggestions after it, the ids of those that it ended, and
/// its writes, to be performed in order before the creating pass.
#[derive(Debug)]
pub struct SettledSuggestions {
    pub suggestions: Vec<SuggestionRecord>,
    pub expired: Vec<String>,
    pub abandoned: Vec<String>,
    pub effects: Vec<TickEffect>,
}

impl SettledSuggestions {
    /// The outcome of settling the given suggestions.
    pub open spec fn settles(
        self,
        before: Seq<SuggestionView>,
        now: u64,
        intents: Set<Seq<char>>,
        dry_run: bool,
    ) -> bool {
        &&& suggestion_views(self.suggestions@) == all_settled(before, now, intents)
        &&& views(self.expired@) == expired_ids(before, now)
        &&& views(self.abandoned@) == abandoned_ids(before, now, intents)
        &&& effect_views(self.effects@) == all_settle_effects(before, now, intents, dry_run)
    }
}

fn collect_routines<S, E>(candidates: &Vec<IntentCandidate<S, E>>) -> (r: RoutineSet)
    ensures
        r@ == candidate_routines(candidates@),
{
    let mut set = RoutineSet::new();
    let mut i: usize = 0;
    assert(candidate_routines(candidates@.subrange(0, 0)) =~= Set::empty());
    while i < candidates.len()
        invariant
            i <= candidates@.len(),
            set@ == candidate_routines(candidates@.subrange(0, i as int)),
        decreases candidates@.len() - i,
    {
        set.insert(candidates[i].routine_id.clone());
        proof {
            let before = candidates@.subrange(0, i as int);
            let after = candidates@.subrange(0, i + 1);
            assert forall|id: Seq<char>| set@.contains(id) == candidate_routines(after).contains(
                id,
            ) by {
                if candidate_routines(before).contains(id) {
                    let k = choose|k: int|
                        0 <= k < before.len() && (#[trigger] before[k]).routine_id@ == id;
                    assert(after[k].routine_id@ == id);
                }
                if id == candidates@[i as int].routine_id@ {
                    assert(after[i as int].routine_id@ == id);
                }
                if candidate_routines(after).contains(id) {
                    let k = choose|k: int|
                        0 <= k < after.len() && (#[trigger] after[k]).routine_id@ == id;
                    if k < i {
                        assert(before[k].routine_id@ == id);
                    }
                }
            }
            assert(set@ =~= candidate_routines(after));
        }
        i += 1;
    }
    assert(candidates@.subrange(0, candidates@.len() as int) =~= candidates@);
    set
}

/// Records how a suggestion ended.
pub fn record_terminal_feedback(
    routine_id: &str,
    outcome: RoutineFeedbackOutcome,
    now_ns: u64,
    note: &str,
) -> (r: TickEffect)
    ensures
        r@ == terminal_feedback(routine_id@, outcome, now_ns, note@),
{
    TickEffect::Feedback(
        TerminalFeedback {
            routine_id: routine_id.to_owned(),
            outcome,
            note: note.to_owned(),
            now_ts_ns: now_ns,
            actor: SUGGESTION_ACTOR.to_owned(),
        },
    )
}

/// Expires the live suggestions whose time is up and abandons those whose routine left the
/// intents.
pub fn settle_suggestions<S, E>(
    suggestions: Vec<SuggestionRecord>,
    candidates: &Vec<IntentCandidate<S, E>>,
    now: u64,
    dry_run: bool,
) -> (r: SettledSuggestions)
    ensures
        r.settles(
            suggestion_views(suggestions@),
            now,
            candidate_routines(candidates@),
            dry_run,
        ),
{
    let intents = collect_routines(candidates);
    let ghost before = suggestion_views(suggestions@);
    let mut out: Vec<SuggestionRecord> = Vec::new();
    let mut expired: Vec<String> = Vec::new();
    let mut abandoned: Vec<String> = Vec::new();
    let mut effects: Vec<TickEffect> = Vec::new();
    let mut i: usize = 0;
    assert(before.subrange(0, 0) =~= Seq::empty());
    while i < suggestions.len()
        invariant
            i <= suggestions@.len(),
            before == suggestion_views(suggestions@),
            out@.len() == i,
            suggestion_views(out@) == all_settled(before.subrange(0, i as int), now, intents@),
            views(expired@) == expired_ids(before.subrange(0, i as int), now),
            views(abandoned@) == abandoned_ids(before.subrange(0, i as int), now, intents@),
            effect_views(effects@) == all_settle_effects(
                before.subrange(0, i as int),
                now,
                intents@,
                dry_run,
            ),
        decreases suggestions@.len() - i,
    {
        let ghost part = before.subrange(0, i as int);
        let ghost next = before.subrange(0, i + 1);
        let ghost old_out = out@;
        let ghost old_expired = expired@;
        let ghost old_abandoned = abandoned@;
        let ghost old_effects = effects@;
        proof {
            assert(next.drop_last() =~= part);
            assert(next.last() == suggestions@[i as int]@);
        }
        let mut record = suggestions[i].clone();
        let ghost original = record@;
        if record.status == SuggestionStatus::Live {
            if now >= record.expiry_ts_ns {
                record.status = SuggestionStatus::Expired;
                record.resolved_ts_ns = Some(now);
                record.resolution_note = Some("timed out unanswered".to_owned());
                if !dry_run {
                    effects.push(TickEffect::Write(record.clone()));
                    effects.push(
                        record_terminal_feedback(
                            record.routine_id.as_str(),
                            RoutineFeedbackOutcome::IgnoredTimeout,
                            now,
                            "suggestion expired (timeout)",
                        ),
                    );
                }
                expired.push(record.suggestion_id.clone());
            } else if !intents.contains(record.routine_id.as_str()) {
                record.status = SuggestionStatus::Abandoned;
                record.resolved_ts_ns = Some(now);
                record.resolution_note = Some("routine left the live intent set".to_owned());
                if !dry_run {
                    effects.push(TickEffect::Write(record.clone()));
                    effects.push(
                        record_terminal_feedback(
                            record.routine_id.as_str(),
                            RoutineFeedbackOutcome::Abandoned,
                            now,
                            "suggestion abandoned (intent dropped)",
                        ),
                    );
                }
                abandoned.push(record.suggestion_id.clone());
            }
        }
        assert(record@ == settled(original, now, intents@));
        out.push(record);
        proof {
            assert forall|k: int| 0 <= k <= i implies suggestion_views(out@)[k] == #[trigger] all_settled(
                next,
                now,
                intents@,
            )[k] by {
                if k < i {
                    assert(suggestion_views(old_out)[k] == all_settled(part, now, intents@)[k]);
                    assert(part[k] == next[k]);
                }
            }
            assert(suggestion_views(out@) =~= all_settled(next, now, intents@));
            assert(views(expired@) =~= expired_ids(next, now));
            assert(views(abandoned@) =~= abandoned_ids(next, now, intents@));
            if dry_run {
                assert(effects@ == old_effects);
                assert(all_settle_effects(next, now, intents@, dry_run) == Seq::<
                    EffectView,
                >::empty());
                assert(all_settle_effects(part, now, intents@, dry_run) == Seq::<
                    EffectView,
                >::empty());
            } else {
                let base = all_settle_effects(part, now, intents@, dry_run);
                if part.len() == 0 {
                    assert(base == Seq::<EffectView>::empty());
                }
                assert(effect_views(effects@) =~= base + settle_effects(original, now, intents@));
                assert(all_settle_effects(next, now, intents@, dry_run) == base + settle_effects(
                    original,
                    now,
                    intents@,
                ));
            }
        }
        i += 1;
    }
    assert(before.subrange(0, before.len() as int) =~= before);
    SettledSuggestions { suggestions: out, expired, abandoned, effects }
}

// ---------------------------------------------------------------------------------------------
// One pass of the engine: creating
// ---------------------------------------------------------------------------------------------

/// The aggregates with one more suggestion counted.
pub open spec fn with_suggestion(known: AggregatesView, r: SuggestionView) -> AggregatesView {
    AggregatesView {
        live: if r.status is Live {
            known.live.insert(r.routine_id)
        } else {
            known.live
        },
        last_created: known.last_created.insert(
            r.routine_id,
            if known.last_created.contains_key(r.routine_id) && known.last_created[r.routine_id]
                >= r.created_ts_ns {
                known.last_created[r.routine_id]
            } else {
                r.created_ts_ns
            },
        ),
        created: known.created.push(r.created_ts_ns),
    }
}

/// The aggregates over a list of suggestions.
pub open spec fn aggregates_of(s: Seq<SuggestionView>) -> AggregatesView
    decreases s.len(),
{
    if s.len() == 0 {
        no_suggestions()
    } else {
        with_suggestion(aggregates_of(s.drop_last()), s.last())
    }
}

/// Computes the aggregates over a list of suggestions.
pub fn build_aggregates(suggestions: &Vec<SuggestionRecord>) -> (r: SuggestionAggregates)
    ensures
        r@ == aggregates_of(suggestion_views(suggestions@)),
{
    let mut agg = SuggestionAggregates::default();
    let ghost all = suggestion_views(suggestions@);
    let mut i: usize = 0;
    assert(all.subrange(0, 0) =~= Seq::empty());
    while i < suggestions.len()
        invariant
            i <= suggestions@.len(),
            all == suggestion_views(suggestions@),
            agg@ == aggregates_of(all.subrange(0, i as int)),
        decreases suggestions@.len() - i,
    {
        let record = &suggestions[i];
        let ghost before = agg@;
        if record.status == SuggestionStatus::Live {
            agg.live_routines.insert(record.routine_id.clone());
        }
        let latest: u64 = match agg.last_created_by_routine.get(record.routine_id.as_str()) {
            Some(known) => if known >= record.created_ts_ns {
                known
            } else {
                record.created_ts_ns
            },
            None => record.created_ts_ns,
        };
        agg.last_created_by_routine.insert(record.routine_id.clone(), latest);
        agg.created_ts.push(record.created_ts_ns);
        proof {
            assert(all.subrange(0, i + 1).drop_last() =~= all.subrange(0, i as int));
            assert(all.subrange(0, i + 1).last() == record@);
            assert(agg@ =~= with_suggestion(before, record@));
        }
        i += 1;
    }
    assert(all.subrange(0, all.len() as int) =~= all);
    agg
}

/// `a + b`, cut off at the greatest `u64`.
pub open spec fn ceil_add(a: int, b: int) -> u64 {
    if a + b <= u64::MAX {
        (a + b) as u64
    } else {
        u64::MAX
    }
}

/// The suggestion that a candidate surfaces as.
pub open spec fn suggestion_for(
    candidate: IntentCandidateView,
    now: u64,
    config: SuggestionConfig,
) -> SuggestionView {
    SuggestionView {
        record_version: SUGGESTION_RECORD_VERSION,
        suggestion_id: "sg1-"@ + candidate.routine_id + "-"@ + zero_padded(now as nat, 20),
        routine_id: candidate.routine_id,
        label: candidate.label,
        created_ts_ns: now,
        expiry_ts_ns: ceil_add(now as int, window_ns(config.expiry_secs)),
        status: SuggestionStatus::Live,
        confidence: candidate.confidence,
        matched_prefix_len: count32(candidate.matched_prefix_len as int),
        total_steps: count32(candidate.total_steps as int),
        remaining_step_count: count32(candidate.remaining_step_count as int),
        proposed_plan_ref: None,
        resolved_ts_ns: None,
        resolution_note: None,
    }
}

/// Builds the suggestion that a candidate surfaces as.
pub fn build_suggestion<S, E>(
    candidate: &IntentCandidate<S, E>,
    now: u64,
    config: &SuggestionConfig,
) -> (r: SuggestionRecord)
    ensures
        r@ == suggestion_for(candidate@, now, *config),
{
    let digits = padded_text(now);
    SuggestionRecord {
        record_version: SUGGESTION_RECORD_VERSION,
        suggestion_id: cat4("sg1-", candidate.routine_id.as_str(), "-", digits.as_str()),
        routine_id: candidate.routine_id.clone(),
        label: clone_optional(&candidate.label),
        created_ts_ns: now,
        expiry_ts_ns: now.saturating_add(to_window_ns(config.expiry_secs)),
        status: SuggestionStatus::Live,
        confidence: candidate.confidence,
        matched_prefix_len: to_count32(candidate.matched_prefix_len),
        total_steps: to_count32(candidate.total_steps),
        remaining_step_count: to_count32(candidate.remaining_steps.len()),
        proposed_plan_ref: None,
        resolved_ts_ns: None,
        resolution_note: None,
    }
}

/// The decision on one candidate, echoed for audit.
#[derive(Debug, PartialEq, Eq)]
pub struct GateDecisionRow {
    pub routine_id: String,
    pub confidence: Real64,
    pub outcome: GateOutcome,
    pub suggestion_id: Option<String>,
}

/// A decision with texts as sequences of characters.
#[verifier::ext_equal]
pub struct DecisionView {
    pub routine_id: Seq<char>,
    pub confidence: Real64,
    pub outcome: GateOutcome,
    pub suggestion_id: Option<Seq<char>>,
}

impl View for GateDecisionRow {
    type V = DecisionView;

    open spec fn view(&self) -> DecisionView {
        DecisionView {
            routine_id: self.routine_id@,
            confidence: self.confidence,
            outcome: self.outcome,
            suggestion_id: optional_view(self.suggestion_id),
        }
    }
}

/// The decisions of a list, with texts as sequences of characters.
pub open spec fn decision_views(s: Seq<GateDecisionRow>) -> Seq<DecisionView> {
    s.map_values(|d: GateDecisionRow| d@)
}

/// The candidates of a list, with texts as sequences of characters.
pub open spec fn candidate_views<S, E>(s: Seq<IntentCandidate<S, E>>) -> Seq<IntentCandidateView> {
    s.map_values(|c: IntentCandidate<S, E>| c@)
}

/// What one tick is evaluated against.
#[derive(Clone, Copy, Debug)]
pub struct TickClock {
    pub now_ts_ns: u64,
    /// The local minute of the day, where the clock has one.
    pub minute_of_day: Option<u32>,
    pub dry_run: bool,
}

/// The creating pass after some of the candidates.
#[verifier::ext_equal]
pub struct CreationView {
    pub known: AggregatesView,
    pub created: Seq<Seq<char>>,
    pub decisions: Seq<DecisionView>,
    pub effects: Seq<EffectView>,
}

/// The creating pass with one more candidate decided: a candidate that surfaces is written and
/// counted at once, so that the next one meets the caps.
pub open spec fn decide_next(
    state: CreationView,
    candidate: IntentCandidateView,
    suppressed: bool,
    clock: TickClock,
    config: SuggestionConfig,
) -> CreationView {
    let outcome = gate(
        candidate.routine_id,
        candidate.confidence,
        candidate.lifecycle,
        suppressed,
        clock.now_ts_ns,
        clock.minute_of_day,
        state.known,
        config,
    );
    let record = suggestion_for(candidate, clock.now_ts_ns, config);
    let surfaces = outcome is Surface && !clock.dry_run;
    CreationView {
        known: if surfaces {
            AggregatesView {
                live: state.known.live.insert(record.routine_id),
                last_created: state.known.last_created.insert(
                    record.routine_id,
                    record.created_ts_ns,
                ),
                created: state.known.created.push(record.created_ts_ns),
            }
        } else {
            state.known
        },
        created: if surfaces {
            state.created.push(record.suggestion_id)
        } else {
            state.created
        },
        decisions: state.decisions.push(
            DecisionView {
                routine_id: candidate.routine_id,
                confidence: candidate.confidence,
                outcome,
                suggestion_id: if surfaces {
                    Some(record.suggestion_id)
                } else if outcome is Surface {
                    Some("(dry-run)"@ + candidate.routine_id)
                } else {
                    None
                },
            },
        ),
        effects: if surfaces {
            state.effects.push(EffectView::Write(record))
        } else {
            state.effects
        },
    }
}

/// The creating pass over a list of candidates, each with its suppression verdict.
pub open spec fn decide_all(
    known: AggregatesView,
    candidates: Seq<IntentCandidateView>,
    suppressed: Seq<bool>,
    clock: TickClock,
    config: SuggestionConfig,
) -> CreationView
    decreases candidates.len(),
{
    if candidates.len() == 0 {
        CreationView {
            known,
            created: Seq::empty(),
            decisions: Seq::empty(),
            effects: Seq::empty(),
        }
    } else {
        decide_next(
            decide_all(known, candidates.drop_last(), suppressed.drop_last(), clock, config),
            candidates.last(),
            suppressed.last(),
            clock,
            config,
        )
    }
}

/// The verdict on each routine: a failed read counts as none.
pub open spec fn verdicts(suppressed: Seq<Result<bool, ToolError>>) -> Seq<bool> {
    suppressed.map_values(|v: Result<bool, ToolError>| v matches Ok(b) && b)
}

/// Serializable echo of the active configuration.
#[derive(Clone, Copy, Debug, PartialEq, Eq)]
pub struct SuggestionConfigEcho {
    pub min_confidence: Real64,
    pub expiry_secs: u64,
    pub global_max: u32,
    pub global_window_secs: u64,
    pub per_routine_window_secs: u64,
    pub quiet_hours: Option<[u32; 2]>,
}

/// The echo repeats the configuration.
pub open spec fn echoes(e: SuggestionConfigEcho, c: SuggestionConfig) -> bool {
    &&& e.min_confidence == c.min_confidence
    &&& e.expiry_secs == c.expiry_secs
    &&& e.global_max == c.global_max
    &&& e.global_window_secs == c.global_window_secs
    &&& e.per_routine_window_secs == c.per_routine_window_secs
    &&& match (e.quiet_hours, c.quiet_hours) {
        (Some(pair), Some((start, end))) => pair@ == seq![start, end],
        (None, None) => true,
        _ => false,
    }
}

/// Echoes a configuration.
pub fn echo_config(c: &SuggestionConfig) -> (r: SuggestionConfigEcho)
    ensures
        echoes(r, *c),
{
    let quiet_hours: Option<[u32; 2]> = match c.quiet_hours {
        Some((start, end)) => {
            let pair: [u32; 2] = [start, end];
            assert(pair@ =~= seq![start, end]);
            Some(pair)
        },
        None => None,
    };
    SuggestionConfigEcho {
        min_confidence: c.min_confidence,
        expiry_secs: c.expiry_secs,
        global_max: c.global_max,
        global_window_secs: c.global_window_secs,
        per_routine_window_secs: c.per_routine_window_secs,
        quiet_hours,
    }
}

/// The parameters of a tick.
#[derive(Clone, Copy, Debug, PartialEq, Eq)]
pub struct SuggestionTickParams {
    /// Evaluate as of this instant.
    pub now_ts_ns: Option<u64>,
    /// Recent-activity lookback handed to the intent matcher.
    pub lookback_hours: Option<u32>,
    /// Decide on every candidate but persist nothing.
    pub dry_run: bool,
}

impl Default for SuggestionTickParams {
    fn default() -> (r: Self)
        ensures
            r == (SuggestionTickParams { now_ts_ns: None, lookback_hours: None, dry_run: false }),
    {
        SuggestionTickParams { now_ts_ns: None, lookback_hours: None, dry_run: false }
    }
}

/// What a tick reports.
#[derive(Debug, PartialEq, Eq)]
pub struct SuggestionTickResponse {
    pub now_ts_ns: u64,
    pub dry_run: bool,
    pub candidates_evaluated: u32,
    pub created: Vec<String>,
    pub expired: Vec<String>,
    pub abandoned: Vec<String>,
    pub decisions: Vec<GateDecisionRow>,
    pub config: SuggestionConfigEcho,
}

/// The writes of the creating pass, in order, and what the tick reports once they are done.
#[derive(Debug)]
pub struct SuggestionTickPlan {
    pub effects: Vec<TickEffect>,
    pub outcome: Result<SuggestionTickResponse, ToolError>,
}

/// The suppression verdict on a routine: what its state row says, or that it has none.
pub fn is_routine_suppressed(state_verdict: Result<Option<bool>, ToolError>) -> (r: Result<
    bool,
    ToolError,
>)
    ensures
        match state_verdict {
            Ok(Some(verdict)) => r == Ok::<bool, ToolError>(verdict),
            Ok(None) => r == Ok::<bool, ToolError>(false),
            Err(e) => r == Err::<bool, ToolError>(e),
        },
{
    match state_verdict {
        Ok(Some(verdict)) => Ok(verdict),
        Ok(None) => Ok(false),
        Err(e) => Err(e),
    }
}

/// Whether the tick may write: a dry run always may proceed, otherwise storage must not be under
/// pressure.
pub fn check_tick_pressure(permits_write: bool, pressure_level: &str, dry_run: bool) -> (r: Result<
    (),
    ToolError,
>)
    ensures
        if !permits_write && !dry_run {
            r matches Err(e) && e@ == tick_refused(pressure_level@)
        } else {
            r is Ok
        },
{
    if !permits_write && !dry_run {
        return Err(
            mcp_error(
                STORAGE_WRITE_FAILED,
                cat2(
                    "suggestion_tick refused under disk pressure: pressure_level=",
                    pressure_level,
                ),
            ),
        );
    }
    Ok(())
}

/// The instant that a tick is evaluated at: the one asked for, or the host clock's.
pub fn tick_instant(params: &SuggestionTickParams, host_now_ns: u64) -> (r: u64)
    ensures
        r == match params.now_ts_ns {
            Some(now) => now,
            None => host_now_ns,
        },
{
    match params.now_ts_ns {
        Some(now) => now,
        None => host_now_ns,
    }
}

/// The snapshot that a tick asks for: every candidate at the instant of the tick.
pub fn tick_intent_params(params: &SuggestionTickParams, now: u64) -> (r: IntentCurrentParams)
    ensures
        r == every_candidate(now, params.lookback_hours),
{
    ask_for_every_candidate(now, params.lookback_hours)
}

/// The error for a tick that storage pressure refuses.
pub open spec fn tick_refused(pressure_level: Seq<char>) -> ErrorView {
    ErrorView {
        code: STORAGE_WRITE_FAILED@,
        message: "suggestion_tick refused under disk pressure: pressure_level="@ + pressure_level,
    }
}

/// Starts a tick: checks the storage pressure, then takes the intents, then the stored
/// suggestions, and settles them. The first of the three that fails ends the tick.
pub fn begin_suggestion_tick<S, E>(
    now: u64,
    dry_run: bool,
    permits_write: bool,
    pressure_level: &str,
    intents: &Result<Vec<IntentCandidate<S, E>>, ToolError>,
    rows: &Result<Vec<StoredRow<SuggestionRecord>>, String>,
) -> (r: Result<SettledSuggestions, ToolError>)
    ensures
        if !permits_write && !dry_run {
            r matches Err(e) && e@ == tick_refused(pressure_level@)
        } else {
            match (intents, rows) {
                (Err(e), _) => r == Err::<SettledSuggestions, ToolError>(*e),
                (Ok(_), Err(detail)) => r matches Err(e) && e@ == storage_failure(detail@),
                (Ok(candidates), Ok(rows)) => match r {
                    Ok(settled) => exists|stored: Seq<SuggestionRecord>| #[trigger]
                        decodes_to(rows@, stored) && settled.settles(
                            suggestion_views(stored),
                            now,
                            candidate_routines(candidates@),
                            dry_run,
                        ),
                    Err(e) => exists|at: int| #[trigger]
                        fails_first_at(rows@, at) && e@ == row_decode_failure(
                            rows@[at].key@,
                            rows@[at].value->Err_0@,
                        ),
                },
            }
        },
{
    match check_tick_pressure(permits_write, pressure_level, dry_run) {
        Ok(()) => {},
        Err(e) => {
            return Err(e);
        },
    }
    let candidates = match intents {
        Ok(candidates) => candidates,
        Err(e) => {
            return Err(e.clone());
        },
    };
    match load_all_suggestions(rows) {
        Ok(stored) => Ok(settle_suggestions(stored, candidates, now, dry_run)),
        Err(e) => Err(e),
    }
}

/// Decides on every candidate and plans the writes of the suggestions that surface. `suppressed`
/// holds the cooldown verdict on each candidate's routine, read after the writes of the settling
/// pass were performed: the feedback among them bears on the verdicts. Where a verdict could not be
/// read, the plan keeps the writes of the candidates before it and reports that error.
pub fn suggestion_tick<S, E>(
    settled: SettledSuggestions,
    candidates: &Vec<IntentCandidate<S, E>>,
    suppressed: &Vec<Result<bool, ToolError>>,
    clock: TickClock,
    config: &SuggestionConfig,
) -> (r: SuggestionTickPlan)
    requires
        suppressed@.len() == candidates@.len(),
    ensures
        match r.outcome {
            Ok(response) => {
                let all = decide_all(
                    aggregates_of(suggestion_views(settled.suggestions@)),
                    candidate_views(candidates@),
                    verdicts(suppressed@),
                    clock,
                    *config,
                );
                &&& forall|i: int| 0 <= i < suppressed@.len() ==> (#[trigger] suppressed@[i]) is Ok
                &&& effect_views(r.effects@) == all.effects
                &&& response.now_ts_ns == clock.now_ts_ns
                &&& response.dry_run == clock.dry_run
                &&& response.candidates_evaluated == count32(candidates@.len() as int)
                &&& views(response.created@) == all.created
                &&& response.expired == settled.expired
                &&& response.abandoned == settled.abandoned
                &&& decision_views(response.decisions@) == all.decisions
                &&& echoes(response.config, *config)
            },
            Err(e) => exists|at: int| #[trigger]
                unreadable_first_at(suppressed@, at) && e@ == suppressed@[at]->Err_0@
                    && effect_views(r.effects@) == decide_all(
                    aggregates_of(suggestion_views(settled.suggestions@)),
                    candidate_views(candidates@).subrange(0, at),
                    verdicts(suppressed@).subrange(0, at),
                    clock,
                    *config,
                ).effects,
        },
{
    let ghost known = aggregates_of(suggestion_views(settled.suggestions@));
    let ghost all = candidate_views(candidates@);
    let ghost marks = verdicts(suppressed@);
    let mut live = build_aggregates(&settled.suggestions);
    let mut effects: Vec<TickEffect> = Vec::new();
    let mut created: Vec<String> = Vec::new();
    let mut decisions: Vec<GateDecisionRow> = Vec::new();
    let mut i: usize = 0;
    proof {
        assert(all.subrange(0, 0) =~= Seq::empty());
        assert(effect_views(effects@) =~= Seq::empty());
        assert(views(created@) =~= Seq::empty());
        assert(decision_views(decisions@) =~= Seq::empty());
    }
    while i < candidates.len()
        invariant
            i <= candidates@.len(),
            suppressed@.len() == candidates@.len(),
            all == candidate_views(candidates@),
            marks == verdicts(suppressed@),
            known == aggregates_of(suggestion_views(settled.suggestions@)),
            forall|k: int| 0 <= k < i ==> (#[trigger] suppressed@[k]) is Ok,
            ({
                let state = decide_all(
                    known,
                    all.subrange(0, i as int),
                    marks.subrange(0, i as int),
                    clock,
                    *config,
                );
                &&& live@ == state.known
                &&& views(created@) == state.created
                &&& decision_views(decisions@) == state.decisions
                &&& effect_views(effects@) == state.effects
            }),
        decreases candidates@.len() - i,
    {
        let ghost state = decide_all(
            known,
            all.subrange(0, i as int),
            marks.subrange(0, i as int),
            clock,
            *config,
        );
        let ghost old_effects = effects@;
        let verdict: bool = match &suppressed[i] {
            Ok(b) => *b,
            Err(e) => {
                assert(unreadable_first_at(suppressed@, i as int));
                assert(e@ == suppressed@[i as int]->Err_0@);
                return SuggestionTickPlan { effects, outcome: Err(e.clone()) };
            },
        };
        let candidate = &candidates[i];
        proof {
            let next = all.subrange(0, i + 1);
            let next_marks = marks.subrange(0, i + 1);
            assert(next.drop_last() =~= all.subrange(0, i as int));
            assert(next_marks.drop_last() =~= marks.subrange(0, i as int));
            assert(next.last() == candidate@);
            assert(next_marks.last() == verdict);
        }
        let outcome = gate_decision(
            candidate.routine_id.as_str(),
            candidate.confidence,
            candidate.lifecycle,
            verdict,
            clock.now_ts_ns,
            clock.minute_of_day,
            &live,
            config,
        );
        let mut created_id: Option<String> = None;
        if outcome == GateOutcome::Surface && !clock.dry_run {
            let record = build_suggestion(candidate, clock.now_ts_ns, config);
            live.live_routines.insert(record.routine_id.clone());
            live.last_created_by_routine.insert(record.routine_id.clone(), record.created_ts_ns);
            live.created_ts.push(record.created_ts_ns);
            created.push(record.suggestion_id.clone());
            created_id = Some(record.suggestion_id.clone());
            let ghost added = record@;
            effects.push(TickEffect::Write(record));
            proof {
                assert(effect_views(effects@) =~= effect_views(old_effects).push(
                    EffectView::Write(added),
                ));
                assert(added =~= suggestion_for(candidate@, clock.now_ts_ns, *config));
            }
        } else if outcome == GateOutcome::Surface {
            created_id = Some(cat2("(dry-run)", candidate.routine_id.as_str()));
        }
        decisions.push(
            GateDecisionRow {
                routine_id: candidate.routine_id.clone(),
                confidence: candidate.confidence,
                outcome,
                suggestion_id: created_id,
            },
        );
        proof {
            let after = decide_next(state, candidate@, verdict, clock, *config);
            assert(live@ =~= after.known);
            assert(views(created@) =~= after.created);
            assert(decision_views(decisions@) =~= after.decisions);
            assert(effect_views(effects@) =~= after.effects);
        }
        i += 1;
    }
    proof {
        assert(all.subrange(0, all.len() as int) =~= all);
        assert(marks.subrange(0, marks.len() as int) =~= marks);
    }
    let response = SuggestionTickResponse {
        now_ts_ns: clock.now_ts_ns,
        dry_run: clock.dry_run,
        candidates_evaluated: to_count32(candidates.len()),
        created,
        expired: settled.expired,
        abandoned: settled.abandoned,
        decisions,
        config: echo_config(config),
    };
    SuggestionTickPlan { effects, outcome: Ok(response) }
}

/// The verdict at the given position is the first that could not be read.
pub open spec fn unreadable_first_at(suppressed: Seq<Result<bool, ToolError>>, at: int) -> bool {
    &&& 0 <= at < suppressed.len()
    &&& forall|i: int| 0 <= i < at ==> (#[trigger] suppressed[i]) is Ok
    &&& suppressed[at] is Err
}

/// The local minute of the day of an instant.
pub fn local_minute_of_day(now_ns: u64) -> (r: Option<u32>)
    ensures
        r matches Some(minute) && minute < MINUTES_PER_DAY,
{
    match local_hour_minute(clock_secs(now_ns)) {
        Some((hour, minute)) => Some(minute_of_day(hour, minute)),
        None => None,
    }
}

/// A tick reads and writes storage.
pub fn required_permissions_tick(_params: &SuggestionTickParams) -> (r: RequiredPermissions)
    ensures
        r@ == seq![Permission::ReadStorage, Permission::WriteStorage],
{
    read_and_write()
}

// ---------------------------------------------------------------------------------------------
// Listing
// ---------------------------------------------------------------------------------------------

/// Which suggestions to list.
#[derive(Debug)]
pub struct SuggestionListParams {
    pub status: Option<SuggestionStatus>,
    pub routine_id: Option<String>,
    /// Maximum rows: 100 where absent, 1000 at most.
    pub limit: Option<u32>,
}

impl Default for SuggestionListParams {
    fn default() -> (r: Self)
        ensures
            r == (SuggestionListParams { status: None, routine_id: None, limit: None }),
    {
        SuggestionListParams { status: None, routine_id: None, limit: None }
    }
}

/// The listed suggestions, newest first.
#[derive(Debug, PartialEq, Eq)]
pub struct SuggestionListResponse {
    pub suggestions: Vec<SuggestionRecord>,
    pub total_rows: u64,
    pub returned: u64,
}

/// Listing reads storage.
pub fn required_permissions_list(_params: &SuggestionListParams) -> (r: RequiredPermissions)
    ensures
        r@ == seq![Permission::ReadStorage],
{
    read_only()
}

/// Whether a suggestion passes the filters.
pub open spec fn is_listed(r: SuggestionView, params: SuggestionListParams) -> bool {
    &&& params.status matches Some(status) ==> r.status == status
    &&& params.routine_id matches Some(routine_id) ==> r.routine_id == routine_id@
}

/// The suggestions that pass the filters, in order.
pub open spec fn listed(s: Seq<SuggestionView>, params: SuggestionListParams) -> Seq<SuggestionView>
    decreases s.len(),
{
    if s.len() == 0 {
        Seq::empty()
    } else if is_listed(s.last(), params) {
        listed(s.drop_last(), params).push(s.last())
    } else {
        listed(s.drop_last(), params)
    }
}

/// The creation instants of a list.
pub open spec fn creation_keys(s: Seq<SuggestionView>) -> Seq<int> {
    s.map_values(|r: SuggestionView| r.created_ts_ns as int)
}

/// The most rows that a listing returns.
pub open spec fn list_limit(params: SuggestionListParams) -> int {
    match params.limit {
        None => 100,
        Some(limit) => if limit <= 1000 {
            limit as int
        } else {
            1000
        },
    }
}

/// `rows` are the first of `kept` in the order newest first, as many as the limit allows.
pub open spec fn newest_first(
    kept: Seq<SuggestionView>,
    limit: int,
    rows: Seq<SuggestionView>,
) -> bool {
    exists|order: Seq<int>| #[trigger]
        is_descending_order(creation_keys(kept), order) && rows.len() == (if kept.len() <= limit {
            kept.len() as int
        } else {
            limit
        }) && forall|i: int| 0 <= i < rows.len() ==> #[trigger] rows[i] == kept[order[i]]
}

fn passes(record: &SuggestionRecord, params: &SuggestionListParams) -> (r: bool)
    ensures
        r == is_listed(record@, *params),
{
    let status_passes = match params.status {
        Some(status) => record.status == status,
        None => true,
    };
    let routine_passes = match &params.routine_id {
        Some(routine_id) => text_equal(record.routine_id.as_str(), routine_id.as_str()),
        None => true,
    };
    status_passes && routine_passes
}

/// The listing of the given suggestions.
pub open spec fn is_listing(
    all: Seq<SuggestionView>,
    params: SuggestionListParams,
    r: SuggestionListResponse,
) -> bool {
    &&& r.total_rows == all.len()
    &&& newest_first(listed(all, params), list_limit(params), suggestion_views(r.suggestions@))
    &&& r.returned == r.suggestions@.len()
}

/// Lists the suggestions among the rows that were read which pass the filters, newest first.
pub fn list_suggestions(
    rows: &Result<Vec<StoredRow<SuggestionRecord>>, String>,
    params: &SuggestionListParams,
) -> (r: Result<SuggestionListResponse, ToolError>)
    ensures
        match rows {
            Err(detail) => r matches Err(e) && e@ == storage_failure(detail@),
            Ok(rows) => match r {
                Ok(listing) => exists|stored: Seq<SuggestionRecord>| #[trigger]
                    decodes_to(rows@, stored) && is_listing(
                        suggestion_views(stored),
                        *params,
                        listing,
                    ),
                Err(e) => exists|at: int| #[trigger]
                    fails_first_at(rows@, at) && e@ == row_decode_failure(
                        rows@[at].key@,
                        rows@[at].value->Err_0@,
                    ),
            },
        },
{
    match load_all_suggestions(rows) {
        Ok(stored) => Ok(listing_of(&stored, params)),
        Err(e) => Err(e),
    }
}

fn listing_of(all: &Vec<SuggestionRecord>, params: &SuggestionListParams) -> (r:
    SuggestionListResponse)
    ensures
        is_listing(suggestion_views(all@), *params, r),
{
    let limit: usize = match params.limit {
        None => 100,
        Some(limit) => if limit <= 1000 {
            limit as usize
        } else {
            1000
        },
    };
    let ghost views = suggestion_views(all@);
    let mut kept: Vec<usize> = Vec::new();
    let mut keys: Vec<i128> = Vec::new();
    let mut i: usize = 0;
    assert(views.subrange(0, 0) =~= Seq::empty());
    while i < all.len()
        invariant
            i <= all@.len(),
            views == suggestion_views(all@),
            kept@.len() == keys@.len(),
            kept@.len() == listed(views.subrange(0, i as int), *params).len(),
            forall|k: int|
                0 <= k < kept@.len() ==> (#[trigger] kept@[k]) < all@.len() && listed(
                    views.subrange(0, i as int),
                    *params,
                )[k] == all@[kept@[k] as int]@,
            forall|k: int|
                0 <= k < kept@.len() ==> #[trigger] keys@[k]
                    == all@[kept@[k] as int].created_ts_ns,
        decreases all@.len() - i,
    {
        proof {
            assert(views.subrange(0, i + 1).drop_last() =~= views.subrange(0, i as int));
            assert(views.subrange(0, i + 1).last() == all@[i as int]@);
        }
        if passes(&all[i], params) {
            kept.push(i);
            keys.push(all[i].created_ts_ns as i128);
        }
        i += 1;
    }
    assert(views.subrange(0, views.len() as int) =~= views);
    let ghost rows = listed(views, *params);
    let order = descending_order(&keys);
    proof {
        assert(ints(keys@) =~= creation_keys(rows));
    }
    let mut suggestions: Vec<SuggestionRecord> = Vec::new();
    let mut k: usize = 0;
    while k < order.len() && k < limit
        invariant
            k <= order@.len(),
            k <= limit,
            suggestions@.len() == k,
            order@.len() == kept@.len(),
            order@.len() == rows.len(),
            forall|j: int| 0 <= j < order@.len() ==> (#[trigger] order@[j]) < kept@.len(),
            forall|j: int|
                0 <= j < kept@.len() ==> (#[trigger] kept@[j]) < all@.len() && rows[j]
                    == all@[kept@[j] as int]@,
            forall|j: int|
                0 <= j < k ==> #[trigger] suggestion_views(suggestions@)[j] == rows[order@[j] as int],
        decreases order@.len() - k,
    {
        let ghost before = suggestions@;
        let at: usize = kept[order[k]];
        suggestions.push(all[at].clone());
        proof {
            assert forall|j: int| 0 <= j < k + 1 implies #[trigger] suggestion_views(
                suggestions@,
            )[j] == rows[order@[j] as int] by {
                if j < k {
                    assert(suggestion_views(before)[j] == rows[order@[j] as int]);
                }
            }
        }
        k += 1;
    }
    proof {
        assert forall|j: int| 0 <= j < suggestion_views(suggestions@).len() implies #[trigger] suggestion_views(
            suggestions@,
        )[j] == rows[positions(order@)[j]] by {}
        assert(is_descending_order(creation_keys(rows), positions(order@)));
    }
    let returned: u64 = suggestions.len() as u64;
    SuggestionListResponse { suggestions, total_rows: all.len() as u64, returned }
}

// ---------------------------------------------------------------------------------------------
// Laws
// ---------------------------------------------------------------------------------------------

/// A candidate surfaces exactly if no gate holds it back.
pub proof fn law_surfacing_passes_every_gate(
    routine_id: Seq<char>,
    confidence: Real64,
    lifecycle: RoutineLifecycle,
    suppressed: bool,
    now: u64,
    minute: Option<u32>,
    known: AggregatesView,
    config: SuggestionConfig,
)
    ensures
        gate(routine_id, confidence, lifecycle, suppressed, now, minute, known, config) is Surface
            <==> {
            &&& !is_retired(lifecycle)
            &&& !confidence.is_less(config.min_confidence)
            &&& !suppressed
            &&& (minute matches Some(m) ==> !is_quiet(m, config.quiet_hours))
            &&& !known.live.contains(routine_id)
            &&& is_spaced_out(known.last_created, routine_id, now, config)
            &&& count32(created_in_window(known.created, now, config) as int) < config.global_max
        },
{
}

/// Quiet hours that wrap past midnight are quiet exactly outside the daytime between their end
/// and their start; those that do not wrap are quiet exactly between start and end.
pub proof fn law_quiet_hours_wrap(minute: u32, start: u32, end: u32)
    ensures
        start > end ==> (is_quiet(minute, Some((start, end))) <==> !(end <= minute < start)),
        start <= end ==> (is_quiet(minute, Some((start, end))) <==> start <= minute < end),
        start > end ==> is_quiet(minute, Some((start, end))) == !is_quiet(
            minute,
            Some((end, start)),
        ),
{
}

/// Settling leaves no live suggestion whose time is up or whose routine left the intents, and
/// settling again at the same instant changes nothing.
pub proof fn law_settling_is_final(r: SuggestionView, now: u64, intents: Set<Seq<char>>)
    ensures
        !times_out(settled(r, now, intents), now),
        !is_dropped(settled(r, now, intents), now, intents),
        settled(settled(r, now, intents), now, intents) == settled(r, now, intents),
        r.status !is Live ==> settled(r, now, intents) == r,
{
}

/// Settling has two effects for every suggestion that it ends, and none besides; a dry run has none.
pub proof fn law_settling_feeds_back_each_ending(
    s: Seq<SuggestionView>,
    now: u64,
    intents: Set<Seq<char>>,
)
    ensures
        all_settle_effects(s, now, intents, false).len() == 2 * (expired_ids(s, now).len()
            + abandoned_ids(s, now, intents).len()),
        all_settle_effects(s, now, intents, true).len() == 0,
    decreases s.len(),
{
    if s.len() > 0 {
        law_settling_feeds_back_each_ending(s.drop_last(), now, intents);
    }
}

/// A dry run writes nothing and counts nothing.
pub proof fn law_dry_run_writes_nothing(
    known: AggregatesView,
    candidates: Seq<IntentCandidateView>,
    suppressed: Seq<bool>,
    clock: TickClock,
    config: SuggestionConfig,
)
    requires
        clock.dry_run,
    ensures
        decide_all(known, candidates, suppressed, clock, config).effects.len() == 0,
        decide_all(known, candidates, suppressed, clock, config).created.len() == 0,
        decide_all(known, candidates, suppressed, clock, config).known == known,
    decreases candidates.len(),
{
    if candidates.len() > 0 {
        law_dry_run_writes_nothing(
            known,
            candidates.drop_last(),
            suppressed.drop_last(),
            clock,
            config,
        );
    }
}

/// Every candidate gets exactly one decision, in order.
pub proof fn law_every_candidate_is_decided(
    known: AggregatesView,
    candidates: Seq<IntentCandidateView>,
    suppressed: Seq<bool>,
    clock: TickClock,
    config: SuggestionConfig,
)
    ensures
        decide_all(known, candidates, suppressed, clock, config).decisions.len()
            == candidates.len(),
        forall|i: int|
            0 <= i < candidates.len() ==> (#[trigger] decide_all(
                known,
                candidates,
                suppressed,
                clock,
                config,
            ).decisions[i]).routine_id == candidates[i].routine_id,
    decreases candidates.len(),
{
    if candidates.len() > 0 {
        law_every_candidate_is_decided(
            known,
            candidates.drop_last(),
            suppressed.drop_last(),
            clock,
            config,
        );
    }
}

/// Creating never lifts the count of a global window above the cap: the count afterwards is at
/// most the cap, or what it was before.
pub proof fn law_global_cap_holds(
    known: AggregatesView,
    candidates: Seq<IntentCandidateView>,
    suppressed: Seq<bool>,
    clock: TickClock,
    config: SuggestionConfig,
)
    ensures
        ({
            let after = decide_all(known, candidates, suppressed, clock, config).known;
            let counted = created_in_window(after.created, clock.now_ts_ns, config);
            counted <= config.global_max || counted == created_in_window(
                known.created,
                clock.now_ts_ns,
                config,
            )
        }),
    decreases candidates.len(),
{
    if candidates.len() > 0 {
        let before = decide_all(
            known,
            candidates.drop_last(),
            suppressed.drop_last(),
            clock,
            config,
        );
        law_global_cap_holds(
            known,
            candidates.drop_last(),
            suppressed.drop_last(),
            clock,
            config,
        );
        let after = decide_next(before, candidates.last(), suppressed.last(), clock, config);
        if after.known.created != before.known.created {
            assert(after.known.created.drop_last() =~= before.known.created);
        }
    }
}

/// No two live suggestions of the list belong to the same routine.
pub open spec fn one_live_per_routine(s: Seq<SuggestionView>) -> bool {
    forall|i: int, j: int|
        0 <= i < j < s.len() && (#[trigger] s[i]).status is Live && (#[trigger] s[j]).status is Live
            ==> s[i].routine_id != s[j].routine_id
}

/// The suggestions that a list of writes stores.
pub open spec fn written(effects: Seq<EffectView>) -> Seq<SuggestionView>
    decreases effects.len(),
{
    if effects.len() == 0 {
        Seq::empty()
    } else {
        match effects.last() {
            EffectView::Write(record) => written(effects.drop_last()).push(record),
            _ => written(effects.drop_last()),
        }
    }
}

/// The live set of the aggregates covers every live suggestion of the list.
pub open spec fn covers_live(known: AggregatesView, s: Seq<SuggestionView>) -> bool {
    forall|i: int|
        0 <= i < s.len() && (#[trigger] s[i]).status is Live ==> known.live.contains(
            s[i].routine_id,
        )
}

proof fn lemma_aggregates_cover_live(s: Seq<SuggestionView>)
    ensures
        covers_live(aggregates_of(s), s),
    decreases s.len(),
{
    if s.len() > 0 {
        let rest = s.drop_last();
        lemma_aggregates_cover_live(rest);
        assert forall|i: int| 0 <= i < s.len() && (#[trigger] s[i]).status is Live implies aggregates_of(
            s,
        ).live.contains(s[i].routine_id) by {
            if i < rest.len() {
                assert(rest[i].status is Live);
                assert(aggregates_of(rest).live.contains(rest[i].routine_id));
            }
        }
    }
}

proof fn lemma_creation_keeps_one_live(
    stored: Seq<SuggestionView>,
    known: AggregatesView,
    candidates: Seq<IntentCandidateView>,
    suppressed: Seq<bool>,
    clock: TickClock,
    config: SuggestionConfig,
)
    requires
        one_live_per_routine(stored),
        covers_live(known, stored),
    ensures
        ({
            let after = decide_all(known, candidates, suppressed, clock, config);
            let all = stored + written(after.effects);
            one_live_per_routine(all) && covers_live(after.known, all)
        }),
    decreases candidates.len(),
{
    let after = decide_all(known, candidates, suppressed, clock, config);
    if candidates.len() == 0 {
        assert(stored + written(after.effects) =~= stored);
    } else {
        let before = decide_all(
            known,
            candidates.drop_last(),
            suppressed.drop_last(),
            clock,
            config,
        );
        lemma_creation_keeps_one_live(
            stored,
            known,
            candidates.drop_last(),
            suppressed.drop_last(),
            clock,
            config,
        );
        let old_all = stored + written(before.effects);
        if after.effects != before.effects {
            let record = suggestion_for(candidates.last(), clock.now_ts_ns, config);
            assert(after.effects == before.effects.push(EffectView::Write(record)));
            assert(after.effects.drop_last() =~= before.effects);
            assert(written(after.effects) == written(before.effects).push(record));
            let all = stored + written(after.effects);
            assert(all =~= old_all.push(record));
            assert forall|i: int, j: int|
                0 <= i < j < all.len() && (#[trigger] all[i]).status is Live && (
                #[trigger] all[j]).status is Live implies all[i].routine_id
                != all[j].routine_id by {
                if j == old_all.len() {
                    assert(old_all[i].status is Live);
                    assert(before.known.live.contains(old_all[i].routine_id));
                    assert(!before.known.live.contains(record.routine_id));
                } else {
                    assert(old_all[i].status is Live && old_all[j].status is Live);
                }
            }
            assert forall|i: int| 0 <= i < all.len() && (
            #[trigger] all[i]).status is Live implies after.known.live.contains(all[i].routine_id) by {
                if i < old_all.len() {
                    assert(old_all[i].status is Live);
                    assert(before.known.live.contains(old_all[i].routine_id));
                }
            }
        }
    }
}

/// A tick over suggestions with at most one live suggestion per routine leaves at most one live
/// suggestion per routine, counting those that it creates.
pub proof fn law_one_live_suggestion_per_routine(
    stored: Seq<SuggestionView>,
    candidates: Seq<IntentCandidateView>,
    suppressed: Seq<bool>,
    clock: TickClock,
    config: SuggestionConfig,
)
    requires
        one_live_per_routine(stored),
    ensures
        one_live_per_routine(
            stored + written(
                decide_all(
                    aggregates_of(stored),
                    candidates,
                    suppressed,
                    clock,
                    config,
                ).effects,
            ),
        ),
{
    lemma_aggregates_cover_live(stored);
    lemma_creation_keeps_one_live(
        stored,
        aggregates_of(stored),
        candidates,
        suppressed,
        clock,
        config,
    );
}

/// Settling keeps at most one live suggestion per routine.
pub proof fn law_settling_keeps_one_live(
    s: Seq<SuggestionView>,
    now: u64,
    intents: Set<Seq<char>>,
)
    requires
        one_live_per_routine(s),
    ensures
        one_live_per_routine(all_settled(s, now, intents)),
{
    let after = all_settled(s, now, intents);
    assert forall|i: int, j: int|
        0 <= i < j < after.len() && (#[trigger] after[i]).status is Live && (
        #[trigger] after[j]).status is Live implies after[i].routine_id != after[j].routine_id by {
        assert(s[i].status is Live && s[j].status is Live);
    }
}

/// A store that gives back what it was given confirms every write, unless the confidence is no
/// number.
pub proof fn law_written_suggestion_reads_back(
    record: SuggestionRecord,
    rows: Vec<StoredRow<SuggestionRecord>>,
    r: Result<(), ToolError>,
)
    requires
        !record.confidence.is_nan(),
        rows@.len() > 0,
        rows@[0].value matches Ok(readback) && readback@ == record@,
        is_confirmation(record, Ok(rows), r),
    ensures
        r is Ok,
{
}

proof fn lemma_recent_are_counted(created: Seq<u64>, now: u64, secs: u64)
    ensures
        count_since(created, floor_sub(now as int, window_ns(secs))) == created.filter(
            |c: u64| c + secs * 1_000_000_000 >= now,
        ).len(),
    decreases created.len(),
{
    reveal(Seq::filter);
    if created.len() > 0 {
        lemma_recent_are_counted(created.drop_last(), now, secs);
    }
}

/// What each gate holds back, in the order in which the gates are asked. A routine that is disabled or
/// archived never surfaces; nor does a confidence below the threshold, a routine in its cooldown, a
/// minute within the quiet hours, a routine with a live suggestion, one whose last suggestion is
/// younger than the spacing asked for, and any at all where as many suggestions as the cap allows were
/// created in the global window. Whatever none of these holds back surfaces. (The very last instant
/// that can be named is left out, at which a spacing beyond it is cut off.)
pub proof fn law_gates_hold_back_what_they_are_for(
    routine_id: Seq<char>,
    confidence: Real64,
    lifecycle: RoutineLifecycle,
    suppressed: bool,
    now: u64,
    minute: Option<u32>,
    known: AggregatesView,
    config: SuggestionConfig,
)
    requires
        now < u64::MAX,
    ensures
        ({
            let r = gate(
                routine_id,
                confidence,
                lifecycle,
                suppressed,
                now,
                minute,
                known,
                config,
            );
            let retired = lifecycle == RoutineLifecycle::Disabled || lifecycle
                == RoutineLifecycle::Archived;
            let weak = confidence.is_less(config.min_confidence);
            let quiet = match (minute, config.quiet_hours) {
                (Some(m), Some((start, end))) => (start <= m && m < end) || (end < start && (m
                    >= start || m < end)),
                _ => false,
            };
            let live = known.live.contains(routine_id);
            let young = config.per_routine_window_secs > 0 && known.last_created.contains_key(
                routine_id,
            ) && now - known.last_created[routine_id] < config.per_routine_window_secs
                * 1_000_000_000;
            let full = known.created.filter(
                |c: u64| c + config.global_window_secs * 1_000_000_000 >= now,
            ).len() >= config.global_max;
            &&& r == GateOutcome::DisabledRoutine <==> retired
            &&& r == GateOutcome::BelowThreshold <==> !retired && weak
            &&& r == GateOutcome::SuppressedCooldown <==> !retired && !weak && suppressed
            &&& r == GateOutcome::QuietHours <==> !retired && !weak && !suppressed && quiet
            &&& r == GateOutcome::DuplicateLive <==> !retired && !weak && !suppressed && !quiet
                && live
            &&& r == GateOutcome::PerRoutineCap <==> !retired && !weak && !suppressed && !quiet
                && !live && young
            &&& r == GateOutcome::GlobalCap <==> !retired && !weak && !suppressed && !quiet && !live
                && !young && full
            &&& r == GateOutcome::Surface <==> !retired && !weak && !suppressed && !quiet && !live
                && !young && !full
        }),
{
    lemma_recent_are_counted(known.created, now, config.global_window_secs);
}

/// What is known of a list of suggestions: the routines that have a live one, the creation of each, and
/// for each routine the creation of its latest.
pub proof fn law_aggregates_sum_up_the_suggestions(s: Seq<SuggestionView>, id: Seq<char>)
    ensures
        ({
            let known = aggregates_of(s);
            &&& known.live.contains(id) <==> exists|i: int|
                0 <= i < s.len() && (#[trigger] s[i]).status == SuggestionStatus::Live
                    && s[i].routine_id == id
            &&& known.last_created.contains_key(id) <==> exists|i: int|
                0 <= i < s.len() && (#[trigger] s[i]).routine_id == id
            &&& known.last_created.contains_key(id) ==> exists|i: int|
                0 <= i < s.len() && (#[trigger] s[i]).routine_id == id && s[i].created_ts_ns
                    == known.last_created[id]
            &&& forall|i: int|
                0 <= i < s.len() && (#[trigger] s[i]).routine_id == id ==> s[i].created_ts_ns
                    <= known.last_created[id]
            &&& known.created.len() == s.len()
            &&& forall|i: int|
                0 <= i < s.len() ==> #[trigger] known.created[i] == s[i].created_ts_ns
        }),
    decreases s.len(),
{
    if s.len() > 0 {
        let rest = s.drop_last();
        law_aggregates_sum_up_the_suggestions(rest, id);
        let before = aggregates_of(rest);
        let known = aggregates_of(s);
        let last = s.last();
        assert(s[s.len() - 1] == last);
        assert forall|i: int| 0 <= i < rest.len() implies rest[i] == #[trigger] s[i] by {}
        if before.live.contains(id) {
            let i = choose|i: int|
                0 <= i < rest.len() && (#[trigger] rest[i]).status == SuggestionStatus::Live
                    && rest[i].routine_id == id;
            assert(s[i].status == SuggestionStatus::Live && s[i].routine_id == id);
        }
        if before.last_created.contains_key(id) {
            let i = choose|i: int|
                0 <= i < rest.len() && (#[trigger] rest[i]).routine_id == id
                    && rest[i].created_ts_ns == before.last_created[id];
            assert(s[i].routine_id == id && s[i].created_ts_ns == before.last_created[id]);
        }
        assert forall|i: int| 0 <= i < s.len() && (#[trigger] s[i]).routine_id == id implies s[i]
            .created_ts_ns <= known.last_created[id] by {
            if i < rest.len() {
                assert(rest[i].routine_id == id);
            }
        }
        assert forall|i: int| 0 <= i < s.len() implies #[trigger] known.created[i]
            == s[i].created_ts_ns by {
            if i < rest.len() {
                assert(before.created[i] == rest[i].created_ts_ns);
            }
        }
    }
}

/// The last creation that is known of each routine of the list is none of an earlier instant, and a
/// routine written in this tick is known as live.
pub open spec fn covers_creations(
    known: AggregatesView,
    all: Seq<SuggestionView>,
    stored: int,
) -> bool {
    &&& forall|i: int|
        0 <= i < all.len() ==> known.last_created.contains_key((#[trigger] all[i]).routine_id)
            && all[i].created_ts_ns <= known.last_created[all[i].routine_id]
    &&& forall|i: int|
        stored <= i < all.len() ==> known.live.contains((#[trigger] all[i]).routine_id)
}

proof fn lemma_creations_are_spaced(
    stored: Seq<SuggestionView>,
    known: AggregatesView,
    candidates: Seq<IntentCandidateView>,
    suppressed: Seq<bool>,
    clock: TickClock,
    config: SuggestionConfig,
)
    requires
        clock.now_ts_ns < u64::MAX,
        covers_creations(known, stored, stored.len() as int),
    ensures
        ({
            let after = decide_all(known, candidates, suppressed, clock, config);
            let all = stored + written(after.effects);
            &&& config.per_routine_window_secs > 0 ==> covers_creations(
                after.known,
                all,
                stored.len() as int,
            )
            &&& forall|i: int, j: int|
                0 <= i < j < all.len() && stored.len() <= j && config.per_routine_window_secs > 0
                    && (#[trigger] all[i]).routine_id == (#[trigger] all[j]).routine_id ==> all[j]
                    .created_ts_ns - all[i].created_ts_ns >= config.per_routine_window_secs
                    * 1_000_000_000
        }),
    decreases candidates.len(),
{
    let after = decide_all(known, candidates, suppressed, clock, config);
    if candidates.len() == 0 {
        assert(stored + written(after.effects) =~= stored);
    } else {
        let before = decide_all(
            known,
            candidates.drop_last(),
            suppressed.drop_last(),
            clock,
            config,
        );
        lemma_creations_are_spaced(
            stored,
            known,
            candidates.drop_last(),
            suppressed.drop_last(),
            clock,
            config,
        );
        let candidate = candidates.last();
        law_gates_hold_back_what_they_are_for(
            candidate.routine_id,
            candidate.confidence,
            candidate.lifecycle,
            suppressed.last(),
            clock.now_ts_ns,
            clock.minute_of_day,
            before.known,
            config,
        );
        let old_all = stored + written(before.effects);
        if after.effects != before.effects && config.per_routine_window_secs > 0 {
            let record = suggestion_for(candidate, clock.now_ts_ns, config);
            assert(after.effects == before.effects.push(EffectView::Write(record)));
            assert(after.effects.drop_last() =~= before.effects);
            assert(written(after.effects) == written(before.effects).push(record));
            let all = stored + written(after.effects);
            assert(all =~= old_all.push(record));
            assert forall|i: int| 0 <= i < all.len() implies after.known.last_created.contains_key(
                (#[trigger] all[i]).routine_id,
            ) && all[i].created_ts_ns <= after.known.last_created[all[i].routine_id] by {
                if i < old_all.len() {
                    assert(before.known.last_created.contains_key(old_all[i].routine_id));
                }
            }
            assert forall|i: int| stored.len() <= i < all.len() implies after.known.live.contains(
                (#[trigger] all[i]).routine_id,
            ) by {
                if i < old_all.len() {
                    assert(before.known.live.contains(old_all[i].routine_id));
                }
            }
            assert forall|i: int, j: int|
                0 <= i < j < all.len() && stored.len() <= j && (#[trigger] all[i]).routine_id == (
                #[trigger] all[j]).routine_id implies all[j].created_ts_ns - all[i].created_ts_ns
                >= config.per_routine_window_secs * 1_000_000_000 by {
                if j < old_all.len() {
                    assert(old_all[i].routine_id == old_all[j].routine_id);
                } else {
                    assert(before.known.last_created.contains_key(old_all[i].routine_id));
                }
            }
        } else {
            assert(after.known == before.known || config.per_routine_window_secs == 0);
        }
    }
}

/// Suggestions of a routine are spaced out: any two of them, stored or written by a tick, of which the
/// tick wrote the later one, were created at least as many seconds apart as the spacing asks for,
/// however long the global window is.
pub proof fn law_suggestions_of_a_routine_are_spaced_out(
    stored: Seq<SuggestionView>,
    candidates: Seq<IntentCandidateView>,
    suppressed: Seq<bool>,
    clock: TickClock,
    config: SuggestionConfig,
    i: int,
    j: int,
)
    requires
        clock.now_ts_ns < u64::MAX,
        config.per_routine_window_secs > 0,
    ensures
        ({
            let all = stored + written(
                decide_all(
                    aggregates_of(stored),
                    candidates,
                    suppressed,
                    clock,
                    config,
                ).effects,
            );
            0 <= i < j < all.len() && stored.len() <= j && all[i].routine_id == all[j].routine_id
                ==> all[j].created_ts_ns - all[i].created_ts_ns >= config.per_routine_window_secs
                * 1_000_000_000
        }),
{
    let known = aggregates_of(stored);
    assert forall|k: int| 0 <= k < stored.len() implies known.last_created.contains_key(
        (#[trigger] stored[k]).routine_id,
    ) && stored[k].created_ts_ns <= known.last_created[stored[k].routine_id] by {
        law_aggregates_sum_up_the_suggestions(stored, stored[k].routine_id);
    }
    lemma_creations_are_spaced(stored, known, candidates, suppressed, clock, config);
}

/// A suggestion tells of its candidate as it was: created at the instant of the tick, live, running out
/// as many seconds later as the configuration says, with the candidate's routine, label, confidence
/// and numbers of steps.
pub proof fn law_suggestions_tell_of_their_candidate(
    candidate: IntentCandidateView,
    now: u64,
    config: SuggestionConfig,
)
    ensures
        ({
            let r = suggestion_for(candidate, now, config);
            &&& r.record_version == 1
            &&& r.routine_id == candidate.routine_id
            &&& r.label == candidate.label
            &&& r.confidence == candidate.confidence
            &&& r.status == SuggestionStatus::Live
            &&& r.created_ts_ns == now
            &&& now + config.expiry_secs * 1_000_000_000 <= u64::MAX ==> r.expiry_ts_ns - now
                == config.expiry_secs * 1_000_000_000
            &&& now + config.expiry_secs * 1_000_000_000 > u64::MAX ==> r.expiry_ts_ns == u64::MAX
            &&& candidate.matched_prefix_len <= u32::MAX ==> r.matched_prefix_len
                == candidate.matched_prefix_len
            &&& candidate.total_steps <= u32::MAX ==> r.total_steps == candidate.total_steps
            &&& candidate.remaining_step_count <= u32::MAX ==> r.remaining_step_count
                == candidate.remaining_step_count
            &&& candidate.matched_prefix_len > u32::MAX ==> r.matched_prefix_len == u32::MAX
            &&& candidate.total_steps > u32::MAX ==> r.total_steps == u32::MAX
            &&& candidate.remaining_step_count > u32::MAX ==> r.remaining_step_count == u32::MAX
            &&& r.proposed_plan_ref is None && r.resolved_ts_ns is None && r.resolution_note is None
            &&& r.suggestion_id == "sg1-"@ + candidate.routine_id + "-"@ + zero_padded(
                now as nat,
                20,
            )
        }),
{
}

/// How a live suggestion ends: it times out from its expiry on, whatever the operator is doing; before
/// that it is abandoned where its routine is not among the intents, and otherwise stays as it is. One
/// that ended before stays as it was, and an ending changes nothing but the status, its instant and
/// its note.
pub proof fn law_live_suggestions_end_in_time(
    r: SuggestionView,
    now: u64,
    intents: Set<Seq<char>>,
)
    ensures
        ({
            let after = settled(r, now, intents);
            let live = r.status == SuggestionStatus::Live;
            let ended = SuggestionView {
                status: after.status,
                resolved_ts_ns: Some(now),
                resolution_note: after.resolution_note,
                ..r
            };
            &&& live && r.expiry_ts_ns <= now ==> after.status == SuggestionStatus::Expired && after
                == ended && after.resolution_note == Some("timed out unanswered"@)
            &&& live && r.expiry_ts_ns > now && !intents.contains(r.routine_id) ==> after.status
                == SuggestionStatus::Abandoned && after == ended && after.resolution_note == Some(
                "routine left the live intent set"@,
            )
            &&& !live || (r.expiry_ts_ns > now && intents.contains(r.routine_id)) ==> after == r
        }),
{
}

/// The suggestions that settling ends: each of the list that is live and whose time is up is reported
/// as expired, and each that is live in time but whose routine left the intents as abandoned; no
/// other id is reported.
pub proof fn law_endings_are_reported(
    s: Seq<SuggestionView>,
    now: u64,
    intents: Set<Seq<char>>,
    id: Seq<char>,
)
    ensures
        expired_ids(s, now).contains(id) <==> exists|i: int|
            0 <= i < s.len() && (#[trigger] s[i]).status == SuggestionStatus::Live
                && s[i].expiry_ts_ns <= now && s[i].suggestion_id == id,
        abandoned_ids(s, now, intents).contains(id) <==> exists|i: int|
            0 <= i < s.len() && (#[trigger] s[i]).status == SuggestionStatus::Live
                && s[i].expiry_ts_ns > now && !intents.contains(s[i].routine_id)
                && s[i].suggestion_id == id,
    decreases s.len(),
{
    if s.len() > 0 {
        let rest = s.drop_last();
        let last = s.last();
        law_endings_are_reported(rest, now, intents, id);
        assert(s[s.len() - 1] == last);
        assert forall|i: int| 0 <= i < rest.len() implies rest[i] == #[trigger] s[i] by {}
        let expired = expired_ids(rest, now);
        let abandoned = abandoned_ids(rest, now, intents);
        if times_out(last, now) {
            assert(expired_ids(s, now) == expired.push(last.suggestion_id));
            assert(expired.push(last.suggestion_id)[expired.len() as int] == last.suggestion_id);
            lemma_pushed(expired, last.suggestion_id, id);
        }
        if is_dropped(last, now, intents) {
            assert(abandoned_ids(s, now, intents) == abandoned.push(last.suggestion_id));
            lemma_pushed(abandoned, last.suggestion_id, id);
        }
        if exists|i: int|
            0 <= i < rest.len() && (#[trigger] rest[i]).status == SuggestionStatus::Live
                && rest[i].expiry_ts_ns <= now && rest[i].suggestion_id == id {
            let i = choose|i: int|
                0 <= i < rest.len() && (#[trigger] rest[i]).status == SuggestionStatus::Live
                    && rest[i].expiry_ts_ns <= now && rest[i].suggestion_id == id;
            assert(s[i] == rest[i]);
        }
        if exists|i: int|
            0 <= i < rest.len() && (#[trigger] rest[i]).status == SuggestionStatus::Live
                && rest[i].expiry_ts_ns > now && !intents.contains(rest[i].routine_id)
                && rest[i].suggestion_id == id {
            let i = choose|i: int|
                0 <= i < rest.len() && (#[trigger] rest[i]).status == SuggestionStatus::Live
                    && rest[i].expiry_ts_ns > now && !intents.contains(rest[i].routine_id)
                    && rest[i].suggestion_id == id;
            assert(s[i] == rest[i]);
        }
    }
}

proof fn lemma_pushed(s: Seq<Seq<char>>, x: Seq<char>, id: Seq<char>)
    ensures
        s.push(x).contains(id) <==> s.contains(id) || x == id,
{
    if s.contains(id) {
        let i = choose|i: int| 0 <= i < s.len() && s[i] == id;
        assert(s.push(x)[i] == id);
    }
    if x == id {
        assert(s.push(x)[s.len() as int] == id);
    }
}

/// Every ending is written and told of: the suggestion as it ended is written, and right behind it the
/// routine is told that it timed out or was abandoned, at that instant and by the engine.
pub proof fn law_endings_are_written_and_told_of(
    s: Seq<SuggestionView>,
    now: u64,
    intents: Set<Seq<char>>,
    i: int,
)
    requires
        0 <= i < s.len(),
        s[i].status == SuggestionStatus::Live,
        s[i].expiry_ts_ns <= now || !intents.contains(s[i].routine_id),
    ensures
        ({
            let effects = all_settle_effects(s, now, intents, false);
            exists|k: int|
                0 <= k < effects.len() - 1 && #[trigger] effects[k] == EffectView::Write(
                    all_settled(s, now, intents)[i],
                ) && effects[k + 1] == (EffectView::Feedback {
                    routine_id: s[i].routine_id,
                    outcome: if s[i].expiry_ts_ns <= now {
                        RoutineFeedbackOutcome::IgnoredTimeout
                    } else {
                        RoutineFeedbackOutcome::Abandoned
                    },
                    note: if s[i].expiry_ts_ns <= now {
                        "suggestion expired (timeout)"@
                    } else {
                        "suggestion abandoned (intent dropped)"@
                    },
                    now_ts_ns: now,
                    actor: "suggestion-engine"@,
                })
        }),
    decreases s.len(),
{
    let rest = s.drop_last();
    let before = all_settle_effects(rest, now, intents, false);
    let added = settle_effects(s.last(), now, intents);
    let effects = all_settle_effects(s, now, intents, false);
    assert(effects == before + added);
    assert(all_settled(s, now, intents)[i] == settled(s[i], now, intents));
    if i < rest.len() {
        law_endings_are_written_and_told_of(rest, now, intents, i);
        assert(all_settled(rest, now, intents)[i] == settled(rest[i], now, intents));
        let k = choose|k: int|
            0 <= k < before.len() - 1 && #[trigger] before[k] == EffectView::Write(
                all_settled(rest, now, intents)[i],
            ) && before[k + 1] == (EffectView::Feedback {
                routine_id: rest[i].routine_id,
                outcome: if rest[i].expiry_ts_ns <= now {
                    RoutineFeedbackOutcome::IgnoredTimeout
                } else {
                    RoutineFeedbackOutcome::Abandoned
                },
                note: if rest[i].expiry_ts_ns <= now {
                    "suggestion expired (timeout)"@
                } else {
                    "suggestion abandoned (intent dropped)"@
                },
                now_ts_ns: now,
                actor: "suggestion-engine"@,
            });
        assert(effects[k] == before[k] && effects[k + 1] == before[k + 1]);
    } else {
        let k = before.len() as int;
        assert(effects[k] == added[0] && effects[k + 1] == added[1]);
    }
}

/// What a tick decides and writes for its candidate at a position: the outcome that the gates give for
/// it, and where it surfaces outside a dry run the suggestion of that candidate, under whose id it is
/// reported.
pub proof fn law_surfacing_candidates_are_written(
    known: AggregatesView,
    candidates: Seq<IntentCandidateView>,
    suppressed: Seq<bool>,
    clock: TickClock,
    config: SuggestionConfig,
    i: int,
)
    requires
        0 <= i < candidates.len(),
        suppressed.len() == candidates.len(),
    ensures
        ({
            let all = decide_all(known, candidates, suppressed, clock, config);
            let before = decide_all(known, candidates.take(i), suppressed.take(i), clock, config);
            let decision = all.decisions[i];
            let record = suggestion_for(candidates[i], clock.now_ts_ns, config);
            &&& decision.routine_id == candidates[i].routine_id
            &&& decision.confidence == candidates[i].confidence
            &&& decision.outcome == gate(
                candidates[i].routine_id,
                candidates[i].confidence,
                candidates[i].lifecycle,
                suppressed[i],
                clock.now_ts_ns,
                clock.minute_of_day,
                before.known,
                config,
            )
            &&& decision.outcome == GateOutcome::Surface && !clock.dry_run
                ==> decision.suggestion_id == Some(record.suggestion_id) && all.effects.contains(
                EffectView::Write(record),
            ) && all.created.contains(record.suggestion_id) && all.known.live.contains(
                record.routine_id,
            ) && all.known.created.contains(clock.now_ts_ns)
            &&& decision.outcome != GateOutcome::Surface ==> decision.suggestion_id is None
        }),
    decreases candidates.len(),
{
    let rest = candidates.drop_last();
    let verdicts = suppressed.drop_last();
    let before = decide_all(known, rest, verdicts, clock, config);
    let all = decide_all(known, candidates, suppressed, clock, config);
    law_every_candidate_is_decided(known, rest, verdicts, clock, config);
    if i < rest.len() {
        law_surfacing_candidates_are_written(known, rest, verdicts, clock, config, i);
        assert(rest.take(i) =~= candidates.take(i));
        assert(verdicts.take(i) =~= suppressed.take(i));
        assert(all.decisions[i] == before.decisions[i]);
        let record = suggestion_for(candidates[i], clock.now_ts_ns, config);
        if before.effects.contains(EffectView::Write(record)) {
            let k = choose|k: int|
                0 <= k < before.effects.len() && before.effects[k] == EffectView::Write(record);
            assert(all.effects[k] == EffectView::Write(record));
        }
        if before.created.contains(record.suggestion_id) {
            let k = choose|k: int|
                0 <= k < before.created.len() && before.created[k] == record.suggestion_id;
            assert(all.created[k] == record.suggestion_id);
        }
        if before.known.created.contains(clock.now_ts_ns) {
            let k = choose|k: int|
                0 <= k < before.known.created.len() && before.known.created[k] == clock.now_ts_ns;
            assert(all.known.created[k] == clock.now_ts_ns);
        }
    } else {
        assert(candidates.take(i) =~= rest);
        assert(suppressed.take(i) =~= verdicts);
        let record = suggestion_for(candidates[i], clock.now_ts_ns, config);
        if all.decisions[i].outcome == GateOutcome::Surface && !clock.dry_run {
            assert(all.effects[before.effects.len() as int] == EffectView::Write(record));
            assert(all.created[before.created.len() as int] == record.suggestion_id);
            assert(all.known.created[before.known.created.len() as int] == clock.now_ts_ns);
        }
    }
}

/// The suggestions that are listed: each is one of the list with the status and the routine asked for,
/// the newest come first, as many as the caller's limit come where there are that many (a hundred where
/// the caller gives none, a thousand at most), and any that is left out for the limit is no newer than
/// those that come.
pub proof fn law_listing_gives_the_newest_asked_for(
    all: Seq<SuggestionView>,
    params: SuggestionListParams,
    r: SuggestionListResponse,
)
    requires
        is_listing(all, params, r),
    ensures
        ({
            let rows = suggestion_views(r.suggestions@);
            let wanted = all.filter(
                |s: SuggestionView|
                    (params.status is None || Some(s.status) == params.status) && (
                    params.routine_id is None || params.routine_id->Some_0@ == s.routine_id),
            );
            let limit: int = match params.limit {
                None => 100,
                Some(n) => if n > 1000 {
                    1000
                } else {
                    n as int
                },
            };
            &&& r.total_rows == all.len()
            &&& r.returned == rows.len()
            &&& rows.len() == if wanted.len() < limit {
                wanted.len() as int
            } else {
                limit
            }
            &&& forall|i: int| 0 <= i < rows.len() ==> wanted.contains(#[trigger] rows[i])
            &&& forall|i: int, j: int|
                0 <= i < j < rows.len() ==> (#[trigger] rows[i]).created_ts_ns >= (
                #[trigger] rows[j]).created_ts_ns
            &&& forall|i: int, w: int|
                0 <= i < rows.len() && 0 <= w < wanted.len() && !rows.contains(#[trigger] wanted[w])
                    ==> (#[trigger] rows[i]).created_ts_ns >= wanted[w].created_ts_ns
        }),
{
    let rows = suggestion_views(r.suggestions@);
    let kept = listed(all, params);
    let wanted = all.filter(
        |s: SuggestionView|
            (params.status is None || Some(s.status) == params.status) && (params.routine_id is None
                || params.routine_id->Some_0@ == s.routine_id),
    );
    lemma_listed_is_filter(all, params);
    assert(kept == wanted);
    let limit = list_limit(params);
    let order = choose|order: Seq<int>| #[trigger]
        is_descending_order(creation_keys(kept), order) && rows.len() == (if kept.len() <= limit {
            kept.len() as int
        } else {
            limit
        }) && forall|i: int| 0 <= i < rows.len() ==> #[trigger] rows[i] == kept[order[i]];
    let keys = creation_keys(kept);
    assert forall|i: int| 0 <= i < rows.len() implies wanted.contains(#[trigger] rows[i]) by {
        assert(rows[i] == kept[order[i]]);
    }
    assert forall|i: int, j: int| 0 <= i < j < rows.len() implies (#[trigger] rows[i]).created_ts_ns
        >= (#[trigger] rows[j]).created_ts_ns by {
        assert(crate::order::ranks_before(keys, order[i], order[j]));
        assert(rows[i] == kept[order[i]] && rows[j] == kept[order[j]]);
    }
    assert forall|i: int, w: int|
        0 <= i < rows.len() && 0 <= w < wanted.len() && !rows.contains(#[trigger] wanted[w]) implies (
    #[trigger] rows[i]).created_ts_ns >= wanted[w].created_ts_ns by {
        crate::order::law_order_misses_nothing(keys, order, w);
        let p = choose|p: int| 0 <= p < order.len() && order[p] == w;
        if p < rows.len() {
            assert(rows[p] == kept[order[p]]);
            assert(rows.contains(wanted[w]));
        }
        assert(crate::order::ranks_before(keys, order[i], order[p]));
        assert(rows[i] == kept[order[i]]);
    }
}

proof fn lemma_listed_is_filter(all: Seq<SuggestionView>, params: SuggestionListParams)
    ensures
        listed(all, params) == all.filter(
            |s: SuggestionView|
                (params.status is None || Some(s.status) == params.status) && (
                params.routine_id is None || params.routine_id->Some_0@ == s.routine_id),
        ),
    decreases all.len(),
{
    reveal(Seq::filter);
    if all.len() > 0 {
        lemma_listed_is_filter(all.drop_last(), params);
    }
}

/// A setting that holds a number within its range is taken, and one that is absent is the default.
pub proof fn law_settings_are_read(text: String, n: nat, max: nat, default: nat)
    requires
        n <= max,
        text@ == crate::numerals::decimal(n),
    ensures
        setting_or(Some(text), max, default) == n,
        setting_or(None, max, default) == default,
{
    crate::numerals::law_printed_numbers_read_back(n, max);
}

/// Quiet hours run from the first setting to the second where both are minutes of a day, and there are
/// none otherwise.
pub proof fn law_quiet_hours_are_read(start: String, end: String, s: u32, e: u32)
    requires
        start@ == crate::numerals::decimal(s as nat),
        end@ == crate::numerals::decimal(e as nat),
    ensures
        quiet_hours_of(Some(start), Some(end)) == if s < 1440 && e < 1440 {
            Some((s, e))
        } else {
            None
        },
        quiet_hours_of(None, Some(end)) is None,
        quiet_hours_of(Some(start), None) is None,
{
    crate::numerals::law_printed_numbers_read_back(s as nat, u32::MAX as nat);
    crate::numerals::law_printed_numbers_read_back(e as nat, u32::MAX as nat);
}

/// Settings are taken where they hold numbers, each for its own field, and the defaults where they are
/// absent: 600 seconds of life, five in an hour, four hours between two of a routine, no quiet hours
/// and a confidence of six tenths.
pub proof fn law_settings_go_to_their_fields(settings: &SuggestionSettings, r: SuggestionConfig)
    requires
        call_ensures(SuggestionConfig::from_settings, (settings,), r),
    ensures
        settings.min_confidence is Some ==> Some(r.min_confidence) == settings.min_confidence,
        settings.min_confidence is None ==> r.min_confidence.bits == 0x3fe3_3333_3333_3333,
        settings.expiry_secs is None ==> r.expiry_secs == 600,
        settings.global_max is None ==> r.global_max == 5,
        settings.global_window_secs is None ==> r.global_window_secs == 3_600,
        settings.per_routine_window_secs is None ==> r.per_routine_window_secs == 14_400,
        settings.quiet_start_min is None || settings.quiet_end_min is None ==> r.quiet_hours
            is None,
        forall|n: u64|
            settings.expiry_secs is Some && settings.expiry_secs->Some_0@
                == #[trigger] crate::numerals::decimal(n as nat) ==> r.expiry_secs == n,
        forall|n: u32|
            settings.global_max is Some && settings.global_max->Some_0@
                == #[trigger] crate::numerals::decimal(n as nat) ==> r.global_max == n,
        forall|n: u64|
            settings.global_window_secs is Some && settings.global_window_secs->Some_0@
                == #[trigger] crate::numerals::decimal(n as nat) ==> r.global_window_secs == n,
        forall|n: u64|
            settings.per_routine_window_secs is Some && settings.per_routine_window_secs->Some_0@
                == #[trigger] crate::numerals::decimal(n as nat) ==> r.per_routine_window_secs
                == n,
{
    assert forall|n: u64|
        settings.expiry_secs is Some && settings.expiry_secs->Some_0@
            == #[trigger] crate::numerals::decimal(n as nat) implies r.expiry_secs == n by {
        crate::numerals::law_printed_numbers_read_back(n as nat, u64::MAX as nat);
    }
    assert forall|n: u32|
        settings.global_max is Some && settings.global_max->Some_0@
            == #[trigger] crate::numerals::decimal(n as nat) implies r.global_max == n by {
        crate::numerals::law_printed_numbers_read_back(n as nat, u32::MAX as nat);
    }
    assert forall|n: u64|
        settings.global_window_secs is Some && settings.global_window_secs->Some_0@
            == #[trigger] crate::numerals::decimal(n as nat) implies r.global_window_secs == n by {
        crate::numerals::law_printed_numbers_read_back(n as nat, u64::MAX as nat);
    }
    assert forall|n: u64|
        settings.per_routine_window_secs is Some && settings.per_routine_window_secs->Some_0@
            == #[trigger] crate::numerals::decimal(n as nat) implies r.per_routine_window_secs
        == n by {
        crate::numerals::law_printed_numbers_read_back(n as nat, u64::MAX as nat);
    }
}

/// Which gate holds a candidate back, if any: asked in order, each by what it is for. The spacing of a
/// routine is that of the configuration in seconds, whatever the global window is, and the cap counts
/// what was created within that window.
pub proof fn law_candidates_are_held_back_by_their_gate(
    routine_id: &str,
    confidence: Real64,
    lifecycle: RoutineLifecycle,
    suppressed: bool,
    now_ns: u64,
    now_minute: Option<u32>,
    aggregates: &SuggestionAggregates,
    config: &SuggestionConfig,
    r: GateOutcome,
)
    requires
        now_ns < u64::MAX,
        call_ensures(
            gate_decision,
            (
                routine_id,
                confidence,
                lifecycle,
                suppressed,
                now_ns,
                now_minute,
                aggregates,
                config,
            ),
            r,
        ),
    ensures
        ({
            let known = aggregates@;
            let retired = lifecycle is Disabled || lifecycle is Archived;
            let weak = confidence.is_less(config.min_confidence);
            let quiet = now_minute is Some && config.quiet_hours is Some && {
                let m = now_minute->Some_0;
                let start = config.quiet_hours->Some_0.0;
                let end = config.quiet_hours->Some_0.1;
                (start <= m && m < end) || (end < start && (m >= start || m < end))
            };
            let live = known.live.contains(routine_id@);
            let young = config.per_routine_window_secs > 0 && known.last_created.contains_key(
                routine_id@,
            ) && now_ns - known.last_created[routine_id@] < config.per_routine_window_secs
                * 1_000_000_000;
            let full = known.created.filter(
                |c: u64| c + config.global_window_secs * 1_000_000_000 >= now_ns,
            ).len() >= config.global_max;
            &&& (r is DisabledRoutine <==> retired)
            &&& (r is BelowThreshold <==> !retired && weak)
            &&& (r is SuppressedCooldown <==> !retired && !weak && suppressed)
            &&& (r is QuietHours <==> !retired && !weak && !suppressed && quiet)
            &&& (r is DuplicateLive <==> !retired && !weak && !suppressed && !quiet && live)
            &&& (r is PerRoutineCap <==> !retired && !weak && !suppressed && !quiet && !live
                && young)
            &&& (r is GlobalCap <==> !retired && !weak && !suppressed && !quiet && !live && !young
                && full)
            &&& (r is Surface <==> !retired && !weak && !suppressed && !quiet && !live && !young
                && !full)
        }),
{
    law_gates_hold_back_what_they_are_for(
        routine_id@,
        confidence,
        lifecycle,
        suppressed,
        now_ns,
        now_minute,
        aggregates@,
        *config,
    );
}

/// A minute is quiet from the start of the quiet hours up to their end, over midnight where they end
/// before they start; and never where there are none.
pub proof fn law_quiet_minutes(minute: u32, quiet: Option<(u32, u32)>, r: bool)
    requires
        call_ensures(in_quiet_hours, (minute, quiet), r),
    ensures
        quiet is None ==> !r,
        quiet matches Some((start, end)) ==> (start <= end ==> (r <==> start <= minute && minute
            < end)) && (start > end ==> (r <==> minute >= start || minute < end)),
{
}

/// What a tick writes of a candidate: a suggestion of it as it was, live from the instant of the tick for
/// as long as the configuration says.
pub proof fn law_suggestions_are_built_of_their_candidate<S, E>(
    candidate: &IntentCandidate<S, E>,
    now: u64,
    config: &SuggestionConfig,
    r: SuggestionRecord,
)
    requires
        call_ensures(build_suggestion::<S, E>, (candidate, now, config), r),
    ensures
        r@.routine_id == candidate.routine_id@,
        r@.label == optional_view(candidate.label),
        r@.confidence == candidate.confidence,
        r@.status is Live,
        r@.created_ts_ns == now,
        now + config.expiry_secs * 1_000_000_000 <= u64::MAX ==> r@.expiry_ts_ns == now
            + config.expiry_secs * 1_000_000_000,
        candidate.matched_prefix_len <= u32::MAX ==> r@.matched_prefix_len
            == candidate.matched_prefix_len,
        candidate.total_steps <= u32::MAX ==> r@.total_steps == candidate.total_steps,
        candidate.remaining_steps@.len() <= u32::MAX ==> r@.remaining_step_count
            == candidate.remaining_steps@.len(),
        r@.resolved_ts_ns is None && r@.resolution_note is None,
{
    law_suggestions_tell_of_their_candidate(candidate@, now, *config);
}

/// What settling does to each suggestion: a live one ends when its time is up, or when its routine is no
/// longer among the intents, and any other stays as it is. A dry run writes and tells nothing.
pub proof fn law_suggestions_are_settled<S, E>(
    suggestions: Vec<SuggestionRecord>,
    candidates: &Vec<IntentCandidate<S, E>>,
    now: u64,
    dry_run: bool,
    r: SettledSuggestions,
    i: int,
)
    requires
        call_ensures(settle_suggestions::<S, E>, (suggestions, candidates, now, dry_run), r),
        0 <= i < suggestions@.len(),
    ensures
        r.suggestions@.len() == suggestions@.len(),
        ({
            let before = suggestions@[i]@;
            let after = r.suggestions@[i]@;
            let wanted = exists|k: int|
                0 <= k < candidates@.len() && (#[trigger] candidates@[k]).routine_id@
                    == before.routine_id;
            &&& (before.status is Live && before.expiry_ts_ns <= now ==> after.status is Expired
                && after.resolved_ts_ns == Some(now) && views(r.expired@).contains(
                before.suggestion_id,
            ))
            &&& (before.status is Live && before.expiry_ts_ns > now && !wanted ==> after.status
                is Abandoned && after.resolved_ts_ns == Some(now) && views(r.abandoned@).contains(
                before.suggestion_id,
            ))
            &&& (before.status !is Live || (before.expiry_ts_ns > now && wanted) ==> after
                == before)
            &&& after.suggestion_id == before.suggestion_id
            &&& after.routine_id == before.routine_id
            &&& after.created_ts_ns == before.created_ts_ns
            &&& after.confidence == before.confidence
        }),
        dry_run ==> r.effects@.len() == 0,
{
    let s = suggestion_views(suggestions@);
    let intents = candidate_routines(candidates@);
    assert(s[i] == suggestions@[i]@);
    assert(suggestion_views(r.suggestions@).len() == r.suggestions@.len());
    assert(suggestion_views(r.suggestions@)[i] == r.suggestions@[i]@);
    law_live_suggestions_end_in_time(s[i], now, intents);
    law_endings_are_reported(s, now, intents, s[i].suggestion_id);
    if dry_run {
        lemma_dry_run_settles_without_effect(s, now, intents);
        assert(effect_views(r.effects@).len() == r.effects@.len());
    }
}

proof fn lemma_dry_run_settles_without_effect(
    s: Seq<SuggestionView>,
    now: u64,
    intents: Set<Seq<char>>,
)
    ensures
        all_settle_effects(s, now, intents, true).len() == 0,
    decreases s.len(),
{
    if s.len() > 0 {
        lemma_dry_run_settles_without_effect(s.drop_last(), now, intents);
    }
}

/// A tick answers for its instant and its configuration, with one decision for every candidate in their
/// order, and writes nothing in a dry run. Any two suggestions of a routine, of which it wrote the later,
/// lie at least the routine's own spacing apart.
pub proof fn law_ticks_decide_on_every_candidate<S, E>(
    settled: SettledSuggestions,
    candidates: &Vec<IntentCandidate<S, E>>,
    suppressed: &Vec<Result<bool, ToolError>>,
    clock: TickClock,
    config: &SuggestionConfig,
    r: SuggestionTickPlan,
    i: int,
    k: int,
    w: SuggestionView,
)
    requires
        suppressed@.len() == candidates@.len(),
        clock.now_ts_ns < u64::MAX,
        call_ensures(
            suggestion_tick::<S, E>,
            (settled, candidates, suppressed, clock, config),
            r,
        ),
        r.outcome is Ok,
        0 <= i < candidates@.len(),
    ensures
        ({
            let told = r.outcome->Ok_0;
            &&& told.now_ts_ns == clock.now_ts_ns
            &&& told.dry_run == clock.dry_run
            &&& (candidates@.len() <= u32::MAX ==> told.candidates_evaluated == candidates@.len())
            &&& told.expired == settled.expired
            &&& told.abandoned == settled.abandoned
            &&& told.config.per_routine_window_secs == config.per_routine_window_secs
            &&& told.config.global_window_secs == config.global_window_secs
            &&& told.config.global_max == config.global_max
            &&& told.config.expiry_secs == config.expiry_secs
            &&& told.config.min_confidence == config.min_confidence
            &&& told.decisions@.len() == candidates@.len()
            &&& decision_views(told.decisions@)[i].routine_id == candidates@[i].routine_id@
            &&& decision_views(told.decisions@)[i].confidence == candidates@[i].confidence
            &&& (config.per_routine_window_secs > 0 && 0 <= k < settled.suggestions@.len()
                && effect_views(r.effects@).contains(EffectView::Write(w))
                && settled.suggestions@[k]@.routine_id == w.routine_id ==> w.created_ts_ns
                - settled.suggestions@[k]@.created_ts_ns >= config.per_routine_window_secs
                * 1_000_000_000)
        }),
{
    let stored = suggestion_views(settled.suggestions@);
    let views_of = candidate_views(candidates@);
    let said = verdicts(suppressed@);
    let all = decide_all(aggregates_of(stored), views_of, said, clock, *config);
    law_every_candidate_is_decided(aggregates_of(stored), views_of, said, clock, *config);
    law_surfacing_candidates_are_written(
        aggregates_of(stored),
        views_of,
        said,
        clock,
        *config,
        i,
    );
    assert(views_of[i] == candidates@[i]@);
    assert(decision_views(r.outcome->Ok_0.decisions@).len() == r.outcome->Ok_0.decisions@.len());
    if config.per_routine_window_secs > 0 && 0 <= k < stored.len() && all.effects.contains(
        EffectView::Write(w),
    ) && stored[k].routine_id == w.routine_id {
        lemma_written_holds(all.effects, w);
        let wrote = written(all.effects);
        let at = choose|at: int| 0 <= at < wrote.len() && wrote[at] == w;
        let j = stored.len() + at;
        assert((stored + wrote)[j] == w);
        assert((stored + wrote)[k] == stored[k]);
        law_suggestions_of_a_routine_are_spaced_out(
            stored,
            views_of,
            said,
            clock,
            *config,
            k,
            j,
        );
    }
}

proof fn lemma_written_holds(effects: Seq<EffectView>, w: SuggestionView)
    requires
        effects.contains(EffectView::Write(w)),
    ensures
        written(effects).contains(w),
    decreases effects.len(),
{
    let i = choose|i: int| 0 <= i < effects.len() && effects[i] == EffectView::Write(w);
    let rest = effects.drop_last();
    if i < rest.len() {
        assert(rest[i] == EffectView::Write(w));
        lemma_written_holds(rest, w);
        let k = choose|k: int| 0 <= k < written(rest).len() && written(rest)[k] == w;
        assert(written(effects)[k] == w);
    } else {
        assert(written(effects)[written(rest).len() as int] == w);
    }
}

/// A tick begins where the store can be written or nothing is to be, the intents are known and every
/// stored suggestion can be read.
pub proof fn law_ticks_begin_where_they_can<S, E>(
    now: u64,
    dry_run: bool,
    permits_write: bool,
    pressure_level: &str,
    intents: &Result<Vec<IntentCandidate<S, E>>, ToolError>,
    rows: &Result<Vec<StoredRow<SuggestionRecord>>, String>,
    r: Result<SettledSuggestions, ToolError>,
    i: int,
)
    requires
        call_ensures(
            begin_suggestion_tick::<S, E>,
            (now, dry_run, permits_write, pressure_level, intents, rows),
            r,
        ),
    ensures
        r is Ok ==> (permits_write || dry_run) && *intents is Ok && *rows is Ok && (0 <= i
            < (*rows)->Ok_0@.len() ==> (*rows)->Ok_0@[i].value is Ok),
        (permits_write || dry_run) && *intents is Err ==> r is Err && r->Err_0 == (*intents)->Err_0,
{
}

/// A tick is for the caller's instant or the host's, asks for every intent of the operator at it, and is
/// refused where it is to write and the store cannot be written; a verdict that is not there holds
/// nothing back.
pub proof fn law_ticks_are_for_their_instant(
    params: &SuggestionTickParams,
    host_now_ns: u64,
    permits_write: bool,
    pressure_level: &str,
    verdict: Result<Option<bool>, ToolError>,
    now: u64,
    asked: IntentCurrentParams,
    allowed: Result<(), ToolError>,
    held: Result<bool, ToolError>,
)
    requires
        call_ensures(tick_instant, (params, host_now_ns), now),
        call_ensures(tick_intent_params, (params, now), asked),
        call_ensures(
            check_tick_pressure,
            (permits_write, pressure_level, params.dry_run),
            allowed,
        ),
        call_ensures(is_routine_suppressed, (verdict,), held),
    ensures
        params.now_ts_ns is Some ==> Some(now) == params.now_ts_ns,
        params.now_ts_ns is None ==> now == host_now_ns,
        asked.now_ts_ns == Some(now),
        asked.lookback_hours == params.lookback_hours,
        asked.max_candidates == Some(50u32),
        asked.min_confidence is Some && asked.min_confidence->Some_0.bits == 0,
        !asked.include_agent_activity,
        allowed is Ok <==> permits_write || params.dry_run,
        held is Ok <==> verdict is Ok,
        held is Ok ==> (held->Ok_0 <==> verdict->Ok_0 == Some(true)),
{
}

/// What is known of stored suggestions: the routines with a live one, the latest creation of each
/// routine, and every creation.
pub proof fn law_stored_suggestions_are_summed_up(
    suggestions: &Vec<SuggestionRecord>,
    r: SuggestionAggregates,
    id: Seq<char>,
    i: int,
)
    requires
        call_ensures(build_aggregates, (suggestions,), r),
        0 <= i < suggestions@.len(),
    ensures
        r@.created.len() == suggestions@.len(),
        r@.created[i] == suggestions@[i]@.created_ts_ns,
        suggestions@[i]@.status is Live && suggestions@[i]@.routine_id == id ==> r@.live.contains(
            id,
        ),
        suggestions@[i]@.routine_id == id ==> r@.last_created.contains_key(id)
            && r@.last_created[id] >= suggestions@[i]@.created_ts_ns,
        r@.live.contains(id) ==> exists|k: int|
            0 <= k < suggestions@.len() && (#[trigger] suggestions@[k])@.status is Live
                && suggestions@[k]@.routine_id == id,
{
    let s = suggestion_views(suggestions@);
    assert(s[i] == suggestions@[i]@);
    law_aggregates_sum_up_the_suggestions(s, id);
    if r@.live.contains(id) {
        let k = choose|k: int|
            0 <= k < s.len() && (#[trigger] s[k]).status == SuggestionStatus::Live
                && s[k].routine_id == id;
        assert(suggestions@[k]@ == s[k]);
    }
}

/// What a listing gives: of the stored suggestions those of the status and routine asked for, the newest
/// first, and as many as asked for (a hundred where the caller does not say, a thousand at most).
pub proof fn law_listings_give_what_is_asked_for(
    rows: &Result<Vec<StoredRow<SuggestionRecord>>, String>,
    params: &SuggestionListParams,
    r: Result<SuggestionListResponse, ToolError>,
    i: int,
    j: int,
)
    requires
        call_ensures(list_suggestions, (rows, params), r),
        r is Ok,
    ensures
        *rows is Ok,
        ({
            let listing = r->Ok_0;
            let given = listing.suggestions@;
            &&& listing.returned == given.len()
            &&& listing.total_rows == (*rows)->Ok_0@.len()
            &&& (params.limit is None ==> given.len() <= 100)
            &&& (params.limit is Some ==> given.len() <= params.limit->Some_0 && given.len()
                <= 1000)
            &&& (0 <= i < given.len() ==> (params.status is None || Some(given[i]@.status)
                == params.status) && (params.routine_id is None || params.routine_id->Some_0@
                == given[i]@.routine_id))
            &&& (0 <= i < j < given.len() ==> given[i]@.created_ts_ns >= given[j]@.created_ts_ns)
        }),
{
    let stored = choose|stored: Seq<SuggestionRecord>| #[trigger]
        decodes_to((*rows)->Ok_0@, stored) && is_listing(
            suggestion_views(stored),
            *params,
            r->Ok_0,
        );
    let all = suggestion_views(stored);
    law_listing_gives_the_newest_asked_for(all, *params, r->Ok_0);
    let given = suggestion_views((r->Ok_0).suggestions@);
    let pick = |s: SuggestionView|
        (params.status is None || Some(s.status) == params.status) && (params.routine_id is None
            || params.routine_id->Some_0@ == s.routine_id);
    if 0 <= i < given.len() {
        assert(given[i] == (r->Ok_0).suggestions@[i]@);
        assert(all.filter(pick).contains(given[i]));
        let at = choose|at: int| 0 <= at < all.filter(pick).len() && all.filter(pick)[at] == given[i];
        all.lemma_filter_pred(pick, at);
    }
    if 0 <= i < j < given.len() {
        assert(given[i] == (r->Ok_0).suggestions@[i]@ && given[j] == (r->Ok_0).suggestions@[j]@);
    }
}

/// A write counts where the suggestion was encoded and stored, and is the first row read back.
pub proof fn law_suggestion_writes_are_confirmed(
    record: &SuggestionRecord,
    write: &SuggestionWrite,
    r: Result<(), ToolError>,
)
    requires
        call_ensures(write_suggestion, (record, write), r),
        r is Ok,
    ensures
        write.encoded is Ok && write.stored is Ok && write.found is Ok,
        write.found->Ok_0@.len() > 0,
        write.found->Ok_0@[0].value is Ok,
        (write.found->Ok_0@[0].value->Ok_0)@.suggestion_id == record@.suggestion_id,
        (write.found->Ok_0@[0].value->Ok_0)@.routine_id == record@.routine_id,
        (write.found->Ok_0@[0].value->Ok_0)@.status == record@.status,
        (write.found->Ok_0@[0].value->Ok_0)@.created_ts_ns == record@.created_ts_ns,
        (write.found->Ok_0@[0].value->Ok_0)@.expiry_ts_ns == record@.expiry_ts_ns,
        (write.found->Ok_0@[0].value->Ok_0)@.resolved_ts_ns == record@.resolved_ts_ns,
{
}

/// Stored suggestions are loaded whole and in order; where one cannot be read, the first such row is what
/// the failure tells of.
pub proof fn law_suggestions_are_loaded_whole(
    rows: &Result<Vec<StoredRow<SuggestionRecord>>, String>,
    r: Result<Vec<SuggestionRecord>, ToolError>,
    at: int,
)
    requires
        call_ensures(load_all_suggestions, (rows,), r),
    ensures
        *rows is Err ==> r is Err && (r->Err_0)@.code == STORAGE_READ_FAILED@,
        r is Ok ==> *rows is Ok && r->Ok_0@.len() == (*rows)->Ok_0@.len() && (0 <= at
            < r->Ok_0@.len() ==> (*rows)->Ok_0@[at].value == Ok::<SuggestionRecord, String>(
            r->Ok_0@[at],
        )),
        *rows is Ok && 0 <= at < (*rows)->Ok_0@.len() && (*rows)->Ok_0@[at].value is Err && (
        forall|i: int|
            0 <= i < at ==> (#[trigger] (*rows)->Ok_0@[i]).value is Ok) ==> r is Err && (
        r->Err_0)@.code == STORAGE_CORRUPTED@ && (r->Err_0)@.message
            == "SUGGESTION_ROW_DECODE_FAILED in CF_KV at "@ + utf8_lossy((*rows)->Ok_0@[at].key@)
            + ": "@ + (*rows)->Ok_0@[at].value->Err_0@,
{
    if *rows is Ok && 0 <= at < (*rows)->Ok_0@.len() && (*rows)->Ok_0@[at].value is Err && (forall|
        i: int,
    |
        0 <= i < at ==> (#[trigger] (*rows)->Ok_0@[i]).value is Ok) {
        let all = (*rows)->Ok_0@;
        if r is Err {
            let p = choose|p: int| #[trigger]
                fails_first_at(all, p) && (r->Err_0)@ == row_decode_failure(
                    all[p].key@,
                    all[p].value->Err_0@,
                );
            if p < at {
                assert(all[p].value is Ok);
            }
            if at < p {
                assert(all[at].value is Ok);
            }
            assert(p == at);
        } else {
            assert(all[at].value is Ok);
        }
    }
}

/// What is told of an ending names the routine, the outcome, the instant and the note; and the key of a
/// suggestion is its routine's id and its creation in twenty digits, behind the prefix of all.
pub proof fn law_endings_and_keys_are_exact(
    routine_id: &str,
    outcome: RoutineFeedbackOutcome,
    now_ns: u64,
    note: &str,
    told: TickEffect,
    key: Vec<u8>,
)
    requires
        call_ensures(record_terminal_feedback, (routine_id, outcome, now_ns, note), told),
        call_ensures(suggestion_key, (routine_id, now_ns), key),
    ensures
        told@ == (EffectView::Feedback {
            routine_id: routine_id@,
            outcome,
            note: note@,
            now_ts_ns: now_ns,
            actor: "suggestion-engine"@,
        }),
        key@ == vstd::utf8::encode_utf8(
            SUGGESTION_PREFIX@ + routine_id@ + "/"@ + zero_padded(now_ns as nat, 20),
        ),
{
}

/// A tick that cannot tell whether a routine is suppressed fails with the first such error.
pub proof fn law_unreadable_verdicts_fail_ticks<S, E>(
    settled: SettledSuggestions,
    candidates: &Vec<IntentCandidate<S, E>>,
    suppressed: &Vec<Result<bool, ToolError>>,
    clock: TickClock,
    config: &SuggestionConfig,
    r: SuggestionTickPlan,
    at: int,
)
    requires
        suppressed@.len() == candidates@.len(),
        call_ensures(
            suggestion_tick::<S, E>,
            (settled, candidates, suppressed, clock, config),
            r,
        ),
        0 <= at < suppressed@.len(),
        suppressed@[at] is Err,
        forall|i: int| 0 <= i < at ==> (#[trigger] suppressed@[i]) is Ok,
        r.outcome is Err,
    ensures
        (r.outcome->Err_0)@ == (suppressed@[at]->Err_0)@,
{
    let p = choose|p: int| #[trigger]
        unreadable_first_at(suppressed@, p) && (r.outcome->Err_0)@ == suppressed@[p]->Err_0@
            && effect_views(r.effects@) == decide_all(
            aggregates_of(suggestion_views(settled.suggestions@)),
            candidate_views(candidates@).subrange(0, p),
            verdicts(suppressed@).subrange(0, p),
            clock,
            *config,
        ).effects;
    if p < at {
        assert(suppressed@[p] is Ok);
    }
    if at < p {
        assert(suppressed@[at] is Ok);
    }
}

} // verus!
