//! Armed routine execution state.
//!
//! An armed routine carries a durable row that says which triggers may run it. A tick selects the
//! due runs, claims each trigger before it is executed and records the outcome. The trigger key is
//! stored with the claim, so that the same schedule window or intent evidence never fires twice.
//!
//! Storage is read before and written after these functions run: they take what was read, errors
//! among it, and return what to write.

use vstd::prelude::*;

use crate::clock::{is_near_weekday, local_weekday};
use crate::error::{internal, invalid, mcp_error, params_invalid, ErrorView, ToolError,
    STORAGE_CORRUPTED, STORAGE_READ_FAILED, STORAGE_WRITE_FAILED};
use crate::ieee::Real64;
use crate::json::{flag_object, json_equal, json_same, object1, Json, JsonView};
use crate::keys::{find_row, first_row_with_key, hex_encode, hex_of, key_after, RowChunk, StoredRow};
use crate::m3::intent::{ask_for_every_candidate, every_candidate, IntentCurrentParams};
use crate::m3::permissions::{read_and_write, Permission, RequiredPermissions};
use crate::m3::routines::{count32, is_retired, retired, to_count32, IntentCandidate,
    IntentCandidateView, RoutineDowClass, RoutineLifecycle};
use crate::m3::suggestions::{candidate_views, floor_sub};
use crate::m3::M3ToolStub;
use crate::numerals::{decimal, decimal_text, padded_text, zero_padded};
use crate::text::{blank, bytes_start_with, cat2, cat3, cat4, cat5, cat6, cat7, clone_optional,
    debug_quoted, is_blank, optional_text_equal, optional_view, quoted, text_equal};

verus! {

pub const ARMED_ROUTINE_PREFIX: &'static str = "armed_routine/v1/";

pub const ARMED_ROUTINE_RUN_PREFIX: &'static str = "armed_routine_run/v1/";

pub const ARMED_ROUTINE_RECORD_VERSION: u32 = 1;

pub const ARMED_ROUTINE_RUN_RECORD_VERSION: u32 = 1;

pub const DEFAULT_FAILURE_THRESHOLD: u32 = 3;

pub const MAX_FAILURE_THRESHOLD: u32 = 20;

pub const MIN_SCHEDULE_WINDOW_MINUTES: u32 = 5;

pub const MAX_SCAN_ROWS: usize = 200_000;

/// The column family that holds the armed rows.
pub const CF_KV: &'static str = "CF_KV";

pub const ARMED_ROUTINE_SOURCE_OF_TRUTH: &'static str =
    "CF_KV armed_routine/v1 and armed_routine_run/v1 rows plus plan_execution/v1 rows";

// ---------------------------------------------------------------------------------------------
// Records
// ---------------------------------------------------------------------------------------------

/// What sets off a run.
#[derive(Clone, Copy, Debug, PartialEq, Eq, Structural)]
pub enum ArmedRoutineTriggerKind {
    Schedule,
    Intent,
}

impl ArmedRoutineTriggerKind {
    /// The name of the trigger in keys and reports.
    pub open spec fn name(self) -> Seq<char> {
        match self {
            ArmedRoutineTriggerKind::Schedule => "schedule"@,
            ArmedRoutineTriggerKind::Intent => "intent"@,
        }
    }

    /// The name of the trigger in keys and reports.
    pub fn as_str(self) -> (r: &'static str)
        ensures
            r@ == self.name(),
    {
        match self {
            ArmedRoutineTriggerKind::Schedule => "schedule",
            ArmedRoutineTriggerKind::Intent => "intent",
        }
    }
}

/// Where a run stands.
#[derive(Clone, Copy, Debug, PartialEq, Eq, Structural)]
pub enum ArmedRoutineRunStatus {
    Started,
    Succeeded,
    Failed,
    DryRun,
}

impl ArmedRoutineRunStatus {
    /// Whether the run failed.
    pub fn is_failure(self) -> (r: bool)
        ensures
            r == (self is Failed),
    {
        matches!(self, ArmedRoutineRunStatus::Failed)
    }
}

/// The durable arming of one routine.
#[derive(Debug, PartialEq, Eq)]
pub struct ArmedRoutineRecord {
    pub record_version: u32,
    pub row_kind: String,
    pub routine_id: String,
    pub enabled: bool,
    pub schedule_enabled: bool,
    pub intent_enabled: bool,
    pub failure_threshold: u32,
    pub consecutive_failures: u32,
    pub created_at_ns: u64,
    pub updated_at_ns: u64,
    pub armed_at_ns: Option<u64>,
    pub armed_by: Option<String>,
    pub arm_note: Option<String>,
    pub disarmed_at_ns: Option<u64>,
    pub disarmed_by: Option<String>,
    pub disarm_reason: Option<String>,
    pub plan_ref: Option<String>,
    pub last_schedule_fire_key: Option<String>,
    pub last_intent_fire_key: Option<String>,
    pub last_run_id: Option<String>,
    pub last_run_status: Option<ArmedRoutineRunStatus>,
    pub source_of_truth: String,
}

/// An arming with texts as sequences of characters.
#[verifier::ext_equal]
pub struct ArmedView {
    pub record_version: u32,
    pub row_kind: Seq<char>,
    pub routine_id: Seq<char>,
    pub enabled: bool,
    pub schedule_enabled: bool,
    pub intent_enabled: bool,
    pub failure_threshold: u32,
    pub consecutive_failures: u32,
    pub created_at_ns: u64,
    pub updated_at_ns: u64,
    pub armed_at_ns: Option<u64>,
    pub armed_by: Option<Seq<char>>,
    pub arm_note: Option<Seq<char>>,
    pub disarmed_at_ns: Option<u64>,
    pub disarmed_by: Option<Seq<char>>,
    pub disarm_reason: Option<Seq<char>>,
    pub plan_ref: Option<Seq<char>>,
    pub last_schedule_fire_key: Option<Seq<char>>,
    pub last_intent_fire_key: Option<Seq<char>>,
    pub last_run_id: Option<Seq<char>>,
    pub last_run_status: Option<ArmedRoutineRunStatus>,
    pub source_of_truth: Seq<char>,
}

impl View for ArmedRoutineRecord {
    type V = ArmedView;

    open spec fn view(&self) -> ArmedView {
        ArmedView {
            record_version: self.record_version,
            row_kind: self.row_kind@,
            routine_id: self.routine_id@,
            enabled: self.enabled,
            schedule_enabled: self.schedule_enabled,
            intent_enabled: self.intent_enabled,
            failure_threshold: self.failure_threshold,
            consecutive_failures: self.consecutive_failures,
            created_at_ns: self.created_at_ns,
            updated_at_ns: self.updated_at_ns,
            armed_at_ns: self.armed_at_ns,
            armed_by: optional_view(self.armed_by),
            arm_note: optional_view(self.arm_note),
            disarmed_at_ns: self.disarmed_at_ns,
            disarmed_by: optional_view(self.disarmed_by),
            disarm_reason: optional_view(self.disarm_reason),
            plan_ref: optional_view(self.plan_ref),
            last_schedule_fire_key: optional_view(self.last_schedule_fire_key),
            last_intent_fire_key: optional_view(self.last_intent_fire_key),
            last_run_id: optional_view(self.last_run_id),
            last_run_status: self.last_run_status,
            source_of_truth: self.source_of_truth@,
        }
    }
}

impl Clone for ArmedRoutineRecord {
    fn clone(&self) -> (r: Self)
        ensures
            r == *self,
    {
        ArmedRoutineRecord {
            record_version: self.record_version,
            row_kind: self.row_kind.clone(),
            routine_id: self.routine_id.clone(),
            enabled: self.enabled,
            schedule_enabled: self.schedule_enabled,
            intent_enabled: self.intent_enabled,
            failure_threshold: self.failure_threshold,
            consecutive_failures: self.consecutive_failures,
            created_at_ns: self.created_at_ns,
            updated_at_ns: self.updated_at_ns,
            armed_at_ns: self.armed_at_ns,
            armed_by: clone_optional(&self.armed_by),
            arm_note: clone_optional(&self.arm_note),
            disarmed_at_ns: self.disarmed_at_ns,
            disarmed_by: clone_optional(&self.disarmed_by),
            disarm_reason: clone_optional(&self.disarm_reason),
            plan_ref: clone_optional(&self.plan_ref),
            last_schedule_fire_key: clone_optional(&self.last_schedule_fire_key),
            last_intent_fire_key: clone_optional(&self.last_intent_fire_key),
            last_run_id: clone_optional(&self.last_run_id),
            last_run_status: self.last_run_status,
            source_of_truth: self.source_of_truth.clone(),
        }
    }
}

fn optional_ts_equal(a: Option<u64>, b: Option<u64>) -> (r: bool)
    ensures
        r == (a == b),
{
    match (a, b) {
        (Some(x), Some(y)) => x == y,
        (None, None) => true,
        _ => false,
    }
}

fn optional_status_equal(a: Option<ArmedRoutineRunStatus>, b: Option<ArmedRoutineRunStatus>) -> (r:
    bool)
    ensures
        r == (a == b),
{
    match (a, b) {
        (Some(x), Some(y)) => x == y,
        (None, None) => true,
        _ => false,
    }
}

/// Compares two armings.
pub fn armed_equal(a: &ArmedRoutineRecord, b: &ArmedRoutineRecord) -> (r: bool)
    ensures
        r == (a@ == b@),
{
    a.record_version == b.record_version && text_equal(a.row_kind.as_str(), b.row_kind.as_str())
        && text_equal(a.routine_id.as_str(), b.routine_id.as_str()) && a.enabled == b.enabled
        && a.schedule_enabled == b.schedule_enabled && a.intent_enabled == b.intent_enabled
        && a.failure_threshold == b.failure_threshold && a.consecutive_failures
        == b.consecutive_failures && a.created_at_ns == b.created_at_ns && a.updated_at_ns
        == b.updated_at_ns && optional_ts_equal(a.armed_at_ns, b.armed_at_ns)
        && optional_text_equal(&a.armed_by, &b.armed_by) && optional_text_equal(
        &a.arm_note,
        &b.arm_note,
    ) && optional_ts_equal(a.disarmed_at_ns, b.disarmed_at_ns) && optional_text_equal(
        &a.disarmed_by,
        &b.disarmed_by,
    ) && optional_text_equal(&a.disarm_reason, &b.disarm_reason) && optional_text_equal(
        &a.plan_ref,
        &b.plan_ref,
    ) && optional_text_equal(&a.last_schedule_fire_key, &b.last_schedule_fire_key)
        && optional_text_equal(&a.last_intent_fire_key, &b.last_intent_fire_key)
        && optional_text_equal(&a.last_run_id, &b.last_run_id) && optional_status_equal(
        a.last_run_status,
        b.last_run_status,
    ) && text_equal(a.source_of_truth.as_str(), b.source_of_truth.as_str())
}

/// The evidence of an intent that set off a run.
#[derive(Clone, Copy, Debug, PartialEq, Eq, Structural)]
pub struct ArmedRoutineIntentEvidence {
    pub confidence: Real64,
    pub matched_prefix_len: u32,
    pub total_steps: u32,
    pub last_matched_end_ts_ns: u64,
}

/// A run whose trigger is due.
#[derive(Debug, PartialEq, Eq)]
pub struct ArmedRoutineDueRun {
    pub routine_id: String,
    pub trigger_kind: ArmedRoutineTriggerKind,
    pub trigger_key: String,
    pub due_ts_ns: u64,
    pub plan_ref: Option<String>,
    pub intent: Option<ArmedRoutineIntentEvidence>,
}

/// A due run with texts as sequences of characters.
#[verifier::ext_equal]
pub struct DueView {
    pub routine_id: Seq<char>,
    pub trigger_kind: ArmedRoutineTriggerKind,
    pub trigger_key: Seq<char>,
    pub due_ts_ns: u64,
    pub plan_ref: Option<Seq<char>>,
    pub intent: Option<ArmedRoutineIntentEvidence>,
}

impl View for ArmedRoutineDueRun {
    type V = DueView;

    open spec fn view(&self) -> DueView {
        DueView {
            routine_id: self.routine_id@,
            trigger_kind: self.trigger_kind,
            trigger_key: self.trigger_key@,
            due_ts_ns: self.due_ts_ns,
            plan_ref: optional_view(self.plan_ref),
            intent: self.intent,
        }
    }
}

/// Why a tick passed over an armed routine.
#[derive(Debug, PartialEq, Eq)]
pub struct ArmedRoutineTickSkip {
    pub routine_id: String,
    pub reason: String,
}

/// The durable record of one run.
#[derive(Debug, PartialEq, Eq)]
pub struct ArmedRoutineRunRecord {
    pub record_version: u32,
    pub row_kind: String,
    pub run_id: String,
    pub routine_id: String,
    pub trigger_kind: ArmedRoutineTriggerKind,
    pub trigger_key: String,
    pub started_ts_ns: u64,
    pub completed_ts_ns: u64,
    pub dry_run: bool,
    pub status: ArmedRoutineRunStatus,
    pub plan_ref: Option<String>,
    pub execution_id: Option<String>,
    pub approval_id: Option<String>,
    pub failure_count_after: u32,
    pub disarmed_after_failure: bool,
    pub intent: Option<ArmedRoutineIntentEvidence>,
    pub error_code: Option<String>,
    pub error: Option<String>,
    pub evidence: Json,
    pub source_of_truth: String,
}

/// A run with texts as sequences of characters.
#[verifier::ext_equal]
pub struct RunView {
    pub record_version: u32,
    pub row_kind: Seq<char>,
    pub run_id: Seq<char>,
    pub routine_id: Seq<char>,
    pub trigger_kind: ArmedRoutineTriggerKind,
    pub trigger_key: Seq<char>,
    pub started_ts_ns: u64,
    pub completed_ts_ns: u64,
    pub dry_run: bool,
    pub status: ArmedRoutineRunStatus,
    pub plan_ref: Option<Seq<char>>,
    pub execution_id: Option<Seq<char>>,
    pub approval_id: Option<Seq<char>>,
    pub failure_count_after: u32,
    pub disarmed_after_failure: bool,
    pub intent: Option<ArmedRoutineIntentEvidence>,
    pub error_code: Option<Seq<char>>,
    pub error: Option<Seq<char>>,
    pub evidence: JsonView,
    pub source_of_truth: Seq<char>,
}

impl View for ArmedRoutineRunRecord {
    type V = RunView;

    open spec fn view(&self) -> RunView {
        RunView {
            record_version: self.record_version,
            row_kind: self.row_kind@,
            run_id: self.run_id@,
            routine_id: self.routine_id@,
            trigger_kind: self.trigger_kind,
            trigger_key: self.trigger_key@,
            started_ts_ns: self.started_ts_ns,
            completed_ts_ns: self.completed_ts_ns,
            dry_run: self.dry_run,
            status: self.status,
            plan_ref: optional_view(self.plan_ref),
            execution_id: optional_view(self.execution_id),
            approval_id: optional_view(self.approval_id),
            failure_count_after: self.failure_count_after,
            disarmed_after_failure: self.disarmed_after_failure,
            intent: self.intent,
            error_code: optional_view(self.error_code),
            error: optional_view(self.error),
            evidence: self.evidence@,
            source_of_truth: self.source_of_truth@,
        }
    }
}

/// Whether two pieces of evidence compare equal, the confidence as IEEE has it.
pub open spec fn evidence_same(
    a: Option<ArmedRoutineIntentEvidence>,
    b: Option<ArmedRoutineIntentEvidence>,
) -> bool {
    match (a, b) {
        (Some(x), Some(y)) => x.confidence.is_same(y.confidence) && x.matched_prefix_len
            == y.matched_prefix_len && x.total_steps == y.total_steps && x.last_matched_end_ts_ns
            == y.last_matched_end_ts_ns,
        (None, None) => true,
        _ => false,
    }
}

/// Whether two runs compare equal: in all fields, with floating-point values as IEEE has it.
pub open spec fn run_same(a: RunView, b: RunView) -> bool {
    &&& evidence_same(a.intent, b.intent)
    &&& json_same(a.evidence, b.evidence)
    &&& a == (RunView { intent: a.intent, evidence: a.evidence, ..b })
}

fn evidence_equal(
    a: Option<ArmedRoutineIntentEvidence>,
    b: Option<ArmedRoutineIntentEvidence>,
) -> (r: bool)
    ensures
        r == evidence_same(a, b),
{
    match (a, b) {
        (Some(x), Some(y)) => x.confidence.same(y.confidence) && x.matched_prefix_len
            == y.matched_prefix_len && x.total_steps == y.total_steps && x.last_matched_end_ts_ns
            == y.last_matched_end_ts_ns,
        (None, None) => true,
        _ => false,
    }
}

/// Compares two runs.
pub fn runs_equal(a: &ArmedRoutineRunRecord, b: &ArmedRoutineRunRecord) -> (r: bool)
    ensures
        r == run_same(a@, b@),
{
    a.record_version == b.record_version && text_equal(a.row_kind.as_str(), b.row_kind.as_str())
        && text_equal(a.run_id.as_str(), b.run_id.as_str()) && text_equal(
        a.routine_id.as_str(),
        b.routine_id.as_str(),
    ) && a.trigger_kind == b.trigger_kind && text_equal(
        a.trigger_key.as_str(),
        b.trigger_key.as_str(),
    ) && a.started_ts_ns == b.started_ts_ns && a.completed_ts_ns == b.completed_ts_ns && a.dry_run
        == b.dry_run && a.status == b.status && optional_text_equal(&a.plan_ref, &b.plan_ref)
        && optional_text_equal(&a.execution_id, &b.execution_id) && optional_text_equal(
        &a.approval_id,
        &b.approval_id,
    ) && a.failure_count_after == b.failure_count_after && a.disarmed_after_failure
        == b.disarmed_after_failure && evidence_equal(a.intent, b.intent) && optional_text_equal(
        &a.error_code,
        &b.error_code,
    ) && optional_text_equal(&a.error, &b.error) && json_equal(&a.evidence, &b.evidence)
        && text_equal(a.source_of_truth.as_str(), b.source_of_truth.as_str())
}

/// Which triggers a tick evaluates.
#[derive(Clone, Copy, Debug, PartialEq, Eq, Structural)]
pub enum ArmedRoutineTickTriggerMode {
    Schedule,
    Intent,
    Both,
}

impl Default for ArmedRoutineTickTriggerMode {
    fn default() -> (r: Self)
        ensures
            r is Both,
    {
        ArmedRoutineTickTriggerMode::Both
    }
}

/// The parameters of a tick.
#[derive(Debug, PartialEq, Eq)]
pub struct ArmedRoutineTickParams {
    /// Evaluate as of this instant.
    pub now_ts_ns: Option<u64>,
    /// Limit the tick to one routine.
    pub routine_id: Option<String>,
    /// Which triggers to evaluate; both where absent.
    pub trigger_mode: Option<ArmedRoutineTickTriggerMode>,
    /// Compute the due runs without changing storage or launching anything.
    pub dry_run: bool,
    /// Recent-activity lookback handed to the intent matcher.
    pub lookback_hours: Option<u32>,
    /// The browser window for steps that open a tab.
    pub browser_window_hwnd: Option<i64>,
    /// Timeout of launch and postcondition waits.
    pub launch_timeout_ms: Option<u64>,
}

impl Default for ArmedRoutineTickParams {
    fn default() -> (r: Self)
        ensures
            r == (ArmedRoutineTickParams {
                now_ts_ns: None,
                routine_id: None,
                trigger_mode: None,
                dry_run: false,
                lookback_hours: None,
                browser_window_hwnd: None,
                launch_timeout_ms: None,
            }),
    {
        ArmedRoutineTickParams {
            now_ts_ns: None,
            routine_id: None,
            trigger_mode: None,
            dry_run: false,
            lookback_hours: None,
            browser_window_hwnd: None,
            launch_timeout_ms: None,
        }
    }
}

/// One run as a tick reports it.
#[derive(Debug, PartialEq, Eq)]
pub struct ArmedRoutineTickRun {
    pub routine_id: String,
    pub trigger_kind: ArmedRoutineTriggerKind,
    pub trigger_key: String,
    pub status: ArmedRoutineRunStatus,
    pub run_id: Option<String>,
    pub execution_id: Option<String>,
    pub approval_id: Option<String>,
    pub failure_count_after: u32,
    pub disarmed_after_failure: bool,
    pub error_code: Option<String>,
    pub error: Option<String>,
}

/// What a tick reports.
#[derive(Debug, PartialEq, Eq)]
pub struct ArmedRoutineTickResponse {
    pub now_ts_ns: u64,
    pub dry_run: bool,
    pub evaluated: u32,
    pub due: u32,
    pub executed: u32,
    pub skipped: Vec<ArmedRoutineTickSkip>,
    pub runs: Vec<ArmedRoutineTickRun>,
    pub source_of_truth: String,
}

/// How a routine is to be armed.
#[derive(Clone, Copy, Debug, PartialEq, Eq, Structural)]
pub struct ArmRoutineConfig {
    pub schedule_enabled: bool,
    pub intent_enabled: bool,
    pub failure_threshold: u32,
}

impl ArmRoutineConfig {
    /// Fills in what was left out: both triggers on, the default threshold.
    pub fn from_optional(
        schedule_enabled: Option<bool>,
        intent_enabled: Option<bool>,
        failure_threshold: Option<u32>,
    ) -> (r: ArmRoutineConfig)
        ensures
            r.schedule_enabled == match schedule_enabled {
                Some(b) => b,
                None => true,
            },
            r.intent_enabled == match intent_enabled {
                Some(b) => b,
                None => true,
            },
            r.failure_threshold == match failure_threshold {
                Some(n) => n,
                None => DEFAULT_FAILURE_THRESHOLD,
            },
    {
        ArmRoutineConfig {
            schedule_enabled: schedule_enabled.unwrap_or(true),
            intent_enabled: intent_enabled.unwrap_or(true),
            failure_threshold: failure_threshold.unwrap_or(DEFAULT_FAILURE_THRESHOLD),
        }
    }
}

/// The registration entry of the tick tool.
pub fn armed_routine_tick() -> (r: M3ToolStub)
    ensures
        r.name@ == "armed_routine_tick"@,
{
    M3ToolStub::new("armed_routine_tick")
}

/// A tick reads and writes storage.
pub fn required_permissions_tick(_params: &ArmedRoutineTickParams) -> (r: RequiredPermissions)
    ensures
        r@ == seq![Permission::ReadStorage, Permission::WriteStorage],
{
    read_and_write()
}

// ---------------------------------------------------------------------------------------------
// Arming and disarming
// ---------------------------------------------------------------------------------------------

/// What storage says about writing under the pressure that it is in.
#[derive(Debug)]
pub struct WritePressure {
    pub permits_write: bool,
    /// The pressure level as storage prints it.
    pub level: String,
}

/// The automation installed for a routine.
#[derive(Debug, PartialEq, Eq)]
pub struct RoutineAutomation {
    pub state: String,
    pub plan_ref: String,
}

/// The error for a threshold out of range.
pub open spec fn threshold_refused(failure_threshold: u32) -> ErrorView {
    params_invalid(
        "routine_update failure_threshold must be between 1 and 20; got "@ + decimal(
            failure_threshold as nat,
        ),
    )
}

/// The error for an arming without a trigger.
pub open spec fn no_trigger_refused() -> ErrorView {
    params_invalid(
        "routine_update action=arm requires at least one trigger: arm_schedule or arm_intent"@,
    )
}

/// Why an arming is refused, if it is.
pub open spec fn arm_config_error(config: ArmRoutineConfig) -> Option<ErrorView> {
    if !config.schedule_enabled && !config.intent_enabled {
        Some(no_trigger_refused())
    } else if !(1 <= config.failure_threshold <= MAX_FAILURE_THRESHOLD) {
        Some(threshold_refused(config.failure_threshold))
    } else {
        None
    }
}

/// Checks how a routine is to be armed.
pub fn validate_arm_config(config: ArmRoutineConfig) -> (r: Result<(), ToolError>)
    ensures
        match r {
            Ok(_) => arm_config_error(config) is None,
            Err(e) => arm_config_error(config) == Some(e@),
        },
{
    if !config.schedule_enabled && !config.intent_enabled {
        return Err(
            invalid(
                "routine_update action=arm requires at least one trigger: arm_schedule or arm_intent".to_owned(),
            ),
        );
    }
    if !(1 <= config.failure_threshold && config.failure_threshold <= MAX_FAILURE_THRESHOLD) {
        let got = decimal_text(config.failure_threshold as u64);
        return Err(
            invalid(
                cat2(
                    "routine_update failure_threshold must be between 1 and 20; got ",
                    got.as_str(),
                ),
            ),
        );
    }
    Ok(())
}

/// The error for an update that storage pressure refuses.
pub open spec fn update_refused(action: Seq<char>, level: Seq<char>) -> ErrorView {
    ErrorView {
        code: STORAGE_WRITE_FAILED@,
        message: action + " refused under disk pressure: cf_name="@ + CF_KV@ + " pressure_level="@
            + level,
    }
}

fn refuse_update(action: &str, level: &str) -> (r: ToolError)
    ensures
        r@ == update_refused(action@, level@),
{
    mcp_error(
        STORAGE_WRITE_FAILED,
        cat5(action, " refused under disk pressure: cf_name=", CF_KV, " pressure_level=", level),
    )
}

/// The error for arming a routine that has not been mined.
pub open spec fn not_mined(routine_id: Seq<char>) -> ErrorView {
    params_invalid(
        "ROUTINE_NOT_MINED: routine_id "@ + routine_id
            + " is not in CF_ROUTINES; run routine_mine before arming"@,
    )
}

/// The error for arming a routine without automation.
pub open spec fn no_automation(routine_id: Seq<char>) -> ErrorView {
    params_invalid(
        "ROUTINE_AUTOMATION_NOT_INSTALLED: routine_id "@ + routine_id
            + " has no routine_automation row; run routine_automate and accept the profile-authoring candidate before arming"@,
    )
}

/// The error for arming a routine whose automation is not installed.
pub open spec fn automation_not_installed(
    routine_id: Seq<char>,
    state: Seq<char>,
    plan_ref: Seq<char>,
) -> ErrorView {
    params_invalid(
        "ROUTINE_AUTOMATION_NOT_INSTALLED: routine_id "@ + routine_id + " automation state is "@
            + debug_quoted(state) + ", plan_ref="@ + debug_quoted(plan_ref)
            + "; accept the profile-authoring candidate before arming"@,
    )
}

/// Whether an automation can be armed: it is installed and has a plan.
pub open spec fn is_installed(state: Seq<char>, plan_ref: Seq<char>) -> bool {
    state == "installed"@ && !is_blank(plan_ref)
}

/// The arming of a routine that was never armed, before the request is applied.
pub open spec fn fresh_arming(routine_id: Seq<char>, config: ArmRoutineConfig, now: u64) -> ArmedView {
    ArmedView {
        record_version: ARMED_ROUTINE_RECORD_VERSION,
        row_kind: "armed_routine"@,
        routine_id,
        enabled: false,
        schedule_enabled: false,
        intent_enabled: false,
        failure_threshold: config.failure_threshold,
        consecutive_failures: 0,
        created_at_ns: now,
        updated_at_ns: now,
        armed_at_ns: None,
        armed_by: None,
        arm_note: None,
        disarmed_at_ns: None,
        disarmed_by: None,
        disarm_reason: None,
        plan_ref: None,
        last_schedule_fire_key: None,
        last_intent_fire_key: None,
        last_run_id: None,
        last_run_status: None,
        source_of_truth: ARMED_ROUTINE_SOURCE_OF_TRUTH@,
    }
}

/// An arming after the request: switched on as asked, failures forgotten, the last fired triggers
/// kept.
pub open spec fn armed(
    before: ArmedView,
    config: ArmRoutineConfig,
    by_session: Seq<char>,
    note: Option<Seq<char>>,
    plan_ref: Seq<char>,
    now: u64,
) -> ArmedView {
    ArmedView {
        record_version: ARMED_ROUTINE_RECORD_VERSION,
        row_kind: "armed_routine"@,
        enabled: true,
        schedule_enabled: config.schedule_enabled,
        intent_enabled: config.intent_enabled,
        failure_threshold: config.failure_threshold,
        consecutive_failures: 0,
        updated_at_ns: now,
        armed_at_ns: Some(now),
        armed_by: Some(by_session),
        arm_note: note,
        disarmed_at_ns: None,
        disarmed_by: None,
        disarm_reason: None,
        plan_ref: Some(plan_ref),
        last_run_status: None,
        ..before
    }
}

/// What is read before a routine is armed.
#[derive(Debug)]
pub struct ArmingFacts {
    /// Whether the routine id is acceptable.
    pub id_check: Result<(), ToolError>,
    pub pressure: WritePressure,
    /// Whether the routine has been mined.
    pub mined: Result<bool, ToolError>,
    pub automation: Result<Option<RoutineAutomation>, ToolError>,
    pub existing: Result<Option<ArmedRoutineRecord>, ToolError>,
}

/// Why a routine cannot be armed, in the order in which the reasons are asked for.
pub open spec fn arming_error(
    routine_id: Seq<char>,
    config: ArmRoutineConfig,
    facts: ArmingFacts,
) -> Option<ErrorView> {
    if facts.id_check is Err {
        Some(facts.id_check->Err_0@)
    } else if arm_config_error(config) is Some {
        arm_config_error(config)
    } else if !facts.pressure.permits_write {
        Some(update_refused("routine_update action=arm"@, facts.pressure.level@))
    } else if facts.mined is Err {
        Some(facts.mined->Err_0@)
    } else if !facts.mined->Ok_0 {
        Some(not_mined(routine_id))
    } else {
        match facts.automation {
            Err(e) => Some(e@),
            Ok(None) => Some(no_automation(routine_id)),
            Ok(Some(automation)) => if !is_installed(automation.state@, automation.plan_ref@) {
                Some(
                    automation_not_installed(routine_id, automation.state@, automation.plan_ref@),
                )
            } else if facts.existing is Err {
                Some(facts.existing->Err_0@)
            } else {
                None
            },
        }
    }
}

/// The arming before a request is applied: the stored one, or a fresh one.
pub open spec fn arming_base(
    routine_id: Seq<char>,
    config: ArmRoutineConfig,
    existing: Option<ArmedRoutineRecord>,
    now: u64,
) -> ArmedView {
    match existing {
        Some(record) => record@,
        None => fresh_arming(routine_id, config, now),
    }
}

/// Arms a routine: gives the row to store, or why there is none.
pub fn arm_routine(
    routine_id: &str,
    config: ArmRoutineConfig,
    by_session: &str,
    note: Option<String>,
    facts: ArmingFacts,
    now: u64,
) -> (r: Result<ArmedRoutineRecord, ToolError>)
    ensures
        match r {
            Err(e) => arming_error(routine_id@, config, facts) == Some(e@),
            Ok(record) => {
                &&& arming_error(routine_id@, config, facts) is None
                &&& record@ == armed(
                    arming_base(routine_id@, config, facts.existing->Ok_0, now),
                    config,
                    by_session@,
                    optional_view(note),
                    facts.automation->Ok_0->Some_0.plan_ref@,
                    now,
                )
            },
        },
{
    match facts.id_check {
        Ok(()) => {},
        Err(e) => {
            return Err(e);
        },
    }
    match validate_arm_config(config) {
        Ok(()) => {},
        Err(e) => {
            return Err(e);
        },
    }
    if !facts.pressure.permits_write {
        return Err(refuse_update("routine_update action=arm", facts.pressure.level.as_str()));
    }
    match facts.mined {
        Ok(true) => {},
        Ok(false) => {
            return Err(
                invalid(
                    cat3(
                        "ROUTINE_NOT_MINED: routine_id ",
                        routine_id,
                        " is not in CF_ROUTINES; run routine_mine before arming",
                    ),
                ),
            );
        },
        Err(e) => {
            return Err(e);
        },
    }
    let automation = match facts.automation {
        Ok(Some(automation)) => automation,
        Ok(None) => {
            return Err(
                invalid(
                    cat3(
                        "ROUTINE_AUTOMATION_NOT_INSTALLED: routine_id ",
                        routine_id,
                        " has no routine_automation row; run routine_automate and accept the profile-authoring candidate before arming",
                    ),
                ),
            );
        },
        Err(e) => {
            return Err(e);
        },
    };
    if !text_equal(automation.state.as_str(), "installed") || blank(automation.plan_ref.as_str()) {
        let state = quoted(automation.state.as_str());
        let plan = quoted(automation.plan_ref.as_str());
        return Err(
            invalid(
                cat7(
                    "ROUTINE_AUTOMATION_NOT_INSTALLED: routine_id ",
                    routine_id,
                    " automation state is ",
                    state.as_str(),
                    ", plan_ref=",
                    plan.as_str(),
                    "; accept the profile-authoring candidate before arming",
                ),
            ),
        );
    }
    let existing = match facts.existing {
        Ok(existing) => existing,
        Err(e) => {
            return Err(e);
        },
    };
    let mut record = match existing {
        Some(record) => record,
        None => ArmedRoutineRecord {
            record_version: ARMED_ROUTINE_RECORD_VERSION,
            row_kind: "armed_routine".to_owned(),
            routine_id: routine_id.to_owned(),
            enabled: false,
            schedule_enabled: false,
            intent_enabled: false,
            failure_threshold: config.failure_threshold,
            consecutive_failures: 0,
            created_at_ns: now,
            updated_at_ns: now,
            armed_at_ns: None,
            armed_by: None,
            arm_note: None,
            disarmed_at_ns: None,
            disarmed_by: None,
            disarm_reason: None,
            plan_ref: None,
            last_schedule_fire_key: None,
            last_intent_fire_key: None,
            last_run_id: None,
            last_run_status: None,
            source_of_truth: ARMED_ROUTINE_SOURCE_OF_TRUTH.to_owned(),
        },
    };
    record.record_version = ARMED_ROUTINE_RECORD_VERSION;
    record.row_kind = "armed_routine".to_owned();
    record.enabled = true;
    record.schedule_enabled = config.schedule_enabled;
    record.intent_enabled = config.intent_enabled;
    record.failure_threshold = config.failure_threshold;
    record.consecutive_failures = 0;
    record.updated_at_ns = now;
    record.armed_at_ns = Some(now);
    record.armed_by = Some(by_session.to_owned());
    record.arm_note = note;
    record.disarmed_at_ns = None;
    record.disarmed_by = None;
    record.disarm_reason = None;
    record.plan_ref = Some(automation.plan_ref);
    record.last_run_status = None;
    Ok(record)
}

/// The error for disarming a routine that has no arming.
pub open spec fn never_armed(routine_id: Seq<char>) -> ErrorView {
    params_invalid("ARMED_ROUTINE_NOT_FOUND: routine_id "@ + routine_id + " is not armed"@)
}

/// An arming after it was switched off.
pub open spec fn disarmed(
    before: ArmedView,
    by_session: Seq<char>,
    reason: Option<Seq<char>>,
    now: u64,
) -> ArmedView {
    ArmedView {
        enabled: false,
        updated_at_ns: now,
        disarmed_at_ns: Some(now),
        disarmed_by: Some(by_session),
        disarm_reason: reason,
        ..before
    }
}

/// Disarms a routine: gives the row to store, or why there is none.
pub fn disarm_routine(
    routine_id: &str,
    by_session: &str,
    reason: Option<String>,
    id_check: Result<(), ToolError>,
    pressure: &WritePressure,
    existing: Result<Option<ArmedRoutineRecord>, ToolError>,
    now: u64,
) -> (r: Result<ArmedRoutineRecord, ToolError>)
    ensures
        if id_check is Err {
            r == Err::<ArmedRoutineRecord, ToolError>(id_check->Err_0)
        } else if !pressure.permits_write {
            r matches Err(e) && e@ == update_refused(
                "routine_update action=disarm"@,
                pressure.level@,
            )
        } else {
            match existing {
                Err(e) => r == Err::<ArmedRoutineRecord, ToolError>(e),
                Ok(None) => r matches Err(e) && e@ == never_armed(routine_id@),
                Ok(Some(before)) => r matches Ok(record) && record@ == disarmed(
                    before@,
                    by_session@,
                    optional_view(reason),
                    now,
                ),
            }
        },
{
    match id_check {
        Ok(()) => {},
        Err(e) => {
            return Err(e);
        },
    }
    if !pressure.permits_write {
        return Err(refuse_update("routine_update action=disarm", pressure.level.as_str()));
    }
    let mut record = match existing {
        Ok(Some(record)) => record,
        Ok(None) => {
            return Err(
                invalid(
                    cat3("ARMED_ROUTINE_NOT_FOUND: routine_id ", routine_id, " is not armed"),
                ),
            );
        },
        Err(e) => {
            return Err(e);
        },
    };
    record.enabled = false;
    record.updated_at_ns = now;
    record.disarmed_at_ns = Some(now);
    record.disarmed_by = Some(by_session.to_owned());
    record.disarm_reason = reason;
    Ok(record)
}

// ---------------------------------------------------------------------------------------------
// Rows
// ---------------------------------------------------------------------------------------------

/// The key of a routine's arming.
pub fn armed_routine_key(routine_id: &str) -> (r: String)
    ensures
        r@ == ARMED_ROUTINE_PREFIX@ + routine_id@,
{
    cat2(ARMED_ROUTINE_PREFIX, routine_id)
}

/// The key of a run.
pub fn armed_run_key(run_id: &str) -> (r: String)
    ensures
        r@ == ARMED_ROUTINE_RUN_PREFIX@ + run_id@,
{
    cat2(ARMED_ROUTINE_RUN_PREFIX, run_id)
}

/// The id of a run: routine, trigger, and start in twenty digits.
pub open spec fn run_id_text(
    routine_id: Seq<char>,
    trigger: ArmedRoutineTriggerKind,
    started_ts_ns: u64,
) -> Seq<char> {
    "arr1-"@ + routine_id + "-"@ + trigger.name() + "-"@ + zero_padded(started_ts_ns as nat, 20)
}

/// The id of a run.
pub fn armed_run_id(
    routine_id: &str,
    trigger: ArmedRoutineTriggerKind,
    started_ts_ns: u64,
) -> (r: String)
    ensures
        r@ == run_id_text(routine_id@, trigger, started_ts_ns),
{
    let digits = padded_text(started_ts_ns);
    cat6("arr1-", routine_id, "-", trigger.as_str(), "-", digits.as_str())
}

/// The error for a storage read that failed.
pub open spec fn storage_failure(detail: Seq<char>) -> ErrorView {
    ErrorView {
        code: STORAGE_READ_FAILED@,
        message: "armed routine storage failure: "@ + detail,
    }
}

/// Reports a storage read that failed.
pub fn storage_error(detail: &str) -> (r: ToolError)
    ensures
        r@ == storage_failure(detail@),
{
    mcp_error(STORAGE_READ_FAILED, cat2("armed routine storage failure: ", detail))
}

/// The error for a row of the given kind that cannot be decoded.
pub open spec fn decode_failure(kind: Seq<char>, place: Seq<char>, detail: Seq<char>) -> ErrorView {
    ErrorView {
        code: STORAGE_CORRUPTED@,
        message: kind + place + ": "@ + detail,
    }
}

/// Reads a routine's arming out of the rows found under its key.
pub fn load_armed_routine_record(
    routine_id: &str,
    id_check: Result<(), ToolError>,
    rows: &Result<Vec<StoredRow<ArmedRoutineRecord>>, String>,
) -> (r: Result<Option<ArmedRoutineRecord>, ToolError>)
    ensures
        match (id_check, rows) {
            (Err(e), _) => r == Err::<Option<ArmedRoutineRecord>, ToolError>(e),
            (Ok(_), Err(detail)) => r matches Err(e) && e@ == storage_failure(detail@),
            (Ok(_), Ok(rows)) => {
                let key = vstd::utf8::encode_utf8(ARMED_ROUTINE_PREFIX@ + routine_id@);
                match r {
                    Ok(None) => forall|j: int|
                        0 <= j < rows@.len() ==> (#[trigger] rows@[j]).key@ != key,
                    Ok(Some(record)) => exists|at: int| #[trigger]
                        first_row_with_key(rows@, key, at) && rows@[at].value == Ok::<
                            ArmedRoutineRecord,
                            String,
                        >(record),
                    Err(e) => exists|at: int| #[trigger]
                        first_row_with_key(rows@, key, at) && rows@[at].value is Err && e@
                            == decode_failure(
                            "ARMED_ROUTINE_ROW_DECODE_FAILED for "@,
                            routine_id@,
                            rows@[at].value->Err_0@,
                        ),
                }
            },
        },
{
    match id_check {
        Ok(()) => {},
        Err(e) => {
            return Err(e);
        },
    }
    let list = match rows {
        Ok(list) => list,
        Err(detail) => {
            return Err(storage_error(detail.as_str()));
        },
    };
    let key = armed_routine_key(routine_id);
    match find_row(list, key.as_str().as_bytes()) {
        None => Ok(None),
        Some(at) => match &list[at].value {
            Ok(record) => Ok(Some(record.clone())),
            Err(detail) => {
                let error = mcp_error(
                    STORAGE_CORRUPTED,
                    cat4(
                        "ARMED_ROUTINE_ROW_DECODE_FAILED for ",
                        routine_id,
                        ": ",
                        detail.as_str(),
                    ),
                );
                assert(error@ == decode_failure(
                    "ARMED_ROUTINE_ROW_DECODE_FAILED for "@,
                    routine_id@,
                    list@[at as int].value->Err_0@,
                ));
                Err(error)
            },
        },
    }
}

/// The error for an arming that is gone right after it was written.
pub open spec fn readback_missing(routine_id: Seq<char>) -> ErrorView {
    ErrorView {
        code: STORAGE_CORRUPTED@,
        message: "ARMED_ROUTINE_READBACK_MISSING for "@ + routine_id,
    }
}

/// Insists that an arming was found.
pub fn read_armed_required(
    routine_id: &str,
    found: Result<Option<ArmedRoutineRecord>, ToolError>,
) -> (r: Result<ArmedRoutineRecord, ToolError>)
    ensures
        match found {
            Err(e) => r == Err::<ArmedRoutineRecord, ToolError>(e),
            Ok(None) => r matches Err(e) && e@ == readback_missing(routine_id@),
            Ok(Some(record)) => r == Ok::<ArmedRoutineRecord, ToolError>(record),
        },
{
    match found {
        Err(e) => Err(e),
        Ok(None) => Err(
            mcp_error(
                STORAGE_CORRUPTED,
                cat2("ARMED_ROUTINE_READBACK_MISSING for ", routine_id),
            ),
        ),
        Ok(Some(record)) => Ok(record),
    }
}

/// How a write went: whether the row could be encoded and stored, and what was read back.
#[derive(Debug)]
pub struct ArmedWriteOutcome {
    pub encoded: Result<(), String>,
    pub stored: Result<(), String>,
    pub readback: Result<Option<ArmedRoutineRecord>, ToolError>,
}

/// Why the write of an arming does not count, if it does not.
pub open spec fn armed_write_error(record: ArmedView, outcome: ArmedWriteOutcome) -> Option<ErrorView> {
    if outcome.encoded is Err {
        Some(
            ErrorView {
                code: STORAGE_WRITE_FAILED@,
                message: "failed to encode armed routine row for "@ + record.routine_id + ": "@
                    + outcome.encoded->Err_0@,
            },
        )
    } else if outcome.stored is Err {
        Some(
            ErrorView {
                code: STORAGE_WRITE_FAILED@,
                message: "failed to persist armed routine row for "@ + record.routine_id + ": "@
                    + outcome.stored->Err_0@,
            },
        )
    } else {
        match outcome.readback {
            Err(e) => Some(e@),
            Ok(None) => Some(readback_missing(record.routine_id)),
            Ok(Some(readback)) => if readback@ == record {
                None
            } else {
                Some(
                    ErrorView {
                        code: STORAGE_CORRUPTED@,
                        message: "ARMED_ROUTINE_READBACK_MISMATCH for "@ + record.routine_id
                            + ": persisted row != value just written"@,
                    },
                )
            },
        }
    }
}

/// Judges the write of an arming: it counts where the row read back is the row written.
pub fn write_armed_routine_record(record: &ArmedRoutineRecord, outcome: ArmedWriteOutcome) -> (r:
    Result<(), ToolError>)
    ensures
        match r {
            Ok(_) => armed_write_error(record@, outcome) is None,
            Err(e) => armed_write_error(record@, outcome) == Some(e@),
        },
{
    if let Err(detail) = outcome.encoded {
        return Err(
            mcp_error(
                STORAGE_WRITE_FAILED,
                cat4(
                    "failed to encode armed routine row for ",
                    record.routine_id.as_str(),
                    ": ",
                    detail.as_str(),
                ),
            ),
        );
    }
    if let Err(detail) = outcome.stored {
        return Err(
            mcp_error(
                STORAGE_WRITE_FAILED,
                cat4(
                    "failed to persist armed routine row for ",
                    record.routine_id.as_str(),
                    ": ",
                    detail.as_str(),
                ),
            ),
        );
    }
    let readback = match read_armed_required(record.routine_id.as_str(), outcome.readback) {
        Ok(readback) => readback,
        Err(e) => {
            return Err(e);
        },
    };
    if !armed_equal(&readback, record) {
        return Err(
            mcp_error(
                STORAGE_CORRUPTED,
                cat3(
                    "ARMED_ROUTINE_READBACK_MISMATCH for ",
                    record.routine_id.as_str(),
                    ": persisted row != value just written",
                ),
            ),
        );
    }
    Ok(())
}

/// Reads a run out of the rows found under its key.
pub fn load_armed_run(
    run_id: &str,
    rows: Result<Vec<StoredRow<ArmedRoutineRunRecord>>, String>,
) -> (r: Result<Option<ArmedRoutineRunRecord>, ToolError>)
    ensures
        match rows {
            Err(detail) => r matches Err(e) && e@ == storage_failure(detail@),
            Ok(rows) => {
                let key = vstd::utf8::encode_utf8(ARMED_ROUTINE_RUN_PREFIX@ + run_id@);
                match r {
                    Ok(None) => forall|j: int|
                        0 <= j < rows@.len() ==> (#[trigger] rows@[j]).key@ != key,
                    Ok(Some(record)) => exists|at: int| #[trigger]
                        first_row_with_key(rows@, key, at) && rows@[at].value == Ok::<
                            ArmedRoutineRunRecord,
                            String,
                        >(record),
                    Err(e) => exists|at: int| #[trigger]
                        first_row_with_key(rows@, key, at) && rows@[at].value is Err && e@
                            == decode_failure(
                            "ARMED_ROUTINE_RUN_ROW_DECODE_FAILED for "@,
                            run_id@,
                            rows@[at].value->Err_0@,
                        ),
                }
            },
        },
{
    let mut list = match rows {
        Ok(list) => list,
        Err(detail) => {
            return Err(storage_error(detail.as_str()));
        },
    };
    let key = armed_run_key(run_id);
    let ghost before = list@;
    match find_row(&list, key.as_str().as_bytes()) {
        None => Ok(None),
        Some(at) => {
            let row = list.swap_remove(at);
            assert(row == before[at as int]);
            match row.value {
                Ok(record) => Ok(Some(record)),
                Err(detail) => {
                    let error = mcp_error(
                        STORAGE_CORRUPTED,
                        cat4(
                            "ARMED_ROUTINE_RUN_ROW_DECODE_FAILED for ",
                            run_id,
                            ": ",
                            detail.as_str(),
                        ),
                    );
                    assert(error@ == decode_failure(
                        "ARMED_ROUTINE_RUN_ROW_DECODE_FAILED for "@,
                        run_id@,
                        before[at as int].value->Err_0@,
                    ));
                    Err(error)
                },
            }
        },
    }
}

/// How the write of an arming and a run went.
#[derive(Debug)]
pub struct RunWriteOutcome {
    pub pressure: WritePressure,
    pub armed_encoded: Result<(), String>,
    pub run_encoded: Result<(), String>,
    pub stored: Result<(), String>,
    pub armed_readback: Result<Option<ArmedRoutineRecord>, ToolError>,
    pub run_readback: Result<Option<ArmedRoutineRunRecord>, ToolError>,
}

/// Why the write of an arming and a run does not count, if it does not.
pub open spec fn run_write_error(
    armed: ArmedView,
    run: RunView,
    outcome: RunWriteOutcome,
) -> Option<ErrorView> {
    if !outcome.pressure.permits_write {
        Some(
            ErrorView {
                code: STORAGE_WRITE_FAILED@,
                message: "armed routine write refused under disk pressure: pressure_level="@
                    + outcome.pressure.level@,
            },
        )
    } else if outcome.armed_encoded is Err {
        Some(
            ErrorView {
                code: STORAGE_WRITE_FAILED@,
                message: "failed to encode armed routine row: "@ + outcome.armed_encoded->Err_0@,
            },
        )
    } else if outcome.run_encoded is Err {
        Some(
            ErrorView {
                code: STORAGE_WRITE_FAILED@,
                message: "failed to encode armed routine run row: "@ + outcome.run_encoded->Err_0@,
            },
        )
    } else if outcome.stored is Err {
        Some(
            ErrorView {
                code: STORAGE_WRITE_FAILED@,
                message: "failed to persist armed routine run "@ + run.run_id + ": "@
                    + outcome.stored->Err_0@,
            },
        )
    } else {
        match outcome.armed_readback {
            Err(e) => Some(e@),
            Ok(None) => Some(readback_missing(armed.routine_id)),
            Ok(Some(armed_readback)) => if armed_readback@ != armed {
                Some(
                    ErrorView {
                        code: STORAGE_CORRUPTED@,
                        message: "ARMED_ROUTINE_READBACK_MISMATCH for "@ + armed.routine_id,
                    },
                )
            } else {
                match outcome.run_readback {
                    Err(e) => Some(e@),
                    Ok(None) => Some(
                        ErrorView {
                            code: STORAGE_CORRUPTED@,
                            message: "ARMED_ROUTINE_RUN_READBACK_MISSING for "@ + run.run_id,
                        },
                    ),
                    Ok(Some(run_readback)) => if run_same(run_readback@, run) {
                        None
                    } else {
                        Some(
                            ErrorView {
                                code: STORAGE_CORRUPTED@,
                                message: "ARMED_ROUTINE_RUN_READBACK_MISMATCH for "@ + run.run_id,
                            },
                        )
                    },
                }
            },
        }
    }
}

/// Judges the write of an arming and a run: it counts where both rows read back are the rows
/// written.
pub fn write_armed_and_run_records(
    armed: &ArmedRoutineRecord,
    run: &ArmedRoutineRunRecord,
    outcome: RunWriteOutcome,
) -> (r: Result<(), ToolError>)
    ensures
        match r {
            Ok(_) => run_write_error(armed@, run@, outcome) is None,
            Err(e) => run_write_error(armed@, run@, outcome) == Some(e@),
        },
{
    if !outcome.pressure.permits_write {
        return Err(
            mcp_error(
                STORAGE_WRITE_FAILED,
                cat2(
                    "armed routine write refused under disk pressure: pressure_level=",
                    outcome.pressure.level.as_str(),
                ),
            ),
        );
    }
    if let Err(detail) = outcome.armed_encoded {
        return Err(
            mcp_error(
                STORAGE_WRITE_FAILED,
                cat2("failed to encode armed routine row: ", detail.as_str()),
            ),
        );
    }
    if let Err(detail) = outcome.run_encoded {
        return Err(
            mcp_error(
                STORAGE_WRITE_FAILED,
                cat2("failed to encode armed routine run row: ", detail.as_str()),
            ),
        );
    }
    if let Err(detail) = outcome.stored {
        return Err(
            mcp_error(
                STORAGE_WRITE_FAILED,
                cat4(
                    "failed to persist armed routine run ",
                    run.run_id.as_str(),
                    ": ",
                    detail.as_str(),
                ),
            ),
        );
    }
    let armed_readback = match read_armed_required(
        armed.routine_id.as_str(),
        outcome.armed_readback,
    ) {
        Ok(readback) => readback,
        Err(e) => {
            return Err(e);
        },
    };
    if !armed_equal(&armed_readback, armed) {
        return Err(
            mcp_error(
                STORAGE_CORRUPTED,
                cat2("ARMED_ROUTINE_READBACK_MISMATCH for ", armed.routine_id.as_str()),
            ),
        );
    }
    let run_readback = match outcome.run_readback {
        Ok(Some(readback)) => readback,
        Ok(None) => {
            return Err(
                mcp_error(
                    STORAGE_CORRUPTED,
                    cat2("ARMED_ROUTINE_RUN_READBACK_MISSING for ", run.run_id.as_str()),
                ),
            );
        },
        Err(e) => {
            return Err(e);
        },
    };
    if !runs_equal(&run_readback, run) {
        return Err(
            mcp_error(
                STORAGE_CORRUPTED,
                cat2("ARMED_ROUTINE_RUN_READBACK_MISMATCH for ", run.run_id.as_str()),
            ),
        );
    }
    Ok(())
}

// ---------------------------------------------------------------------------------------------
// Claiming and completing a run
// ---------------------------------------------------------------------------------------------

/// The key of the trigger of a kind that fired last.
pub open spec fn last_fire_key(armed: ArmedView, kind: ArmedRoutineTriggerKind) -> Option<Seq<char>> {
    match kind {
        ArmedRoutineTriggerKind::Schedule => armed.last_schedule_fire_key,
        ArmedRoutineTriggerKind::Intent => armed.last_intent_fire_key,
    }
}

/// An arming after a trigger of it was claimed.
pub open spec fn claimed(armed: ArmedView, due: DueView, now: u64) -> ArmedView {
    ArmedView {
        last_schedule_fire_key: if due.trigger_kind is Schedule {
            Some(due.trigger_key)
        } else {
            armed.last_schedule_fire_key
        },
        last_intent_fire_key: if due.trigger_kind is Intent {
            Some(due.trigger_key)
        } else {
            armed.last_intent_fire_key
        },
        updated_at_ns: now,
        last_run_id: Some(run_id_text(due.routine_id, due.trigger_kind, now)),
        last_run_status: Some(ArmedRoutineRunStatus::Started),
        ..armed
    }
}

/// The run that a claim starts.
pub open spec fn started_run(armed: ArmedView, due: DueView, now: u64) -> RunView {
    RunView {
        record_version: ARMED_ROUTINE_RUN_RECORD_VERSION,
        row_kind: "armed_routine_run"@,
        run_id: run_id_text(due.routine_id, due.trigger_kind, now),
        routine_id: due.routine_id,
        trigger_kind: due.trigger_kind,
        trigger_key: due.trigger_key,
        started_ts_ns: now,
        completed_ts_ns: now,
        dry_run: false,
        status: ArmedRoutineRunStatus::Started,
        plan_ref: due.plan_ref,
        execution_id: None,
        approval_id: None,
        failure_count_after: armed.consecutive_failures,
        disarmed_after_failure: false,
        intent: due.intent,
        error_code: None,
        error: None,
        evidence: object1("claimed"@, JsonView::Bool(true)),
        source_of_truth: ARMED_ROUTINE_SOURCE_OF_TRUTH@,
    }
}

/// The error for a trigger that was claimed before.
pub open spec fn duplicate_trigger(trigger_key: Seq<char>) -> ErrorView {
    params_invalid(
        "ARMED_ROUTINE_DUPLICATE_TRIGGER: "@ + trigger_key + " already claimed"@,
    )
}

/// Why an arming does not let a trigger be claimed, if it does not.
pub open spec fn claim_error(armed: ArmedView, due: DueView) -> Option<ErrorView> {
    if !armed.enabled {
        Some(
            params_invalid(
                "ARMED_ROUTINE_DISABLED: routine_id "@ + due.routine_id + " is no longer enabled"@,
            ),
        )
    } else if last_fire_key(armed, due.trigger_kind) == Some(due.trigger_key) {
        Some(duplicate_trigger(due.trigger_key))
    } else {
        None
    }
}

fn key_is(found: &Option<String>, key: &str) -> (r: bool)
    ensures
        r == (optional_view(*found) == Some(key@)),
{
    match found {
        Some(text) => text_equal(text.as_str(), key),
        None => false,
    }
}

/// Claims a trigger: gives the arming and the run to store, or why the trigger cannot be claimed.
pub fn claim_armed_run(
    due: &ArmedRoutineDueRun,
    now: u64,
    pressure: &WritePressure,
    found: Result<Option<ArmedRoutineRecord>, ToolError>,
) -> (r: Result<(ArmedRoutineRecord, ArmedRoutineRunRecord), ToolError>)
    ensures
        if !pressure.permits_write {
            r matches Err(e) && e@ == update_refused("armed_routine_tick"@, pressure.level@)
        } else {
            match found {
                Err(e) => r == Err::<(ArmedRoutineRecord, ArmedRoutineRunRecord), ToolError>(e),
                Ok(None) => r matches Err(e) && e@ == params_invalid(
                    "ARMED_ROUTINE_NOT_FOUND: routine_id "@ + due.routine_id@
                        + " is no longer armed"@,
                ),
                Ok(Some(before)) => match r {
                    Err(e) => claim_error(before@, due@) == Some(e@),
                    Ok((armed, run)) => {
                        &&& claim_error(before@, due@) is None
                        &&& armed@ == claimed(before@, due@, now)
                        &&& run@ == started_run(before@, due@, now)
                    },
                },
            }
        },
{
    if !pressure.permits_write {
        return Err(refuse_update("armed_routine_tick", pressure.level.as_str()));
    }
    let mut armed = match found {
        Ok(Some(armed)) => armed,
        Ok(None) => {
            return Err(
                invalid(
                    cat3(
                        "ARMED_ROUTINE_NOT_FOUND: routine_id ",
                        due.routine_id.as_str(),
                        " is no longer armed",
                    ),
                ),
            );
        },
        Err(e) => {
            return Err(e);
        },
    };
    if !armed.enabled {
        return Err(
            invalid(
                cat3(
                    "ARMED_ROUTINE_DISABLED: routine_id ",
                    due.routine_id.as_str(),
                    " is no longer enabled",
                ),
            ),
        );
    }
    let ghost before = armed@;
    match due.trigger_kind {
        ArmedRoutineTriggerKind::Schedule => {
            if key_is(&armed.last_schedule_fire_key, due.trigger_key.as_str()) {
                return Err(
                    invalid(
                        cat3(
                            "ARMED_ROUTINE_DUPLICATE_TRIGGER: ",
                            due.trigger_key.as_str(),
                            " already claimed",
                        ),
                    ),
                );
            }
            armed.last_schedule_fire_key = Some(due.trigger_key.clone());
        },
        ArmedRoutineTriggerKind::Intent => {
            if key_is(&armed.last_intent_fire_key, due.trigger_key.as_str()) {
                return Err(
                    invalid(
                        cat3(
                            "ARMED_ROUTINE_DUPLICATE_TRIGGER: ",
                            due.trigger_key.as_str(),
                            " already claimed",
                        ),
                    ),
                );
            }
            armed.last_intent_fire_key = Some(due.trigger_key.clone());
        },
    }
    let run_id = armed_run_id(due.routine_id.as_str(), due.trigger_kind, now);
    armed.updated_at_ns = now;
    armed.last_run_id = Some(run_id.clone());
    armed.last_run_status = Some(ArmedRoutineRunStatus::Started);
    let run = ArmedRoutineRunRecord {
        record_version: ARMED_ROUTINE_RUN_RECORD_VERSION,
        row_kind: "armed_routine_run".to_owned(),
        run_id,
        routine_id: due.routine_id.clone(),
        trigger_kind: due.trigger_kind,
        trigger_key: due.trigger_key.clone(),
        started_ts_ns: now,
        completed_ts_ns: now,
        dry_run: false,
        status: ArmedRoutineRunStatus::Started,
        plan_ref: clone_optional(&due.plan_ref),
        execution_id: None,
        approval_id: None,
        failure_count_after: armed.consecutive_failures,
        disarmed_after_failure: false,
        intent: due.intent,
        error_code: None,
        error: None,
        evidence: flag_object("claimed", true),
        source_of_truth: ARMED_ROUTINE_SOURCE_OF_TRUTH.to_owned(),
    };
    assert(armed@ =~= claimed(before, due@, now));
    assert(run@ =~= started_run(before, due@, now));
    Ok((armed, run))
}

/// What execution says of a run when it ends.
#[derive(Debug)]
pub struct RunReport {
    pub status: ArmedRoutineRunStatus,
    pub plan_ref: Option<String>,
    pub execution_id: Option<String>,
    pub approval_id: Option<String>,
    pub error_code: Option<String>,
    pub error: Option<String>,
    pub evidence: Json,
}

/// The failures in a row once a run has ended: one more after a failure, none after a success,
/// unchanged otherwise.
pub open spec fn failures_after(failures: u32, status: ArmedRoutineRunStatus) -> u32 {
    if status is Failed {
        if failures < u32::MAX {
            (failures + 1) as u32
        } else {
            u32::MAX
        }
    } else if status is Succeeded {
        0
    } else {
        failures
    }
}

/// Whether the end of a run disarms its routine: it failed and the threshold is reached.
pub open spec fn disarms(armed: ArmedView, status: ArmedRoutineRunStatus) -> bool {
    status is Failed && failures_after(armed.consecutive_failures, status)
        >= armed.failure_threshold
}

/// An arming after a run of it has ended.
pub open spec fn completed(
    armed: ArmedView,
    run_id: Seq<char>,
    status: ArmedRoutineRunStatus,
    now: u64,
) -> ArmedView {
    let failures = failures_after(armed.consecutive_failures, status);
    let counted = ArmedView {
        consecutive_failures: failures,
        updated_at_ns: now,
        last_run_id: Some(run_id),
        last_run_status: Some(status),
        ..armed
    };
    if disarms(armed, status) {
        ArmedView {
            enabled: false,
            disarmed_at_ns: Some(now),
            disarmed_by: Some("armed-routine-runner"@),
            disarm_reason: Some(
                "self-disarmed after "@ + decimal(failures as nat) + " consecutive failures"@,
            ),
            ..counted
        }
    } else {
        counted
    }
}

/// A run after it has ended.
pub open spec fn finished_run(
    run: RunView,
    armed: ArmedView,
    report: RunReport,
    now: u64,
) -> RunView {
    RunView {
        completed_ts_ns: now,
        status: report.status,
        plan_ref: match report.plan_ref {
            Some(plan) => Some(plan@),
            None => run.plan_ref,
        },
        execution_id: optional_view(report.execution_id),
        approval_id: optional_view(report.approval_id),
        failure_count_after: failures_after(armed.consecutive_failures, report.status),
        disarmed_after_failure: disarms(armed, report.status),
        error_code: optional_view(report.error_code),
        error: optional_view(report.error),
        evidence: report.evidence@,
        ..run
    }
}

/// Completes a run: gives the arming and the run to store.
pub fn complete_armed_run(
    run: ArmedRoutineRunRecord,
    report: RunReport,
    found: Result<Option<ArmedRoutineRecord>, ToolError>,
    now: u64,
) -> (r: Result<(ArmedRoutineRecord, ArmedRoutineRunRecord), ToolError>)
    ensures
        match found {
            Err(e) => r == Err::<(ArmedRoutineRecord, ArmedRoutineRunRecord), ToolError>(e),
            Ok(None) => r matches Err(e) && e@ == params_invalid(
                "ARMED_ROUTINE_NOT_FOUND: routine_id "@ + run.routine_id@
                    + " vanished before run completion"@,
            ),
            Ok(Some(before)) => r matches Ok(after) && after.0@ == completed(
                before@,
                run.run_id@,
                report.status,
                now,
            ) && after.1@ == finished_run(run@, before@, report, now),
        },
{
    let mut run = run;
    let mut armed = match found {
        Ok(Some(armed)) => armed,
        Ok(None) => {
            return Err(
                invalid(
                    cat3(
                        "ARMED_ROUTINE_NOT_FOUND: routine_id ",
                        run.routine_id.as_str(),
                        " vanished before run completion",
                    ),
                ),
            );
        },
        Err(e) => {
            return Err(e);
        },
    };
    let ghost before = armed@;
    let ghost started = run@;
    let ghost told = report;
    let status = report.status;
    if status.is_failure() {
        armed.consecutive_failures = armed.consecutive_failures.saturating_add(1);
    } else if matches!(status, ArmedRoutineRunStatus::Succeeded) {
        armed.consecutive_failures = 0;
    }
    let disarmed_after_failure = status.is_failure() && armed.consecutive_failures
        >= armed.failure_threshold;
    if disarmed_after_failure {
        let count = decimal_text(armed.consecutive_failures as u64);
        armed.enabled = false;
        armed.disarmed_at_ns = Some(now);
        armed.disarmed_by = Some("armed-routine-runner".to_owned());
        armed.disarm_reason = Some(
            cat3("self-disarmed after ", count.as_str(), " consecutive failures"),
        );
    }
    armed.updated_at_ns = now;
    armed.last_run_id = Some(run.run_id.clone());
    armed.last_run_status = Some(status);
    run.completed_ts_ns = now;
    run.status = status;
    match report.plan_ref {
        Some(plan) => {
            run.plan_ref = Some(plan);
        },
        None => {},
    }
    run.execution_id = report.execution_id;
    run.approval_id = report.approval_id;
    run.failure_count_after = armed.consecutive_failures;
    run.disarmed_after_failure = disarmed_after_failure;
    run.error_code = report.error_code;
    run.error = report.error;
    run.evidence = report.evidence;
    assert(armed@ =~= completed(before, started.run_id, status, now));
    assert(run@ =~= finished_run(started, before, told, now));
    Ok((armed, run))
}

/// A due run as a dry run reports it.
pub fn dry_run_tick_run(due: &ArmedRoutineDueRun) -> (r: ArmedRoutineTickRun)
    ensures
        r == (ArmedRoutineTickRun {
            routine_id: due.routine_id,
            trigger_kind: due.trigger_kind,
            trigger_key: due.trigger_key,
            status: ArmedRoutineRunStatus::DryRun,
            run_id: None,
            execution_id: None,
            approval_id: None,
            failure_count_after: 0,
            disarmed_after_failure: false,
            error_code: None,
            error: None,
        }),
{
    ArmedRoutineTickRun {
        routine_id: due.routine_id.clone(),
        trigger_kind: due.trigger_kind,
        trigger_key: due.trigger_key.clone(),
        status: ArmedRoutineRunStatus::DryRun,
        run_id: None,
        execution_id: None,
        approval_id: None,
        failure_count_after: 0,
        disarmed_after_failure: false,
        error_code: None,
        error: None,
    }
}

/// A run as a tick reports it.
pub fn tick_run_from_record(run: &ArmedRoutineRunRecord) -> (r: ArmedRoutineTickRun)
    ensures
        r == (ArmedRoutineTickRun {
            routine_id: run.routine_id,
            trigger_kind: run.trigger_kind,
            trigger_key: run.trigger_key,
            status: run.status,
            run_id: Some(run.run_id),
            execution_id: run.execution_id,
            approval_id: run.approval_id,
            failure_count_after: run.failure_count_after,
            disarmed_after_failure: run.disarmed_after_failure,
            error_code: run.error_code,
            error: run.error,
        }),
{
    ArmedRoutineTickRun {
        routine_id: run.routine_id.clone(),
        trigger_kind: run.trigger_kind,
        trigger_key: run.trigger_key.clone(),
        status: run.status,
        run_id: Some(run.run_id.clone()),
        execution_id: clone_optional(&run.execution_id),
        approval_id: clone_optional(&run.approval_id),
        failure_count_after: run.failure_count_after,
        disarmed_after_failure: run.disarmed_after_failure,
        error_code: clone_optional(&run.error_code),
        error: clone_optional(&run.error),
    }
}

// ---------------------------------------------------------------------------------------------
// Reading all armings
// ---------------------------------------------------------------------------------------------

/// A scan over all armings: what it has collected, how many rows it has read, and where it reads
/// next.
#[derive(Debug)]
pub struct ArmedScan {
    pub out: Vec<ArmedRoutineRecord>,
    pub scanned: usize,
    pub start: Vec<u8>,
}

/// What a scan does next.
#[derive(Debug)]
pub enum ArmedScanStep {
    /// Read the next chunk from the scan's start key.
    Read(ArmedScan),
    /// The scan is over.
    Done(Result<Vec<ArmedRoutineRecord>, ToolError>),
}

/// The bytes with which the key of every arming begins.
pub open spec fn armed_prefix_bytes() -> Seq<u8> {
    vstd::utf8::encode_utf8(ARMED_ROUTINE_PREFIX@)
}

/// What the rows of a chunk come to.
pub enum RowsOutcome {
    /// Every row is an arming; these have been collected.
    All(Seq<ArmedRoutineRecord>),
    /// A row lies behind the armings; these have been collected.
    Left(Seq<ArmedRoutineRecord>),
    /// A row cannot be decoded.
    Bad(ErrorView),
}

/// Collects rows until one lies behind the armings or cannot be decoded.
pub open spec fn collect_rows(
    rows: Seq<StoredRow<ArmedRoutineRecord>>,
    out: Seq<ArmedRoutineRecord>,
) -> RowsOutcome
    decreases rows.len(),
{
    if rows.len() == 0 {
        RowsOutcome::All(out)
    } else if !armed_prefix_bytes().is_prefix_of(rows[0].key@) {
        RowsOutcome::Left(out)
    } else {
        match rows[0].value {
            Ok(record) => collect_rows(rows.drop_first(), out.push(record)),
            Err(detail) => RowsOutcome::Bad(
                decode_failure(
                    "ARMED_ROUTINE_ROW_DECODE_FAILED at "@,
                    hex_of(rows[0].key@),
                    detail@,
                ),
            ),
        }
    }
}

/// The error for a scan that has read too many rows.
pub open spec fn scan_exhausted() -> ErrorView {
    crate::error::internal_error(
        "ARMED_ROUTINE_SCAN_BUDGET_EXHAUSTED after 200000 CF_KV rows"@,
    )
}

impl ArmedScan {
    /// Starts a scan at the first possible arming.
    pub fn begin() -> (r: ArmedScan)
        ensures
            r.out@.len() == 0,
            r.scanned == 0,
            r.start@ == armed_prefix_bytes(),
    {
        ArmedScan {
            out: Vec::new(),
            scanned: 0,
            start: crate::keys::copy_key(ARMED_ROUTINE_PREFIX.as_bytes()),
        }
    }

    /// Takes in the chunk that was read from the start key.
    pub fn absorb(self, chunk: &Result<RowChunk<ArmedRoutineRecord>, String>) -> (r: ArmedScanStep)
        ensures
            match chunk {
                Err(detail) => r matches ArmedScanStep::Done(Err(e)) && e@ == storage_failure(
                    detail@,
                ),
                Ok(chunk) => match collect_rows(chunk.rows@, self.out@) {
                    RowsOutcome::Bad(error) => r matches ArmedScanStep::Done(Err(e)) && e@ == error,
                    RowsOutcome::Left(found) => r matches ArmedScanStep::Done(Ok(out)) && out@
                        == found,
                    RowsOutcome::All(found) => if chunk.rows@.len() == 0 || !chunk.more {
                        r matches ArmedScanStep::Done(Ok(out)) && out@ == found
                    } else if self.scanned + chunk.rows@.len() >= MAX_SCAN_ROWS {
                        r matches ArmedScanStep::Done(Err(e)) && e@ == scan_exhausted()
                    } else {
                        r matches ArmedScanStep::Read(next) && next.out@ == found && next.scanned
                            == self.scanned + chunk.rows@.len() && next.start@
                            == chunk.rows@.last().key@.push(0)
                    },
                },
            },
    {
        let body = match chunk {
            Ok(body) => body,
            Err(detail) => {
                return ArmedScanStep::Done(Err(storage_error(detail.as_str())));
            },
        };
        let ghost collected = self.out@;
        let mut out = self.out;
        let mut scanned: usize = self.scanned;
        let mut i: usize = 0;
        assert(body.rows@.skip(0) =~= body.rows@);
        while i < body.rows.len()
            invariant
                i <= body.rows@.len(),
                *chunk == Ok::<RowChunk<ArmedRoutineRecord>, String>(*body),
                collect_rows(body.rows@, collected) == collect_rows(
                    body.rows@.skip(i as int),
                    out@,
                ),
                scanned == (if self.scanned + i <= usize::MAX {
                    self.scanned + i
                } else {
                    usize::MAX as int
                }),
                self.out@ == collected,
            decreases body.rows@.len() - i,
        {
            let row = &body.rows[i];
            proof {
                assert(body.rows@.skip(i as int)[0] == body.rows@[i as int]);
                assert(body.rows@.skip(i as int).drop_first() =~= body.rows@.skip(i + 1));
            }
            if !bytes_start_with(row.key.as_slice(), ARMED_ROUTINE_PREFIX.as_bytes()) {
                return ArmedScanStep::Done(Ok(out));
            }
            scanned = scanned.saturating_add(1);
            match &row.value {
                Ok(record) => {
                    out.push(record.clone());
                },
                Err(detail) => {
                    let place = hex_encode(row.key.as_slice());
                    return ArmedScanStep::Done(
                        Err(
                            mcp_error(
                                STORAGE_CORRUPTED,
                                cat4(
                                    "ARMED_ROUTINE_ROW_DECODE_FAILED at ",
                                    place.as_str(),
                                    ": ",
                                    detail.as_str(),
                                ),
                            ),
                        ),
                    );
                },
            }
            i += 1;
        }
        assert(body.rows@.skip(i as int) =~= Seq::empty());
        if body.rows.len() == 0 || !body.more {
            return ArmedScanStep::Done(Ok(out));
        }
        let start = key_after(body.rows[body.rows.len() - 1].key.as_slice());
        if scanned >= MAX_SCAN_ROWS {
            return ArmedScanStep::Done(
                Err(
                    internal(
                        "ARMED_ROUTINE_SCAN_BUDGET_EXHAUSTED after 200000 CF_KV rows".to_owned(),
                    ),
                ),
            );
        }
        ArmedScanStep::Read(ArmedScan { out, scanned, start })
    }
}

// ---------------------------------------------------------------------------------------------
// Due runs
// ---------------------------------------------------------------------------------------------

/// When a mined routine usually runs.
#[derive(Debug, PartialEq, Eq)]
pub struct RoutineSchedule {
    pub dow_class: RoutineDowClass,
    pub mean_minute_of_day: u32,
    pub tolerance_minutes: u32,
}

/// What is read of a routine to decide whether it is due.
#[derive(Debug)]
pub struct RoutineFacts {
    pub schedule: Result<Option<RoutineSchedule>, ToolError>,
    /// The lifecycle of the routine's state row, where it has one.
    pub lifecycle: Result<Option<RoutineLifecycle>, ToolError>,
    pub automation: Result<Option<RoutineAutomation>, ToolError>,
}

/// The local calendar at the instant of a tick.
#[derive(Debug)]
pub struct TickCalendar {
    /// The instant at which the local day began.
    pub day_start: Result<u64, ToolError>,
    /// The instant at which the local day before it began.
    pub previous_day_start: Result<u64, ToolError>,
    /// The instant at which the local day after it begins.
    pub next_day_start: Result<u64, ToolError>,
    /// The local day of the week; 0 is Monday.
    pub weekday: Result<u8, ToolError>,
}

/// The distance of two minutes of the day on the clock face.
pub open spec fn clock_distance(a: int, b: int) -> int {
    let raw = if a >= b {
        a - b
    } else {
        b - a
    };
    if raw <= 1440 - raw {
        raw
    } else {
        1440 - raw
    }
}

/// The distance of two minutes of the day on the clock face.
pub fn circular_minute_distance(a: u32, b: u32) -> (r: u32)
    requires
        a <= b + 1440,
        b <= a + 1440,
    ensures
        r == clock_distance(a as int, b as int),
{
    let raw: u32 = if a >= b {
        a - b
    } else {
        b - a
    };
    if raw <= 1440 - raw {
        raw
    } else {
        1440 - raw
    }
}

/// Whether a day of the week belongs to a class of days.
pub open spec fn day_matches(dow: RoutineDowClass, weekday: u8) -> bool {
    match dow {
        RoutineDowClass::Daily => true,
        RoutineDowClass::Weekdays => weekday <= 4,
        RoutineDowClass::Weekend => weekday >= 5,
        RoutineDowClass::Days { days } => days@.contains(weekday),
    }
}

/// Whether a day of the week belongs to a class of days.
pub fn dow_matches(dow: &RoutineDowClass, weekday: u8) -> (r: bool)
    ensures
        r == day_matches(*dow, weekday),
{
    match dow {
        RoutineDowClass::Daily => true,
        RoutineDowClass::Weekdays => weekday <= 4,
        RoutineDowClass::Weekend => weekday >= 5,
        RoutineDowClass::Days { days } => {
            let mut i: usize = 0;
            while i < days.len()
                invariant
                    i <= days@.len(),
                    *dow == (RoutineDowClass::Days { days: *days }),
                    forall|k: int| 0 <= k < i ==> days@[k] != weekday,
                decreases days@.len() - i,
            {
                if days[i] == weekday {
                    assert(days@[i as int] == weekday);
                    return true;
                }
                i += 1;
            }
            false
        },
    }
}

/// The local day of the week of an instant.
pub fn weekday_for_ts(ts_ns: u64) -> (r: Result<u8, ToolError>)
    ensures
        match r {
            Ok(weekday) => ts_ns <= i64::MAX && weekday <= 6 && is_near_weekday(
                weekday as int,
                ts_ns as int,
            ),
            Err(e) => ts_ns > i64::MAX && e@ == params_invalid(
                "now_ts_ns "@ + decimal(ts_ns as nat) + " exceeds the representable range"@,
            ),
        },
{
    if ts_ns > i64::MAX as u64 {
        let digits = decimal_text(ts_ns);
        return Err(
            invalid(cat3("now_ts_ns ", digits.as_str(), " exceeds the representable range")),
        );
    }
    let weekday: u32 = local_weekday(ts_ns as i64);
    Ok(weekday as u8)
}

/// The minute of the day of an instant, given when the day began.
pub open spec fn minute_since(now: u64, day_start: u64) -> int {
    (floor_sub(now as int, day_start as int) / 60_000_000_000) % 1440
}

/// How far off its usual minute a routine still counts as on schedule: at least five minutes, at
/// most half a day.
pub open spec fn schedule_tolerance(tolerance_minutes: u32) -> int {
    if tolerance_minutes < 5 {
        5
    } else if tolerance_minutes > 720 {
        720
    } else {
        tolerance_minutes as int
    }
}

/// Whether a routine is on schedule.
pub open spec fn on_schedule(schedule: RoutineSchedule, now: u64, day_start: u64, weekday: u8) -> bool {
    &&& day_matches(schedule.dow_class, weekday)
    &&& clock_distance(minute_since(now, day_start), usual_minute(schedule)) <= schedule_tolerance(
        schedule.tolerance_minutes,
    )
}

/// The minute of the day around which the windows of a schedule lie.
pub open spec fn usual_minute(schedule: RoutineSchedule) -> int {
    (schedule.mean_minute_of_day % 1440) as int
}

/// The whole minutes that have passed since the day began.
pub open spec fn elapsed_minutes(now: u64, day_start: u64) -> int {
    floor_sub(now as int, day_start as int) / 60_000_000_000
}

/// How far an instant lies behind the centre of the window of a day, in minutes: of the window of its
/// own day, or of the day that lies `days` days behind it.
pub open spec fn minutes_past_centre(
    schedule: RoutineSchedule,
    now: u64,
    day_start: u64,
    days: int,
) -> int {
    elapsed_minutes(now, day_start) - usual_minute(schedule) - 1440 * days
}

/// Whether an instant lies in the window of its own day, of the day before it (-1) or of the day after
/// it (1). A minute that lies half a day from two centres belongs to the window of its own day.
pub open spec fn lies_in_window(
    schedule: RoutineSchedule,
    now: u64,
    day_start: u64,
    days: int,
) -> bool {
    let past = minutes_past_centre(schedule, now, day_start, days);
    let tolerance = schedule_tolerance(schedule.tolerance_minutes);
    &&& -1 <= days <= 1
    &&& -tolerance <= past <= tolerance
    &&& days == 0 || -720 < past < 720
}

/// When the day began on which the centre of a window lies: the day of the calendar, the one before it
/// or the one after it.
pub open spec fn centre_day(calendar: TickCalendar, days: int) -> Result<u64, ToolError> {
    if days < 0 {
        calendar.previous_day_start
    } else if days == 0 {
        calendar.day_start
    } else {
        calendar.next_day_start
    }
}

/// Which day holds the centre of the window that is nearest to an instant: the day before it (-1), its
/// own day, or the day after it (1).
pub open spec fn nearest_window(schedule: RoutineSchedule, now: u64, day_start: u64) -> int {
    let past = minutes_past_centre(schedule, now, day_start, 0);
    if past < -720 {
        -1
    } else if past <= 720 {
        0
    } else {
        1
    }
}

/// The key of a schedule trigger: one for each routine and window, which is named by the start of the
/// local day that holds its centre.
pub open spec fn schedule_trigger_key(routine_id: Seq<char>, window_day: u64) -> Seq<char> {
    "schedule:"@ + routine_id + ":"@ + decimal(window_day as nat)
}

/// The due run of a schedule trigger.
pub open spec fn schedule_run(record: ArmedView, now: u64, window_day: u64) -> DueView {
    DueView {
        routine_id: record.routine_id,
        trigger_kind: ArmedRoutineTriggerKind::Schedule,
        trigger_key: schedule_trigger_key(record.routine_id, window_day),
        due_ts_ns: now,
        plan_ref: record.plan_ref,
        intent: None,
    }
}

/// The run that the schedule makes due, if it does: on schedule, unless the trigger of the window has
/// fired.
pub open spec fn schedule_answer(
    record: ArmedView,
    schedule: RoutineSchedule,
    now: u64,
    calendar: TickCalendar,
) -> Result<Option<DueView>, ErrorView> {
    match (calendar.day_start, calendar.weekday) {
        (Err(e), _) => Err(e@),
        (Ok(_), Err(e)) => Err(e@),
        (Ok(day_start), Ok(weekday)) => if !on_schedule(schedule, now, day_start, weekday) {
            Ok(None)
        } else {
            match centre_day(calendar, nearest_window(schedule, now, day_start)) {
                Err(e) => Err(e@),
                Ok(window_day) => if record.last_schedule_fire_key == Some(
                    schedule_trigger_key(record.routine_id, window_day),
                ) {
                    Ok(None)
                } else {
                    Ok(Some(schedule_run(record, now, window_day)))
                },
            }
        },
    }
}

/// An instant of the local day before a day, given when the day began: the last one.
pub fn instant_of_previous_day(day_start: u64) -> (r: u64)
    ensures
        r == floor_sub(day_start as int, 1),
{
    day_start.saturating_sub(1)
}

/// An instant of the local day after a day, given when the day began: a day and a half later, which
/// falls into it whether the clocks are set forward or back in between.
pub fn instant_of_next_day(day_start: u64) -> (r: u64)
    ensures
        r == if day_start + 129_600_000_000_000 <= u64::MAX {
            day_start + 129_600_000_000_000
        } else {
            u64::MAX as int
        },
{
    day_start.saturating_add(129_600_000_000_000)
}

/// The run that the schedule makes due, if it does.
pub fn schedule_due_run(
    record: &ArmedRoutineRecord,
    schedule: &RoutineSchedule,
    now: u64,
    calendar: &TickCalendar,
) -> (r: Result<Option<ArmedRoutineDueRun>, ToolError>)
    ensures
        match schedule_answer(record@, *schedule, now, *calendar) {
            Err(detail) => r matches Err(e) && e@ == detail,
            Ok(None) => r == Ok::<Option<ArmedRoutineDueRun>, ToolError>(None),
            Ok(Some(run)) => r matches Ok(Some(due)) && due@ == run,
        },
{
    let day_start: u64 = match &calendar.day_start {
        Ok(day_start) => *day_start,
        Err(e) => {
            return Err(e.clone());
        },
    };
    let elapsed: u64 = now.saturating_sub(day_start) / 60_000_000_000;
    let minute_of_day: u32 = (elapsed % 1440) as u32;
    let weekday: u8 = match &calendar.weekday {
        Ok(weekday) => *weekday,
        Err(e) => {
            return Err(e.clone());
        },
    };
    if !dow_matches(&schedule.dow_class, weekday) {
        return Ok(None);
    }
    let tolerance: u32 = if schedule.tolerance_minutes < MIN_SCHEDULE_WINDOW_MINUTES {
        MIN_SCHEDULE_WINDOW_MINUTES
    } else if schedule.tolerance_minutes > 720 {
        720
    } else {
        schedule.tolerance_minutes
    };
    let centre: u32 = schedule.mean_minute_of_day % 1440;
    if circular_minute_distance(minute_of_day, centre) > tolerance {
        return Ok(None);
    }
    let window_day: &Result<u64, ToolError> = if elapsed + 720 < centre as u64 {
        &calendar.previous_day_start
    } else if elapsed <= centre as u64 + 720 {
        &calendar.day_start
    } else {
        &calendar.next_day_start
    };
    let window_day: u64 = match window_day {
        Ok(window_day) => *window_day,
        Err(e) => {
            return Err(e.clone());
        },
    };
    let digits = decimal_text(window_day);
    let trigger_key = cat4("schedule:", record.routine_id.as_str(), ":", digits.as_str());
    if key_is(&record.last_schedule_fire_key, trigger_key.as_str()) {
        return Ok(None);
    }
    Ok(
        Some(
            ArmedRoutineDueRun {
                routine_id: record.routine_id.clone(),
                trigger_kind: ArmedRoutineTriggerKind::Schedule,
                trigger_key,
                due_ts_ns: now,
                plan_ref: clone_optional(&record.plan_ref),
                intent: None,
            },
        ),
    )
}

/// The first candidate of a routine.
pub open spec fn candidate_for(
    candidates: Seq<IntentCandidateView>,
    routine_id: Seq<char>,
) -> Option<IntentCandidateView>
    decreases candidates.len(),
{
    if candidates.len() == 0 {
        None
    } else if candidates[0].routine_id == routine_id {
        Some(candidates[0])
    } else {
        candidate_for(candidates.drop_first(), routine_id)
    }
}

/// The key of an intent trigger: one for each routine, matched prefix and last matched instant.
pub open spec fn intent_trigger_key(
    routine_id: Seq<char>,
    candidate: IntentCandidateView,
) -> Seq<char> {
    "intent:"@ + routine_id + ":"@ + decimal(count32(candidate.matched_prefix_len as int) as nat)
        + ":"@ + decimal(candidate.last_matched_end_ts_ns as nat)
}

/// The due run of an intent trigger.
pub open spec fn intent_run(
    record: ArmedView,
    candidate: IntentCandidateView,
    plan_ref: Seq<char>,
    now: u64,
) -> DueView {
    DueView {
        routine_id: record.routine_id,
        trigger_kind: ArmedRoutineTriggerKind::Intent,
        trigger_key: intent_trigger_key(record.routine_id, candidate),
        due_ts_ns: now,
        plan_ref: Some(plan_ref),
        intent: Some(
            ArmedRoutineIntentEvidence {
                confidence: candidate.confidence,
                matched_prefix_len: count32(candidate.matched_prefix_len as int),
                total_steps: count32(candidate.total_steps as int),
                last_matched_end_ts_ns: candidate.last_matched_end_ts_ns,
            },
        ),
    }
}

fn find_candidate<S, E>(candidates: &Vec<IntentCandidate<S, E>>, routine_id: &str) -> (r: Option<
    usize,
>)
    ensures
        match r {
            Some(i) => i < candidates@.len() && candidate_for(
                candidate_views(candidates@),
                routine_id@,
            ) == Some(candidates@[i as int]@),
            None => candidate_for(candidate_views(candidates@), routine_id@) is None,
        },
{
    let ghost all = candidate_views(candidates@);
    let mut i: usize = 0;
    assert(all.skip(0) =~= all);
    while i < candidates.len()
        invariant
            i <= candidates@.len(),
            all == candidate_views(candidates@),
            candidate_for(all, routine_id@) == candidate_for(all.skip(i as int), routine_id@),
        decreases candidates@.len() - i,
    {
        proof {
            assert(all.skip(i as int)[0] == candidates@[i as int]@);
            assert(all.skip(i as int).drop_first() =~= all.skip(i + 1));
        }
        if text_equal(candidates[i].routine_id.as_str(), routine_id) {
            return Some(i);
        }
        i += 1;
    }
    assert(all.skip(i as int) =~= Seq::empty());
    None
}

/// What a tick makes of one arming.
#[derive(Debug)]
pub enum Assessment {
    /// The tick is limited to another routine.
    NotAsked,
    /// Passed over, with the reason.
    Skipped(String),
    /// A run is due.
    Due(ArmedRoutineDueRun),
    /// Nothing is due.
    Idle,
    /// Something could not be read.
    Failed(ToolError),
}

/// What a tick makes of one arming, with texts as sequences of characters.
#[verifier::ext_equal]
pub enum AssessmentView {
    NotAsked,
    Skipped(Seq<char>),
    Due(DueView),
    Idle,
    Failed(ErrorView),
}

impl View for Assessment {
    type V = AssessmentView;

    open spec fn view(&self) -> AssessmentView {
        match *self {
            Assessment::NotAsked => AssessmentView::NotAsked,
            Assessment::Skipped(reason) => AssessmentView::Skipped(reason@),
            Assessment::Due(due) => AssessmentView::Due(due@),
            Assessment::Idle => AssessmentView::Idle,
            Assessment::Failed(e) => AssessmentView::Failed(e@),
        }
    }
}

/// Whether a mode evaluates schedules.
pub open spec fn asks_schedule(mode: ArmedRoutineTickTriggerMode) -> bool {
    mode is Schedule || mode is Both
}

/// Whether a mode evaluates intents.
pub open spec fn asks_intent(mode: ArmedRoutineTickTriggerMode) -> bool {
    mode is Intent || mode is Both
}

/// What the intent trigger makes of an arming.
pub open spec fn assess_intent(
    record: ArmedView,
    plan_ref: Seq<char>,
    mode: ArmedRoutineTickTriggerMode,
    now: u64,
    candidates: Seq<IntentCandidateView>,
) -> AssessmentView {
    if !asks_intent(mode) || !record.intent_enabled {
        AssessmentView::Idle
    } else {
        match candidate_for(candidates, record.routine_id) {
            None => AssessmentView::Idle,
            Some(candidate) => if record.last_intent_fire_key == Some(
                intent_trigger_key(record.routine_id, candidate),
            ) {
                AssessmentView::Skipped("intent_already_fired"@)
            } else {
                AssessmentView::Due(intent_run(record, candidate, plan_ref, now))
            },
        }
    }
}

/// What the triggers make of an arming whose routine can run: the schedule first, then the intent.
pub open spec fn assess_triggers(
    record: ArmedView,
    schedule: RoutineSchedule,
    plan_ref: Seq<char>,
    mode: ArmedRoutineTickTriggerMode,
    now: u64,
    calendar: TickCalendar,
    candidates: Seq<IntentCandidateView>,
) -> AssessmentView {
    if asks_schedule(mode) && record.schedule_enabled {
        match schedule_answer(record, schedule, now, calendar) {
            Err(detail) => AssessmentView::Failed(detail),
            Ok(Some(due)) => AssessmentView::Due(due),
            Ok(None) => assess_intent(record, plan_ref, mode, now, candidates),
        }
    } else {
        assess_intent(record, plan_ref, mode, now, candidates)
    }
}

/// What a tick makes of one arming.
pub open spec fn assess(
    record: ArmedView,
    facts: RoutineFacts,
    only: Option<Seq<char>>,
    mode: ArmedRoutineTickTriggerMode,
    now: u64,
    calendar: TickCalendar,
    candidates: Seq<IntentCandidateView>,
) -> AssessmentView {
    if only is Some && only != Some(record.routine_id) {
        AssessmentView::NotAsked
    } else if !record.enabled {
        AssessmentView::Skipped("armed_record_disabled"@)
    } else {
        match facts.schedule {
            Err(e) => AssessmentView::Failed(e@),
            Ok(None) => AssessmentView::Skipped("routine_not_mined"@),
            Ok(Some(schedule)) => match facts.lifecycle {
                Err(e) => AssessmentView::Failed(e@),
                Ok(lifecycle) => if lifecycle is Some && is_retired(lifecycle->Some_0) {
                    AssessmentView::Skipped("routine_lifecycle_disabled"@)
                } else {
                    match facts.automation {
                        Err(e) => AssessmentView::Failed(e@),
                        Ok(None) => AssessmentView::Skipped("automation_not_installed"@),
                        Ok(Some(automation)) => if automation.state@ != "installed"@ {
                            AssessmentView::Skipped("automation_not_installed"@)
                        } else {
                            assess_triggers(
                                record,
                                schedule,
                                automation.plan_ref@,
                                mode,
                                now,
                                calendar,
                                candidates,
                            )
                        },
                    }
                },
            },
        }
    }
}

fn assess_intent_trigger<S, E>(
    record: &ArmedRoutineRecord,
    plan_ref: &str,
    mode: ArmedRoutineTickTriggerMode,
    now: u64,
    candidates: &Vec<IntentCandidate<S, E>>,
) -> (r: Assessment)
    ensures
        r@ == assess_intent(record@, plan_ref@, mode, now, candidate_views(candidates@)),
{
    if !matches!(mode, ArmedRoutineTickTriggerMode::Intent | ArmedRoutineTickTriggerMode::Both)
        || !record.intent_enabled {
        return Assessment::Idle;
    }
    match find_candidate(candidates, record.routine_id.as_str()) {
        None => Assessment::Idle,
        Some(i) => {
            let candidate = &candidates[i];
            let matched_prefix_len: u32 = to_count32(candidate.matched_prefix_len);
            let prefix = decimal_text(matched_prefix_len as u64);
            let end = decimal_text(candidate.last_matched_end_ts_ns);
            let trigger_key = cat6(
                "intent:",
                record.routine_id.as_str(),
                ":",
                prefix.as_str(),
                ":",
                end.as_str(),
            );
            if key_is(&record.last_intent_fire_key, trigger_key.as_str()) {
                return Assessment::Skipped("intent_already_fired".to_owned());
            }
            let due = ArmedRoutineDueRun {
                routine_id: record.routine_id.clone(),
                trigger_kind: ArmedRoutineTriggerKind::Intent,
                trigger_key,
                due_ts_ns: now,
                plan_ref: Some(plan_ref.to_owned()),
                intent: Some(
                    ArmedRoutineIntentEvidence {
                        confidence: candidate.confidence,
                        matched_prefix_len,
                        total_steps: to_count32(candidate.total_steps),
                        last_matched_end_ts_ns: candidate.last_matched_end_ts_ns,
                    },
                ),
            };
            assert(due@ =~= intent_run(record@, candidate@, plan_ref@, now));
            Assessment::Due(due)
        },
    }
}

/// Decides what a tick makes of one arming.
pub fn assess_record<S, E>(
    record: &ArmedRoutineRecord,
    facts: &RoutineFacts,
    only: &Option<String>,
    mode: ArmedRoutineTickTriggerMode,
    now: u64,
    calendar: &TickCalendar,
    candidates: &Vec<IntentCandidate<S, E>>,
) -> (r: Assessment)
    ensures
        r@ == assess(
            record@,
            *facts,
            optional_view(*only),
            mode,
            now,
            *calendar,
            candidate_views(candidates@),
        ),
{
    if let Some(routine_id) = only {
        if !text_equal(routine_id.as_str(), record.routine_id.as_str()) {
            return Assessment::NotAsked;
        }
    }
    if !record.enabled {
        return Assessment::Skipped("armed_record_disabled".to_owned());
    }
    let schedule = match &facts.schedule {
        Ok(Some(schedule)) => schedule,
        Ok(None) => {
            return Assessment::Skipped("routine_not_mined".to_owned());
        },
        Err(e) => {
            return Assessment::Failed(e.clone());
        },
    };
    match &facts.lifecycle {
        Ok(Some(lifecycle)) => {
            if retired(*lifecycle) {
                return Assessment::Skipped("routine_lifecycle_disabled".to_owned());
            }
        },
        Ok(None) => {},
        Err(e) => {
            return Assessment::Failed(e.clone());
        },
    }
    let automation = match &facts.automation {
        Ok(Some(automation)) => automation,
        Ok(None) => {
            return Assessment::Skipped("automation_not_installed".to_owned());
        },
        Err(e) => {
            return Assessment::Failed(e.clone());
        },
    };
    if !text_equal(automation.state.as_str(), "installed") {
        return Assessment::Skipped("automation_not_installed".to_owned());
    }
    if matches!(mode, ArmedRoutineTickTriggerMode::Schedule | ArmedRoutineTickTriggerMode::Both)
        && record.schedule_enabled {
        match schedule_due_run(record, schedule, now, calendar) {
            Ok(Some(due)) => {
                return Assessment::Due(due);
            },
            Ok(None) => {},
            Err(e) => {
                return Assessment::Failed(e);
            },
        }
    }
    assess_intent_trigger(record, automation.plan_ref.as_str(), mode, now, candidates)
}

/// Why the parameters of a tick are refused, if they are. The routine id is checked only where one
/// is given.
pub open spec fn tick_params_error(
    params: ArmedRoutineTickParams,
    id_check: Result<(), ToolError>,
) -> Option<ErrorView> {
    if params.routine_id is Some && id_check is Err {
        Some(id_check->Err_0@)
    } else if params.launch_timeout_ms == Some(0u64) {
        Some(params_invalid("armed_routine_tick launch_timeout_ms must be >= 1"@))
    } else {
        None
    }
}

/// Checks the parameters of a tick.
pub fn validate_tick_params(
    params: &ArmedRoutineTickParams,
    id_check: &Result<(), ToolError>,
) -> (r: Result<(), ToolError>)
    ensures
        match r {
            Ok(_) => tick_params_error(*params, *id_check) is None,
            Err(e) => tick_params_error(*params, *id_check) == Some(e@),
        },
{
    if params.routine_id.is_some() {
        if let Err(e) = id_check {
            return Err(e.clone());
        }
    }
    if let Some(timeout_ms) = params.launch_timeout_ms {
        if timeout_ms == 0 {
            return Err(
                invalid("armed_routine_tick launch_timeout_ms must be >= 1".to_owned()),
            );
        }
    }
    Ok(())
}

/// Notes that a tick passed over a routine.
pub fn skip(routine_id: &str, reason: &str) -> (r: ArmedRoutineTickSkip)
    ensures
        r.routine_id@ == routine_id@,
        r.reason@ == reason@,
{
    ArmedRoutineTickSkip { routine_id: routine_id.to_owned(), reason: reason.to_owned() }
}

/// The instant that a tick is evaluated at.
pub open spec fn tick_now(params: ArmedRoutineTickParams, host_now_ns: u64) -> u64 {
    match params.now_ts_ns {
        Some(now) => now,
        None => host_now_ns,
    }
}

/// The triggers that a tick evaluates.
pub open spec fn tick_mode(params: ArmedRoutineTickParams) -> ArmedRoutineTickTriggerMode {
    match params.trigger_mode {
        Some(mode) => mode,
        None => ArmedRoutineTickTriggerMode::Both,
    }
}

/// The snapshot that a tick asks for where it evaluates intents: every candidate at its instant.
pub fn tick_intent_params(params: &ArmedRoutineTickParams, host_now_ns: u64) -> (r: Option<
    IntentCurrentParams,
>)
    ensures
        r == (if asks_intent(tick_mode(*params)) {
            Some(every_candidate(tick_now(*params, host_now_ns), params.lookback_hours))
        } else {
            None
        }),
{
    let now: u64 = match params.now_ts_ns {
        Some(now) => now,
        None => host_now_ns,
    };
    match params.trigger_mode {
        Some(ArmedRoutineTickTriggerMode::Schedule) => None,
        _ => Some(ask_for_every_candidate(now, params.lookback_hours)),
    }
}

/// What a tick makes of every arming.
pub open spec fn assess_all(
    records: Seq<ArmedRoutineRecord>,
    facts: Seq<RoutineFacts>,
    params: ArmedRoutineTickParams,
    now: u64,
    calendar: TickCalendar,
    candidates: Seq<IntentCandidateView>,
) -> Seq<AssessmentView> {
    Seq::new(
        records.len(),
        |i: int|
            assess(
                records[i]@,
                facts[i],
                optional_view(params.routine_id),
                tick_mode(params),
                now,
                calendar,
                candidates,
            ),
    )
}

/// How many armings a tick has evaluated.
pub open spec fn evaluated_count(s: Seq<AssessmentView>) -> nat
    decreases s.len(),
{
    if s.len() == 0 {
        0
    } else {
        evaluated_count(s.drop_last()) + if s.last() is NotAsked {
            0nat
        } else {
            1nat
        }
    }
}

/// The runs that are due, in order.
pub open spec fn due_of(s: Seq<AssessmentView>) -> Seq<DueView>
    decreases s.len(),
{
    if s.len() == 0 {
        Seq::empty()
    } else {
        match s.last() {
            AssessmentView::Due(due) => due_of(s.drop_last()).push(due),
            _ => due_of(s.drop_last()),
        }
    }
}

/// The routines passed over with the reasons, in order.
pub open spec fn skips_of(
    records: Seq<ArmedRoutineRecord>,
    s: Seq<AssessmentView>,
) -> Seq<(Seq<char>, Seq<char>)>
    decreases s.len(),
{
    if s.len() == 0 {
        Seq::empty()
    } else {
        match s.last() {
            AssessmentView::Skipped(reason) => skips_of(records, s.drop_last()).push(
                (records[s.len() - 1].routine_id@, reason),
            ),
            _ => skips_of(records, s.drop_last()),
        }
    }
}

/// The due runs of a list, with texts as sequences of characters.
pub open spec fn due_views(s: Seq<ArmedRoutineDueRun>) -> Seq<DueView> {
    s.map_values(|d: ArmedRoutineDueRun| d@)
}

/// The skips of a list, with texts as sequences of characters.
pub open spec fn skip_views(s: Seq<ArmedRoutineTickSkip>) -> Seq<(Seq<char>, Seq<char>)> {
    s.map_values(|k: ArmedRoutineTickSkip| (k.routine_id@, k.reason@))
}

/// The assessment at the given position is the first that failed.
pub open spec fn failed_first_at(s: Seq<AssessmentView>, at: int) -> bool {
    &&& 0 <= at < s.len()
    &&& forall|i: int| 0 <= i < at ==> !((#[trigger] s[i]) is Failed)
    &&& s[at] is Failed
}

/// The due runs of a tick.
#[derive(Debug)]
pub struct DueRuns {
    pub now_ts_ns: u64,
    pub evaluated: u32,
    pub due: Vec<ArmedRoutineDueRun>,
    pub skipped: Vec<ArmedRoutineTickSkip>,
}

/// What is read to find the due runs.
#[derive(Debug)]
pub struct TickFacts<S, E> {
    /// Whether the routine id that the tick is limited to is acceptable.
    pub id_check: Result<(), ToolError>,
    pub records: Result<Vec<ArmedRoutineRecord>, ToolError>,
    /// The current intents; asked for only where intents are evaluated.
    pub intents: Result<Vec<IntentCandidate<S, E>>, ToolError>,
    /// What is known of the routine of each arming, in the same order.
    pub routines: Vec<RoutineFacts>,
    pub calendar: TickCalendar,
}

/// The candidates that the intent triggers see.
pub open spec fn tick_candidates<S, E>(facts: TickFacts<S, E>) -> Seq<IntentCandidateView> {
    match facts.intents {
        Ok(candidates) => candidate_views(candidates@),
        Err(_) => Seq::empty(),
    }
}

/// What a tick finds: refused parameters, then unreadable armings, then unreadable intents, then
/// the first arming that cannot be assessed, and otherwise the due runs and the skips.
pub open spec fn finds_due<S, E>(
    params: ArmedRoutineTickParams,
    host_now_ns: u64,
    facts: TickFacts<S, E>,
    r: Result<DueRuns, ToolError>,
) -> bool {
    if tick_params_error(params, facts.id_check) is Some {
        r matches Err(e) && tick_params_error(params, facts.id_check) == Some(e@)
    } else {
        match facts.records {
            Err(e) => r == Err::<DueRuns, ToolError>(e),
            Ok(records) => if asks_intent(tick_mode(params)) && facts.intents is Err {
                r == Err::<DueRuns, ToolError>(facts.intents->Err_0)
            } else {
                let all = assess_all(
                    records@,
                    facts.routines@,
                    params,
                    tick_now(params, host_now_ns),
                    facts.calendar,
                    tick_candidates(facts),
                );
                match r {
                    Err(e) => exists|at: int| #[trigger]
                        failed_first_at(all, at) && all[at] == AssessmentView::Failed(e@),
                    Ok(found) => {
                        &&& forall|i: int| 0 <= i < all.len() ==> !((#[trigger] all[i]) is Failed)
                        &&& found.now_ts_ns == tick_now(params, host_now_ns)
                        &&& found.evaluated == count32(evaluated_count(all) as int)
                        &&& due_views(found.due@) == due_of(all)
                        &&& skip_views(found.skipped@) == skips_of(records@, all)
                    },
                }
            },
        }
    }
}

/// Finds the runs that are due.
pub fn due_armed_runs<S, E>(
    params: &ArmedRoutineTickParams,
    host_now_ns: u64,
    facts: &TickFacts<S, E>,
) -> (r: Result<DueRuns, ToolError>)
    requires
        facts.records matches Ok(records) ==> facts.routines@.len() == records@.len(),
    ensures
        finds_due(*params, host_now_ns, *facts, r),
{
    match validate_tick_params(params, &facts.id_check) {
        Ok(()) => {},
        Err(e) => {
            return Err(e);
        },
    }
    let now: u64 = match params.now_ts_ns {
        Some(now) => now,
        None => host_now_ns,
    };
    let mode: ArmedRoutineTickTriggerMode = match params.trigger_mode {
        Some(mode) => mode,
        None => ArmedRoutineTickTriggerMode::Both,
    };
    let records = match &facts.records {
        Ok(records) => records,
        Err(e) => {
            return Err(e.clone());
        },
    };
    let none: Vec<IntentCandidate<S, E>> = Vec::new();
    let candidates: &Vec<IntentCandidate<S, E>> = match &facts.intents {
        Ok(candidates) => candidates,
        Err(e) => {
            if matches!(
                mode,
                ArmedRoutineTickTriggerMode::Intent | ArmedRoutineTickTriggerMode::Both
            ) {
                return Err(e.clone());
            }
            &none
        },
    };
    assert(candidate_views(candidates@) =~= tick_candidates(*facts));
    let ghost all = assess_all(
        records@,
        facts.routines@,
        *params,
        now,
        facts.calendar,
        tick_candidates(*facts),
    );
    let mut evaluated: u32 = 0;
    let mut due: Vec<ArmedRoutineDueRun> = Vec::new();
    let mut skipped: Vec<ArmedRoutineTickSkip> = Vec::new();
    let mut i: usize = 0;
    proof {
        assert(all.subrange(0, 0) =~= Seq::empty());
        assert(due_views(due@) =~= Seq::empty());
        assert(skip_views(skipped@) =~= Seq::empty());
    }
    while i < records.len()
        invariant
            i <= records@.len(),
            facts.records == Ok::<Vec<ArmedRoutineRecord>, ToolError>(*records),
            tick_params_error(*params, facts.id_check) is None,
            !(asks_intent(tick_mode(*params)) && facts.intents is Err),
            now == tick_now(*params, host_now_ns),
            mode == tick_mode(*params),
            facts.routines@.len() == records@.len(),
            candidate_views(candidates@) == tick_candidates(*facts),
            all == assess_all(
                records@,
                facts.routines@,
                *params,
                now,
                facts.calendar,
                tick_candidates(*facts),
            ),
            all.len() == records@.len(),
            forall|k: int| 0 <= k < i ==> !((#[trigger] all[k]) is Failed),
            evaluated == count32(evaluated_count(all.subrange(0, i as int)) as int),
            due_views(due@) == due_of(all.subrange(0, i as int)),
            skip_views(skipped@) == skips_of(records@, all.subrange(0, i as int)),
        decreases records@.len() - i,
    {
        let record = &records[i];
        let ghost part = all.subrange(0, i as int);
        let ghost next = all.subrange(0, i + 1);
        let ghost old_due = due@;
        let ghost old_skipped = skipped@;
        proof {
            assert(next.drop_last() =~= part);
            assert(next.last() == all[i as int]);
        }
        let assessment = assess_record(
            record,
            &facts.routines[i],
            &params.routine_id,
            mode,
            now,
            &facts.calendar,
            candidates,
        );
        assert(assessment@ == all[i as int]);
        match assessment {
            Assessment::NotAsked => {},
            Assessment::Failed(e) => {
                assert(failed_first_at(all, i as int));
                return Err(e);
            },
            Assessment::Skipped(reason) => {
                evaluated = evaluated.saturating_add(1);
                skipped.push(skip(record.routine_id.as_str(), reason.as_str()));
            },
            Assessment::Due(run) => {
                evaluated = evaluated.saturating_add(1);
                due.push(run);
            },
            Assessment::Idle => {
                evaluated = evaluated.saturating_add(1);
            },
        }
        proof {
            assert(due_views(due@) =~= due_of(next));
            assert(skip_views(skipped@) =~= skips_of(records@, next));
        }
        i += 1;
    }
    assert(all.subrange(0, all.len() as int) =~= all);
    Ok(DueRuns { now_ts_ns: now, evaluated, due, skipped })
}

/// Finds the runs that are due, with the local day of the week of the machine.
pub fn due_armed_runs_today<S, E>(
    params: &ArmedRoutineTickParams,
    host_now_ns: u64,
    facts: TickFacts<S, E>,
) -> (r: Result<DueRuns, ToolError>)
    requires
        facts.records matches Ok(records) ==> facts.routines@.len() == records@.len(),
    ensures
        exists|weekday: Result<u8, ToolError>| #[trigger]
            is_weekday_of(weekday, tick_now(*params, host_now_ns)) && finds_due(
                *params,
                host_now_ns,
                (TickFacts {
                    calendar: TickCalendar { weekday, ..facts.calendar },
                    ..facts
                }),
                r,
            ),
{
    let now: u64 = match params.now_ts_ns {
        Some(now) => now,
        None => host_now_ns,
    };
    let weekday = weekday_for_ts(now);
    assert(is_weekday_of(weekday, now));
    let today = TickFacts {
        id_check: facts.id_check,
        records: facts.records,
        intents: facts.intents,
        routines: facts.routines,
        calendar: TickCalendar {
            day_start: facts.calendar.day_start,
            previous_day_start: facts.calendar.previous_day_start,
            next_day_start: facts.calendar.next_day_start,
            weekday,
        },
    };
    due_armed_runs(params, host_now_ns, &today)
}

/// What a day of the week of an instant can be, wherever the machine stands: that of UTC or one
/// beside it.
pub open spec fn is_weekday_of(weekday: Result<u8, ToolError>, ts_ns: u64) -> bool {
    match weekday {
        Ok(day) => ts_ns <= i64::MAX && day <= 6 && is_near_weekday(day as int, ts_ns as int),
        Err(e) => ts_ns > i64::MAX && e@ == params_invalid(
            "now_ts_ns "@ + decimal(ts_ns as nat) + " exceeds the representable range"@,
        ),
    }
}

// ---------------------------------------------------------------------------------------------
// Laws
// ---------------------------------------------------------------------------------------------

/// A trigger that was claimed cannot be claimed again.
pub proof fn law_claimed_trigger_is_not_claimed_twice(armed: ArmedView, due: DueView, now: u64)
    requires
        claim_error(armed, due) is None,
    ensures
        claim_error(claimed(armed, due, now), due) == Some(duplicate_trigger(due.trigger_key)),
{
}

/// One window of a schedule fires once: after its trigger was claimed at one instant of the window,
/// the schedule makes nothing due at any other, be it on the same local day or on the other side of
/// midnight. The two instants lie in one window where the centres of theirs lie on the same day.
pub proof fn law_claimed_window_is_not_due_again(
    record: ArmedView,
    schedule: RoutineSchedule,
    due: DueView,
    now: u64,
    calendar: TickCalendar,
    days: int,
    later: u64,
    later_calendar: TickCalendar,
    later_days: int,
)
    requires
        schedule_answer(record, schedule, now, calendar) == Ok::<Option<DueView>, ErrorView>(
            Some(due),
        ),
        calendar.day_start is Ok,
        later_calendar.day_start is Ok,
        later_calendar.weekday is Ok,
        lies_in_window(schedule, now, calendar.day_start->Ok_0, days),
        lies_in_window(schedule, later, later_calendar.day_start->Ok_0, later_days),
        centre_day(calendar, days) is Ok,
        centre_day(later_calendar, later_days) == centre_day(calendar, days),
    ensures
        schedule_answer(claimed(record, due, now), schedule, later, later_calendar) == Ok::<
            Option<DueView>,
            ErrorView,
        >(None),
{
}

/// A routine is on schedule exactly where an instant lies in a window of a day that admits it, as long
/// as no more than a day and a half has passed since its own day began.
pub proof fn law_on_schedule_means_in_a_window(
    schedule: RoutineSchedule,
    now: u64,
    day_start: u64,
    weekday: u8,
)
    requires
        elapsed_minutes(now, day_start) < 2160,
    ensures
        on_schedule(schedule, now, day_start, weekday) <==> {
            &&& day_matches(schedule.dow_class, weekday)
            &&& lies_in_window(
                schedule,
                now,
                day_start,
                nearest_window(schedule, now, day_start),
            )
        },
{
}

/// After an intent trigger was claimed, the same evidence is passed over as already fired.
pub proof fn law_claimed_intent_is_not_due_again(
    record: ArmedView,
    plan_ref: Seq<char>,
    mode: ArmedRoutineTickTriggerMode,
    now: u64,
    later: u64,
    candidates: Seq<IntentCandidateView>,
    due: DueView,
)
    requires
        assess_intent(record, plan_ref, mode, now, candidates) == AssessmentView::Due(due),
    ensures
        assess_intent(claimed(record, due, now), plan_ref, mode, later, candidates)
            == AssessmentView::Skipped("intent_already_fired"@),
{
}

/// Claiming keeps the arming switched on and its failures counted.
pub proof fn law_claiming_keeps_the_arming(armed: ArmedView, due: DueView, now: u64)
    ensures
        claimed(armed, due, now).enabled == armed.enabled,
        claimed(armed, due, now).consecutive_failures == armed.consecutive_failures,
        claimed(armed, due, now).failure_threshold == armed.failure_threshold,
        claimed(armed, due, now).schedule_enabled == armed.schedule_enabled,
        claimed(armed, due, now).intent_enabled == armed.intent_enabled,
        claimed(armed, due, now).routine_id == armed.routine_id,
{
}

/// An arming after `n` failed runs in a row.
pub open spec fn after_failures(armed: ArmedView, n: nat, run_id: Seq<char>, now: u64) -> ArmedView
    decreases n,
{
    if n == 0 {
        armed
    } else {
        completed(
            after_failures(armed, (n - 1) as nat, run_id, now),
            run_id,
            ArmedRoutineRunStatus::Failed,
            now,
        )
    }
}

/// A freshly armed routine stays armed through fewer failures in a row than its threshold and is
/// disarmed by the failure that reaches it.
pub proof fn law_failure_threshold_disarms(
    before: ArmedView,
    config: ArmRoutineConfig,
    by_session: Seq<char>,
    note: Option<Seq<char>>,
    plan_ref: Seq<char>,
    armed_at: u64,
    run_id: Seq<char>,
    now: u64,
    n: nat,
)
    requires
        arm_config_error(config) is None,
        n <= config.failure_threshold,
    ensures
        ({
            let after = after_failures(
                armed(before, config, by_session, note, plan_ref, armed_at),
                n,
                run_id,
                now,
            );
            &&& after.consecutive_failures == n
            &&& after.failure_threshold == config.failure_threshold
            &&& after.enabled <==> n < config.failure_threshold
        }),
    decreases n,
{
    if n > 0 {
        law_failure_threshold_disarms(
            before,
            config,
            by_session,
            note,
            plan_ref,
            armed_at,
            run_id,
            now,
            (n - 1) as nat,
        );
    }
}

/// A success forgets the failures, and never disarms; so does neither a started nor a dry run.
pub proof fn law_only_failures_disarm(
    armed: ArmedView,
    run_id: Seq<char>,
    status: ArmedRoutineRunStatus,
    now: u64,
)
    ensures
        status is Succeeded ==> completed(armed, run_id, status, now).consecutive_failures == 0,
        status !is Failed ==> completed(armed, run_id, status, now).enabled == armed.enabled,
        !armed.enabled ==> !completed(armed, run_id, status, now).enabled,
{
}

/// A run reports the failure count that the arming stores, reports a disarming only where the arming
/// is stored as disarmed, and is the last run of the arming.
pub proof fn law_run_and_arming_agree(
    run: RunView,
    armed: ArmedView,
    report: RunReport,
    now: u64,
)
    ensures
        finished_run(run, armed, report, now).failure_count_after == completed(
            armed,
            run.run_id,
            report.status,
            now,
        ).consecutive_failures,
        finished_run(run, armed, report, now).disarmed_after_failure ==> !completed(
            armed,
            run.run_id,
            report.status,
            now,
        ).enabled,
        finished_run(run, armed, report, now).run_id == run.run_id,
        completed(armed, run.run_id, report.status, now).last_run_id == Some(run.run_id),
{
}

/// A disarmed routine is passed over by every tick that asks for it, and lets nothing be claimed.
pub proof fn law_disarmed_routine_never_runs(
    before: ArmedView,
    by_session: Seq<char>,
    reason: Option<Seq<char>>,
    at: u64,
    facts: RoutineFacts,
    only: Option<Seq<char>>,
    mode: ArmedRoutineTickTriggerMode,
    now: u64,
    calendar: TickCalendar,
    candidates: Seq<IntentCandidateView>,
    due: DueView,
)
    requires
        only is None || only == Some(before.routine_id),
    ensures
        assess(
            disarmed(before, by_session, reason, at),
            facts,
            only,
            mode,
            now,
            calendar,
            candidates,
        ) == AssessmentView::Skipped("armed_record_disabled"@),
        claim_error(disarmed(before, by_session, reason, at), due) is Some,
{
}

/// Arming again switches a disarmed routine back on and forgets who disarmed it, but not which
/// triggers have fired.
pub proof fn law_arming_undoes_disarming(
    before: ArmedView,
    config: ArmRoutineConfig,
    by_session: Seq<char>,
    note: Option<Seq<char>>,
    reason: Option<Seq<char>>,
    plan_ref: Seq<char>,
    at: u64,
    now: u64,
)
    ensures
        ({
            let again = armed(
                disarmed(before, by_session, reason, at),
                config,
                by_session,
                note,
                plan_ref,
                now,
            );
            &&& again == armed(before, config, by_session, note, plan_ref, now)
            &&& again.enabled
            &&& again.disarmed_at_ns is None
            &&& again.last_schedule_fire_key == before.last_schedule_fire_key
            &&& again.last_intent_fire_key == before.last_intent_fire_key
        }),
{
}

/// Two runs of a routine by the same trigger that start at different instants have different ids.
pub proof fn law_run_ids_differ(
    routine_id: Seq<char>,
    trigger: ArmedRoutineTriggerKind,
    a: u64,
    b: u64,
)
    requires
        a != b,
    ensures
        run_id_text(routine_id, trigger, a) != run_id_text(routine_id, trigger, b),
{
    let head = "arr1-"@ + routine_id + "-"@ + trigger.name() + "-"@;
    let x = zero_padded(a as nat, 20);
    let y = zero_padded(b as nat, 20);
    if head + x == head + y {
        assert(x =~= (head + x).skip(head.len() as int));
        assert(y =~= (head + y).skip(head.len() as int));
        crate::numerals::law_padding_keeps_the_number(a as nat, 20);
        crate::numerals::law_padding_keeps_the_number(b as nat, 20);
    }
}

/// The distance on the clock face is symmetric, at most half a day, and zero only between equal
/// minutes.
pub proof fn law_clock_distance(a: int, b: int)
    requires
        0 <= a < 1440,
        0 <= b < 1440,
    ensures
        clock_distance(a, b) == clock_distance(b, a),
        0 <= clock_distance(a, b) <= 720,
        clock_distance(a, b) == 0 <==> a == b,
{
}

/// A tick reports no more armings as due or passed over than it evaluates, and evaluates no more than
/// there are.
pub proof fn law_tick_accounts_for_every_arming(
    records: Seq<ArmedRoutineRecord>,
    s: Seq<AssessmentView>,
)
    ensures
        due_of(s).len() + skips_of(records, s).len() <= evaluated_count(s) <= s.len(),
    decreases s.len(),
{
    if s.len() > 0 {
        law_tick_accounts_for_every_arming(records, s.drop_last());
    }
}

/// An arming that reads back as written counts as written.
pub proof fn law_faithful_storage_confirms_arming(record: ArmedRoutineRecord)
    ensures
        armed_write_error(
            record@,
            (ArmedWriteOutcome { encoded: Ok(()), stored: Ok(()), readback: Ok(Some(record)) }),
        ) is None,
{
}

/// The days of a class: every day, Monday to Friday, Saturday and Sunday, or the days that are named.
pub proof fn law_classes_admit_their_days(days: Vec<u8>, weekday: u8)
    requires
        weekday <= 6,
    ensures
        day_matches(RoutineDowClass::Daily, weekday),
        day_matches(RoutineDowClass::Weekdays, weekday) <==> weekday == 0 || weekday == 1 || weekday
            == 2 || weekday == 3 || weekday == 4,
        day_matches(RoutineDowClass::Weekend, weekday) <==> weekday == 5 || weekday == 6,
        day_matches(RoutineDowClass::Days { days }, weekday) <==> exists|i: int|
            0 <= i < days@.len() && #[trigger] days@[i] == weekday,
{
    if days@.contains(weekday) {
        let i = choose|i: int| 0 <= i < days@.len() && days@[i] == weekday;
        assert(days@[i] == weekday);
    }
}

/// When a routine is due by its schedule. On a day that its class admits, it is due exactly where the
/// minute of the day lies no further from its usual minute, on the face of the clock, than its own
/// tolerance, which counts as five minutes where it is less and as half a day where it is more; and
/// not where the trigger of that window has fired. The run is for that routine and that instant. The
/// window belongs to the day on which its centre lies.
pub proof fn law_due_within_the_own_tolerance(
    record: ArmedView,
    schedule: RoutineSchedule,
    now: u64,
    day_start: u64,
    previous: u64,
    next: u64,
    weekday: u8,
)
    requires
        day_start <= now,
        now - day_start < 86_400_000_000_000,
    ensures
        ({
            let calendar = TickCalendar {
                day_start: Ok(day_start),
                previous_day_start: Ok(previous),
                next_day_start: Ok(next),
                weekday: Ok(weekday),
            };
            let r = schedule_answer(record, schedule, now, calendar);
            let minute = (now - day_start) / 60_000_000_000;
            let usual = schedule.mean_minute_of_day as int % 1440;
            let ahead = minute - usual;
            let near = |t: int| -t <= ahead <= t || ahead >= 1440 - t || ahead <= t - 1440;
            let window = if ahead > 720 {
                next
            } else if ahead < -720 {
                previous
            } else {
                day_start
            };
            let key = "schedule:"@ + record.routine_id + ":"@ + decimal(window as nat);
            let admitted = match schedule.dow_class {
                RoutineDowClass::Daily => true,
                RoutineDowClass::Weekdays => weekday < 5,
                RoutineDowClass::Weekend => weekday >= 5,
                RoutineDowClass::Days { days } => days@.contains(weekday),
            };
            let fired = record.last_schedule_fire_key == Some(key);
            &&& r is Ok
            &&& 5 <= schedule.tolerance_minutes <= 720 ==> (r->Ok_0 is Some <==> admitted && near(
                schedule.tolerance_minutes as int,
            ) && !fired)
            &&& schedule.tolerance_minutes < 5 ==> (r->Ok_0 is Some <==> admitted && near(5)
                && !fired)
            &&& schedule.tolerance_minutes > 720 ==> (r->Ok_0 is Some <==> admitted && !fired)
            &&& r->Ok_0 is Some ==> r->Ok_0->Some_0 == (DueView {
                routine_id: record.routine_id,
                trigger_kind: ArmedRoutineTriggerKind::Schedule,
                trigger_key: key,
                due_ts_ns: now,
                plan_ref: record.plan_ref,
                intent: None,
            })
        }),
{
}

/// A calendar that could not be read fails the schedule with the error of its reading, the day before
/// the day of the week.
pub proof fn law_unreadable_calendars_fail(
    record: ArmedView,
    schedule: RoutineSchedule,
    now: u64,
    calendar: TickCalendar,
)
    ensures
        calendar.day_start matches Err(e) ==> schedule_answer(record, schedule, now, calendar)
            == Err::<Option<DueView>, ErrorView>(e@),
        calendar.day_start is Ok ==> (calendar.weekday matches Err(e) ==> schedule_answer(
            record,
            schedule,
            now,
            calendar,
        ) == Err::<Option<DueView>, ErrorView>(e@)),
{
}

proof fn lemma_same_behind(head: Seq<char>, x: Seq<char>, y: Seq<char>)
    requires
        head + x == head + y,
    ensures
        x == y,
{
    assert(x =~= (head + x).skip(head.len() as int));
    assert(y =~= (head + y).skip(head.len() as int));
}

/// Windows of different days have different triggers.
pub proof fn law_windows_have_their_own_triggers(routine_id: Seq<char>, a: u64, b: u64)
    requires
        a != b,
    ensures
        schedule_trigger_key(routine_id, a) != schedule_trigger_key(routine_id, b),
{
    let head = "schedule:"@ + routine_id + ":"@;
    if schedule_trigger_key(routine_id, a) == schedule_trigger_key(routine_id, b) {
        lemma_same_behind(head, decimal(a as nat), decimal(b as nat));
        crate::numerals::law_decimal_denotes_its_number(a as nat);
        crate::numerals::law_decimal_denotes_its_number(b as nat);
    }
}

/// Matches that end at different instants, or that are of different lengths and end at the same, are
/// different triggers: fresh evidence fires anew.
pub proof fn law_matches_have_their_own_triggers(
    routine_id: Seq<char>,
    a: IntentCandidateView,
    b: IntentCandidateView,
)
    requires
        a.matched_prefix_len <= u32::MAX,
        b.matched_prefix_len <= u32::MAX,
        a.matched_prefix_len != b.matched_prefix_len || a.last_matched_end_ts_ns
            != b.last_matched_end_ts_ns,
    ensures
        intent_trigger_key(routine_id, a) != intent_trigger_key(routine_id, b),
{
    let head = "intent:"@ + routine_id + ":"@;
    let x = decimal(a.matched_prefix_len as nat);
    let y = decimal(b.matched_prefix_len as nat);
    let u = decimal(a.last_matched_end_ts_ns as nat);
    let v = decimal(b.last_matched_end_ts_ns as nat);
    crate::numerals::law_decimal_denotes_its_number(a.matched_prefix_len as nat);
    crate::numerals::law_decimal_denotes_its_number(b.matched_prefix_len as nat);
    crate::numerals::law_decimal_denotes_its_number(a.last_matched_end_ts_ns as nat);
    crate::numerals::law_decimal_denotes_its_number(b.last_matched_end_ts_ns as nat);
    if intent_trigger_key(routine_id, a) == intent_trigger_key(routine_id, b) {
        reveal_strlit(":");
        assert(intent_trigger_key(routine_id, a) =~= head + (x + ":"@ + u));
        assert(intent_trigger_key(routine_id, b) =~= head + (y + ":"@ + v));
        lemma_same_behind(head, x + ":"@ + u, y + ":"@ + v);
        let left = x + ":"@ + u;
        let right = y + ":"@ + v;
        assert(left[x.len() as int] == ':');
        assert(right[y.len() as int] == ':');
        if x.len() < y.len() {
            assert(right[x.len() as int] == y[x.len() as int]);
            assert(crate::numerals::is_digit(y[x.len() as int]));
        } else if y.len() < x.len() {
            assert(left[y.len() as int] == x[y.len() as int]);
            assert(crate::numerals::is_digit(x[y.len() as int]));
        }
        assert(x =~= left.take(x.len() as int));
        assert(y =~= right.take(y.len() as int));
        assert(u =~= left.skip(x.len() as int + 1));
        assert(v =~= right.skip(y.len() as int + 1));
    }
}

/// The candidate of a routine is the first of the list for it.
pub proof fn law_first_candidate_counts(
    candidates: Seq<IntentCandidateView>,
    routine_id: Seq<char>,
)
    ensures
        candidate_for(candidates, routine_id) is None <==> forall|i: int|
            0 <= i < candidates.len() ==> (#[trigger] candidates[i]).routine_id != routine_id,
        candidate_for(candidates, routine_id) matches Some(found) ==> exists|i: int|
            0 <= i < candidates.len() && #[trigger] candidates[i] == found && found.routine_id
                == routine_id && forall|j: int|
                0 <= j < i ==> (#[trigger] candidates[j]).routine_id != routine_id,
    decreases candidates.len(),
{
    if candidates.len() > 0 {
        let rest = candidates.drop_first();
        law_first_candidate_counts(rest, routine_id);
        if candidates[0].routine_id == routine_id {
            assert(candidates[0] == candidate_for(candidates, routine_id)->Some_0);
        } else {
            assert forall|i: int| 0 <= i < rest.len() implies rest[i] == #[trigger] candidates[i
                + 1] by {}
            if candidate_for(rest, routine_id) is Some {
                let i = choose|i: int|
                    0 <= i < rest.len() && #[trigger] rest[i] == candidate_for(
                        rest,
                        routine_id,
                    )->Some_0 && forall|j: int|
                        0 <= j < i ==> (#[trigger] rest[j]).routine_id != routine_id;
                assert(candidates[i + 1] == rest[i]);
                assert forall|j: int| 0 <= j < i + 1 implies (#[trigger] candidates[j]).routine_id
                    != routine_id by {
                    if j > 0 {
                        assert(rest[j - 1] == candidates[j]);
                    }
                }
            } else {
                assert forall|i: int| 0 <= i < candidates.len() implies (
                #[trigger] candidates[i]).routine_id != routine_id by {
                    if i > 0 {
                        assert(rest[i - 1] == candidates[i]);
                    }
                }
            }
        }
    }
}

/// When a routine is due by intent: where the tick asks for intents, the arming takes them, the operator
/// appears to be executing the routine, and the trigger of that match has not fired. The run carries
/// what the match rests on, and the plan that is installed.
pub proof fn law_due_by_a_fresh_match(
    record: ArmedView,
    plan_ref: Seq<char>,
    mode: ArmedRoutineTickTriggerMode,
    now: u64,
    candidates: Seq<IntentCandidateView>,
)
    ensures
        ({
            let r = assess_intent(record, plan_ref, mode, now, candidates);
            let found = candidate_for(candidates, record.routine_id);
            let asked = mode != ArmedRoutineTickTriggerMode::Schedule && record.intent_enabled
                && found is Some;
            let c = found->Some_0;
            let key = intent_trigger_key(record.routine_id, c);
            let fired = record.last_intent_fire_key == Some(key);
            &&& r is Idle <==> !asked
            &&& r is Skipped <==> asked && fired
            &&& r is Skipped ==> r->Skipped_0 == "intent_already_fired"@
            &&& r is Due <==> asked && !fired
            &&& r matches AssessmentView::Due(due) ==> {
                &&& due.routine_id == record.routine_id
                &&& due.trigger_kind == ArmedRoutineTriggerKind::Intent
                &&& due.trigger_key == key
                &&& due.due_ts_ns == now
                &&& due.plan_ref == Some(plan_ref)
                &&& due.intent matches Some(evidence) && evidence.confidence == c.confidence
                    && evidence.last_matched_end_ts_ns == c.last_matched_end_ts_ns && (
                c.matched_prefix_len <= u32::MAX ==> evidence.matched_prefix_len
                    == c.matched_prefix_len) && (c.total_steps <= u32::MAX ==> evidence.total_steps
                    == c.total_steps)
            }
        }),
{
}

/// What a tick makes of an arming. It is not looked at where the tick is for another routine; it is
/// passed over where it is disarmed, was never mined, is disabled or archived, or has no installed
/// automation; otherwise its schedule decides where the tick asks for schedules and the arming takes
/// them, and its intent where the schedule makes nothing due.
pub proof fn law_tick_assesses_each_arming(
    record: ArmedView,
    schedule: RoutineSchedule,
    lifecycle: Option<RoutineLifecycle>,
    automation: Option<RoutineAutomation>,
    only: Option<Seq<char>>,
    mode: ArmedRoutineTickTriggerMode,
    now: u64,
    calendar: TickCalendar,
    candidates: Seq<IntentCandidateView>,
    mined: bool,
)
    ensures
        ({
            let facts = RoutineFacts {
                schedule: Ok(
                    if mined {
                        Some(schedule)
                    } else {
                        None
                    },
                ),
                lifecycle: Ok(lifecycle),
                automation: Ok(automation),
            };
            let r = assess(record, facts, only, mode, now, calendar, candidates);
            let other = only is Some && only->Some_0 != record.routine_id;
            let retired = lifecycle == Some(RoutineLifecycle::Disabled) || lifecycle == Some(
                RoutineLifecycle::Archived,
            );
            let installed = automation is Some && automation->Some_0.state@ == "installed"@;
            let ready = !other && record.enabled && mined && !retired && installed;
            let by_schedule = record.schedule_enabled && mode
                != ArmedRoutineTickTriggerMode::Intent;
            let by_intent = assess_intent(
                record,
                automation->Some_0.plan_ref@,
                mode,
                now,
                candidates,
            );
            &&& other ==> r == AssessmentView::NotAsked
            &&& !other && !record.enabled ==> r == AssessmentView::Skipped(
                "armed_record_disabled"@,
            )
            &&& !other && record.enabled && !mined ==> r == AssessmentView::Skipped(
                "routine_not_mined"@,
            )
            &&& !other && record.enabled && mined && retired ==> r == AssessmentView::Skipped(
                "routine_lifecycle_disabled"@,
            )
            &&& !other && record.enabled && mined && !retired && !installed ==> r
                == AssessmentView::Skipped("automation_not_installed"@)
            &&& ready && !by_schedule ==> r == by_intent
            &&& ready && by_schedule ==> match schedule_answer(record, schedule, now, calendar) {
                Ok(Some(due)) => r == AssessmentView::Due(due),
                Ok(None) => r == by_intent,
                Err(e) => r == AssessmentView::Failed(e),
            }
        }),
{
}

/// What was found to be due and what was passed over: each arming that was assessed so, in the order of
/// the armings, and none besides; every arming that was looked at is counted.
pub proof fn law_tick_reports_what_it_found(
    records: Seq<ArmedRoutineRecord>,
    s: Seq<AssessmentView>,
    due: DueView,
    skip: (Seq<char>, Seq<char>),
)
    ensures
        due_of(s).contains(due) <==> exists|i: int|
            0 <= i < s.len() && #[trigger] s[i] == AssessmentView::Due(due),
        skips_of(records, s).contains(skip) <==> exists|i: int|
            0 <= i < s.len() && #[trigger] s[i] == AssessmentView::Skipped(skip.1)
                && records[i].routine_id@ == skip.0,
        evaluated_count(s) == s.filter(|a: AssessmentView| a != AssessmentView::NotAsked).len(),
    decreases s.len(),
{
    reveal(Seq::filter);
    if s.len() > 0 {
        let rest = s.drop_last();
        let last = s.last();
        law_tick_reports_what_it_found(records, rest, due, skip);
        assert(s[s.len() - 1] == last);
        assert forall|i: int| 0 <= i < rest.len() implies rest[i] == #[trigger] s[i] by {}
        if due_of(rest).contains(due) {
            let i = choose|i: int|
                0 <= i < rest.len() && #[trigger] rest[i] == AssessmentView::Due(due);
            assert(s[i] == AssessmentView::Due(due));
            let k = choose|k: int| 0 <= k < due_of(rest).len() && due_of(rest)[k] == due;
            assert(due_of(s)[k] == due);
        }
        if skips_of(records, rest).contains(skip) {
            let i = choose|i: int|
                0 <= i < rest.len() && #[trigger] rest[i] == AssessmentView::Skipped(skip.1)
                    && records[i].routine_id@ == skip.0;
            assert(s[i] == AssessmentView::Skipped(skip.1));
            let k = choose|k: int|
                0 <= k < skips_of(records, rest).len() && skips_of(records, rest)[k] == skip;
            assert(skips_of(records, s)[k] == skip);
        }
        if last == AssessmentView::Due(due) {
            assert(due_of(s)[due_of(rest).len() as int] == due);
        }
        if last == AssessmentView::Skipped(skip.1) && records[s.len() - 1].routine_id@ == skip.0 {
            assert(skips_of(records, s)[skips_of(records, rest).len() as int] == skip);
        }
    }
}

/// A tick finds what is due, at the instant it is for: what the schedule makes due of an arming that is
/// switched on and takes schedules, of a mined routine that is neither disabled nor archived and whose
/// automation is installed, is among the runs of every tick that asks for schedules and not for
/// another routine.
pub proof fn law_ticks_find_what_is_due<S, E>(
    params: ArmedRoutineTickParams,
    host_now_ns: u64,
    facts: TickFacts<S, E>,
    found: DueRuns,
    records: Vec<ArmedRoutineRecord>,
    i: int,
    schedule: RoutineSchedule,
    automation: RoutineAutomation,
    due: DueView,
)
    requires
        finds_due(params, host_now_ns, facts, Ok(found)),
        facts.records == Ok::<Vec<ArmedRoutineRecord>, ToolError>(records),
        0 <= i < records@.len(),
        params.routine_id is None || params.routine_id->Some_0@ == records@[i].routine_id@,
        params.trigger_mode is None || params.trigger_mode == Some(
            ArmedRoutineTickTriggerMode::Schedule,
        ) || params.trigger_mode == Some(ArmedRoutineTickTriggerMode::Both),
        records@[i].enabled,
        records@[i].schedule_enabled,
        facts.routines@[i].schedule == Ok::<Option<RoutineSchedule>, ToolError>(Some(schedule)),
        facts.routines@[i].lifecycle matches Ok(lifecycle) && lifecycle != Some(
            RoutineLifecycle::Disabled,
        ) && lifecycle != Some(RoutineLifecycle::Archived),
        facts.routines@[i].automation == Ok::<Option<RoutineAutomation>, ToolError>(
            Some(automation),
        ),
        automation.state@ == "installed"@,
        schedule_answer(
            records@[i]@,
            schedule,
            match params.now_ts_ns {
                Some(now) => now,
                None => host_now_ns,
            },
            facts.calendar,
        ) == Ok::<Option<DueView>, ErrorView>(Some(due)),
    ensures
        due_views(found.due@).contains(due),
        found.now_ts_ns == match params.now_ts_ns {
            Some(now) => now,
            None => host_now_ns,
        },
{
    let all = assess_all(
        records@,
        facts.routines@,
        params,
        tick_now(params, host_now_ns),
        facts.calendar,
        tick_candidates(facts),
    );
    assert(all[i] == AssessmentView::Due(due));
    law_tick_reports_what_it_found(records@, all, due, (Seq::empty(), Seq::empty()));
}

/// When a routine may be armed: its id is acceptable, at least one trigger is asked for, the threshold
/// lies between one and twenty failures, writing is permitted, the routine was mined, and its
/// automation is installed with a plan.
pub proof fn law_arming_needs_an_installed_automation(
    routine_id: Seq<char>,
    config: ArmRoutineConfig,
    facts: ArmingFacts,
)
    ensures
        arming_error(routine_id, config, facts) is None <==> {
            &&& facts.id_check is Ok
            &&& config.schedule_enabled || config.intent_enabled
            &&& 1 <= config.failure_threshold <= 20
            &&& facts.pressure.permits_write
            &&& facts.mined == Ok::<bool, ToolError>(true)
            &&& facts.automation matches Ok(Some(automation)) && automation.state@ == "installed"@
                && !is_blank(automation.plan_ref@)
            &&& facts.existing is Ok
        },
{
}

/// What arming does: it switches the triggers on that were asked for, with the threshold asked for, no
/// failures, and the plan, caller, note and instant of the call; it keeps when the arming was first
/// made and which triggers and run came last.
pub proof fn law_arming_sets_what_was_asked_for(
    routine_id: Seq<char>,
    existing: Option<ArmedRoutineRecord>,
    config: ArmRoutineConfig,
    by_session: Seq<char>,
    note: Option<Seq<char>>,
    plan_ref: Seq<char>,
    now: u64,
)
    ensures
        ({
            let base = arming_base(routine_id, config, existing, now);
            let r = armed(base, config, by_session, note, plan_ref, now);
            &&& r.enabled
            &&& r.schedule_enabled == config.schedule_enabled
            &&& r.intent_enabled == config.intent_enabled
            &&& r.failure_threshold == config.failure_threshold
            &&& r.consecutive_failures == 0
            &&& r.updated_at_ns == now
            &&& r.armed_at_ns == Some(now)
            &&& r.armed_by == Some(by_session)
            &&& r.arm_note == note
            &&& r.disarmed_at_ns is None
            &&& r.disarmed_by is None
            &&& r.disarm_reason is None
            &&& r.plan_ref == Some(plan_ref)
            &&& r.last_run_status is None
            &&& r.record_version == 1
            &&& r.row_kind == "armed_routine"@
            &&& existing is None ==> r.routine_id == routine_id && r.created_at_ns == now
                && r.last_schedule_fire_key is None && r.last_intent_fire_key is None
                && r.last_run_id is None
            &&& existing matches Some(before) ==> r.routine_id == before.routine_id@
                && r.created_at_ns == before.created_at_ns && r.last_schedule_fire_key
                == optional_view(before.last_schedule_fire_key) && r.last_intent_fire_key
                == optional_view(before.last_intent_fire_key) && r.last_run_id == optional_view(
                before.last_run_id,
            )
        }),
{
}

/// What disarming does: it switches the arming off and notes when, by whom and why; all else stays.
pub proof fn law_disarming_only_switches_off(
    before: ArmedView,
    by_session: Seq<char>,
    reason: Option<Seq<char>>,
    now: u64,
)
    ensures
        ({
            let r = disarmed(before, by_session, reason, now);
            &&& !r.enabled
            &&& r.updated_at_ns == now
            &&& r.disarmed_at_ns == Some(now)
            &&& r.disarmed_by == Some(by_session)
            &&& r.disarm_reason == reason
            &&& before == (ArmedView {
                enabled: before.enabled,
                updated_at_ns: before.updated_at_ns,
                disarmed_at_ns: before.disarmed_at_ns,
                disarmed_by: before.disarmed_by,
                disarm_reason: before.disarm_reason,
                ..r
            })
        }),
{
}

/// What claiming does: it is refused where the arming is off or that very trigger came last of its
/// kind. It notes the trigger under its own kind and leaves that of the other, and starts a run of
/// that routine, trigger and plan at that instant.
pub proof fn law_claiming_notes_the_trigger(armed: ArmedView, due: DueView, now: u64)
    ensures
        ({
            let after = claimed(armed, due, now);
            let run = started_run(armed, due, now);
            let last = if due.trigger_kind == ArmedRoutineTriggerKind::Schedule {
                armed.last_schedule_fire_key
            } else {
                armed.last_intent_fire_key
            };
            &&& claim_error(armed, due) is None <==> armed.enabled && last != Some(due.trigger_key)
            &&& due.trigger_kind == ArmedRoutineTriggerKind::Schedule ==> after.last_schedule_fire_key
                == Some(due.trigger_key) && after.last_intent_fire_key == armed.last_intent_fire_key
            &&& due.trigger_kind == ArmedRoutineTriggerKind::Intent ==> after.last_intent_fire_key
                == Some(due.trigger_key) && after.last_schedule_fire_key
                == armed.last_schedule_fire_key
            &&& after.updated_at_ns == now
            &&& after.last_run_status == Some(ArmedRoutineRunStatus::Started)
            &&& after.last_run_id == Some(run.run_id)
            &&& after == (ArmedView {
                last_schedule_fire_key: after.last_schedule_fire_key,
                last_intent_fire_key: after.last_intent_fire_key,
                updated_at_ns: after.updated_at_ns,
                last_run_id: after.last_run_id,
                last_run_status: after.last_run_status,
                ..armed
            })
            &&& run.routine_id == due.routine_id
            &&& run.trigger_kind == due.trigger_kind
            &&& run.trigger_key == due.trigger_key
            &&& run.started_ts_ns == now
            &&& run.completed_ts_ns == now
            &&& run.status == ArmedRoutineRunStatus::Started
            &&& run.plan_ref == due.plan_ref
            &&& run.intent == due.intent
            &&& run.failure_count_after == armed.consecutive_failures
            &&& !run.disarmed_after_failure
            &&& !run.dry_run
            &&& run.execution_id is None && run.approval_id is None
            &&& run.error_code is None && run.error is None
            &&& run.run_id == "arr1-"@ + due.routine_id + "-"@ + (if due.trigger_kind
                == ArmedRoutineTriggerKind::Schedule {
                "schedule"@
            } else {
                "intent"@
            }) + "-"@ + zero_padded(now as nat, 20)
        }),
{
}

/// What completing a run does: a failure is counted, a success clears the count, anything else leaves
/// it; the arming is switched off exactly by the failure that brings the count to its threshold. The
/// run reports what it was told, and keeps what it was started with.
pub proof fn law_completing_counts_failures(
    armed: ArmedView,
    run: RunView,
    report: RunReport,
    now: u64,
)
    requires
        armed.consecutive_failures < u32::MAX,
    ensures
        ({
            let after = completed(armed, run.run_id, report.status, now);
            let done = finished_run(run, armed, report, now);
            let failed = report.status == ArmedRoutineRunStatus::Failed;
            let count: int = if failed {
                armed.consecutive_failures + 1
            } else if report.status == ArmedRoutineRunStatus::Succeeded {
                0
            } else {
                armed.consecutive_failures as int
            };
            let off = failed && count >= armed.failure_threshold;
            &&& after.consecutive_failures == count
            &&& done.failure_count_after == count
            &&& done.disarmed_after_failure == off
            &&& off ==> !after.enabled && after.disarmed_at_ns == Some(now) && after.disarmed_by
                == Some("armed-routine-runner"@) && after.disarm_reason is Some
            &&& !off ==> after.enabled == armed.enabled && after.disarmed_at_ns
                == armed.disarmed_at_ns && after.disarmed_by == armed.disarmed_by
                && after.disarm_reason == armed.disarm_reason
            &&& after.updated_at_ns == now
            &&& after.last_run_id == Some(run.run_id)
            &&& after.last_run_status == Some(report.status)
            &&& after.schedule_enabled == armed.schedule_enabled
            &&& after.intent_enabled == armed.intent_enabled
            &&& after.failure_threshold == armed.failure_threshold
            &&& after.routine_id == armed.routine_id
            &&& after.last_schedule_fire_key == armed.last_schedule_fire_key
            &&& after.last_intent_fire_key == armed.last_intent_fire_key
            &&& after.plan_ref == armed.plan_ref
            &&& after.created_at_ns == armed.created_at_ns
            &&& after.armed_at_ns == armed.armed_at_ns
            &&& done.status == report.status
            &&& done.completed_ts_ns == now
            &&& done.started_ts_ns == run.started_ts_ns
            &&& done.run_id == run.run_id
            &&& done.routine_id == run.routine_id
            &&& done.trigger_kind == run.trigger_kind
            &&& done.trigger_key == run.trigger_key
            &&& done.intent == run.intent
            &&& done.dry_run == run.dry_run
            &&& report.plan_ref matches Some(plan) ==> done.plan_ref == Some(plan@)
            &&& report.plan_ref is None ==> done.plan_ref == run.plan_ref
            &&& done.execution_id == optional_view(report.execution_id)
            &&& done.approval_id == optional_view(report.approval_id)
            &&& done.error_code == optional_view(report.error_code)
            &&& done.error == optional_view(report.error)
            &&& done.evidence == report.evidence@
        }),
{
}

/// A write of an arming counts only where it was encoded and stored and reads back as it was written.
pub proof fn law_unfaithful_storage_is_noticed(record: ArmedView, outcome: ArmedWriteOutcome)
    ensures
        armed_write_error(record, outcome) is None <==> outcome.encoded is Ok && outcome.stored is Ok
            && (outcome.readback matches Ok(Some(readback)) && readback@ == record),
{
}

/// A write of a run counts only where it was permitted, encoded and stored, and both rows read back:
/// the arming as it was written, the run with every field but for what is no number.
pub proof fn law_unfaithful_run_storage_is_noticed(
    armed: ArmedView,
    run: RunView,
    outcome: RunWriteOutcome,
)
    ensures
        run_write_error(armed, run, outcome) is None ==> {
            &&& outcome.pressure.permits_write
            &&& outcome.armed_encoded is Ok
            &&& outcome.run_encoded is Ok
            &&& outcome.stored is Ok
            &&& outcome.armed_readback matches Ok(Some(readback)) && readback@ == armed
            &&& outcome.run_readback matches Ok(Some(readback)) && {
                &&& readback@.run_id == run.run_id
                &&& readback@.routine_id == run.routine_id
                &&& readback@.status == run.status
                &&& readback@.trigger_kind == run.trigger_kind
                &&& readback@.trigger_key == run.trigger_key
                &&& readback@.started_ts_ns == run.started_ts_ns
                &&& readback@.completed_ts_ns == run.completed_ts_ns
                &&& readback@.plan_ref == run.plan_ref
                &&& readback@.execution_id == run.execution_id
                &&& readback@.approval_id == run.approval_id
                &&& readback@.failure_count_after == run.failure_count_after
                &&& readback@.disarmed_after_failure == run.disarmed_after_failure
                &&& readback@.error_code == run.error_code
                &&& readback@.error == run.error
                &&& readback@.dry_run == run.dry_run
                &&& readback@.intent is Some <==> run.intent is Some
                &&& run.intent matches Some(evidence) ==> readback@.intent->Some_0
                    .matched_prefix_len == evidence.matched_prefix_len && readback@.intent->Some_0
                    .total_steps == evidence.total_steps && readback@.intent->Some_0
                    .last_matched_end_ts_ns == evidence.last_matched_end_ts_ns
                    && evidence.confidence.is_same(readback@.intent->Some_0.confidence)
            }
        },
{
}

/// Loading armings takes the rows under the prefix in order, up to the first row of another kind, and
/// none is skipped: one of them that cannot be read fails the loading.
pub proof fn law_armings_are_loaded_in_order(
    rows: Seq<StoredRow<ArmedRoutineRecord>>,
    out: Seq<ArmedRoutineRecord>,
)
    ensures
        match collect_rows(rows, out) {
            RowsOutcome::All(found) => {
                &&& found.len() == out.len() + rows.len()
                &&& found.take(out.len() as int) == out
                &&& forall|i: int|
                    0 <= i < rows.len() ==> (#[trigger] rows[i]).value == Ok::<
                        ArmedRoutineRecord,
                        String,
                    >(found[out.len() + i]) && armed_prefix_bytes().is_prefix_of(rows[i].key@)
            },
            RowsOutcome::Left(found) => {
                let n = found.len() - out.len();
                &&& 0 <= n < rows.len()
                &&& found.take(out.len() as int) == out
                &&& !armed_prefix_bytes().is_prefix_of(rows[n].key@)
                &&& forall|i: int|
                    0 <= i < n ==> (#[trigger] rows[i]).value == Ok::<ArmedRoutineRecord, String>(
                        found[out.len() + i],
                    ) && armed_prefix_bytes().is_prefix_of(rows[i].key@)
            },
            RowsOutcome::Bad(_) => exists|i: int|
                0 <= i < rows.len() && (#[trigger] rows[i]).value is Err && forall|j: int|
                    0 <= j < i ==> (#[trigger] rows[j]).value is Ok,
        },
    decreases rows.len(),
{
    if rows.len() == 0 {
        assert(out.take(out.len() as int) =~= out);
    } else if !armed_prefix_bytes().is_prefix_of(rows[0].key@) {
        assert(out.take(out.len() as int) =~= out);
    } else {
        match rows[0].value {
            Ok(record) => {
                let rest = rows.drop_first();
                let more = out.push(record);
                law_armings_are_loaded_in_order(rest, more);
                match collect_rows(rest, more) {
                    RowsOutcome::All(found) => {
                        assert(found.take(out.len() as int) =~= found.take(
                            more.len() as int,
                        ).take(out.len() as int));
                        assert(more.take(out.len() as int) =~= out);
                        assert(found[out.len() as int] == found.take(more.len() as int)[out.len() as int]);
                        assert forall|i: int| 0 <= i < rows.len() implies (#[trigger] rows[i]).value
                            == Ok::<ArmedRoutineRecord, String>(found[out.len() + i])
                            && armed_prefix_bytes().is_prefix_of(rows[i].key@) by {
                            if i > 0 {
                                assert(rest[i - 1] == rows[i]);
                            }
                        }
                    },
                    RowsOutcome::Left(found) => {
                        let n = found.len() - out.len();
                        assert(found.take(out.len() as int) =~= found.take(
                            more.len() as int,
                        ).take(out.len() as int));
                        assert(more.take(out.len() as int) =~= out);
                        assert(found[out.len() as int] == found.take(more.len() as int)[out.len() as int]);
                        assert(rest[n - 1] == rows[n]);
                        assert forall|i: int| 0 <= i < n implies (#[trigger] rows[i]).value == Ok::<
                            ArmedRoutineRecord,
                            String,
                        >(found[out.len() + i]) && armed_prefix_bytes().is_prefix_of(
                            rows[i].key@,
                        ) by {
                            if i > 0 {
                                assert(rest[i - 1] == rows[i]);
                            }
                        }
                    },
                    RowsOutcome::Bad(_) => {
                        let i = choose|i: int|
                            0 <= i < rest.len() && (#[trigger] rest[i]).value is Err && forall|
                                j: int,
                            |
                                0 <= j < i ==> (#[trigger] rest[j]).value is Ok;
                        assert(rows[i + 1] == rest[i]);
                        assert forall|j: int| 0 <= j < i + 1 implies (
                        #[trigger] rows[j]).value is Ok by {
                            if j > 0 {
                                assert(rest[j - 1] == rows[j]);
                            }
                        }
                    },
                }
            },
            Err(_) => {
                assert(rows[0].value is Err);
            },
        }
    }
}

/// Whether a schedule makes a routine due: on a day that its class admits, where the minute lies no
/// further from its usual one, round the clock, than the routine's own tolerance (five minutes at least
/// and half a day at most), unless that very window has fired. The run is of that routine, at that
/// instant.
pub proof fn law_schedules_are_due_within_their_own_tolerance(
    record: &ArmedRoutineRecord,
    schedule: &RoutineSchedule,
    now: u64,
    calendar: &TickCalendar,
    r: Result<Option<ArmedRoutineDueRun>, ToolError>,
)
    requires
        call_ensures(schedule_due_run, (record, schedule, now, calendar), r),
        calendar.day_start is Ok,
        calendar.previous_day_start is Ok,
        calendar.next_day_start is Ok,
        calendar.weekday is Ok,
        calendar.day_start->Ok_0 <= now,
        now - calendar.day_start->Ok_0 < 86_400_000_000_000,
    ensures
        ({
            let minute = (now - calendar.day_start->Ok_0) / 60_000_000_000;
            let usual = schedule.mean_minute_of_day as int % 1440;
            let ahead = minute - usual;
            let weekday = calendar.weekday->Ok_0;
            let near = |t: int| -t <= ahead <= t || ahead >= 1440 - t || ahead <= t - 1440;
            let window = if ahead > 720 {
                calendar.next_day_start->Ok_0
            } else if ahead < -720 {
                calendar.previous_day_start->Ok_0
            } else {
                calendar.day_start->Ok_0
            };
            let key = "schedule:"@ + record.routine_id@ + ":"@ + decimal(window as nat);
            let admitted = match schedule.dow_class {
                RoutineDowClass::Daily => true,
                RoutineDowClass::Weekdays => weekday < 5,
                RoutineDowClass::Weekend => weekday >= 5,
                RoutineDowClass::Days { days } => days@.contains(weekday),
            };
            let fired = optional_view(record.last_schedule_fire_key) == Some(key);
            &&& r is Ok
            &&& (5 <= schedule.tolerance_minutes <= 720 ==> (r->Ok_0 is Some <==> admitted && near(
                schedule.tolerance_minutes as int,
            ) && !fired))
            &&& (schedule.tolerance_minutes < 5 ==> (r->Ok_0 is Some <==> admitted && near(5)
                && !fired))
            &&& (schedule.tolerance_minutes > 720 ==> (r->Ok_0 is Some <==> admitted && !fired))
            &&& (r->Ok_0 is Some ==> {
                let due = r->Ok_0->Some_0@;
                &&& due.routine_id == record.routine_id@
                &&& due.trigger_kind is Schedule
                &&& due.trigger_key == key
                &&& due.due_ts_ns == now
                &&& due.intent is None
            })
        }),
{
    law_due_within_the_own_tolerance(
        record@,
        *schedule,
        now,
        calendar.day_start->Ok_0,
        calendar.previous_day_start->Ok_0,
        calendar.next_day_start->Ok_0,
        calendar.weekday->Ok_0,
    );
}

/// The distance of two minutes of the day goes round the clock the shorter way.
pub proof fn law_minutes_are_apart_the_shorter_way(a: u32, b: u32, r: u32)
    requires
        a < 1440,
        b < 1440,
        call_ensures(circular_minute_distance, (a, b), r),
    ensures
        r <= 720,
        (a + r) % 1440 == b || (b + r) % 1440 == a,
{
}

/// A class of days has its days: all, those up to Friday, those from Saturday on, or those it names.
pub proof fn law_days_belong_to_their_class(dow: &RoutineDowClass, weekday: u8, r: bool)
    requires
        call_ensures(dow_matches, (dow, weekday), r),
        weekday <= 6,
    ensures
        *dow is Daily ==> r,
        *dow is Weekdays ==> (r <==> weekday < 5),
        *dow is Weekend ==> (r <==> weekday == 5 || weekday == 6),
        *dow matches RoutineDowClass::Days { days } ==> (r <==> days@.contains(weekday)),
{
}

/// The day before is reached an instant before a day begins, and the day behind it a day and a half
/// later.
pub proof fn law_neighbouring_days_are_reached(day_start: u64, before: u64, behind: u64)
    requires
        call_ensures(instant_of_previous_day, (day_start,), before),
        call_ensures(instant_of_next_day, (day_start,), behind),
    ensures
        day_start > 0 ==> before == day_start - 1,
        day_start == 0 ==> before == 0,
        day_start + 129_600_000_000_000 <= u64::MAX ==> behind == day_start + 129_600_000_000_000,
        day_start + 129_600_000_000_000 > u64::MAX ==> behind == u64::MAX,
{
}

/// An arming is made as it was asked for, where it may be: with an acceptable id, a trigger, a threshold
/// from one to twenty, a store that can be written, and a mined routine whose automation is installed
/// with a plan. It is switched on, without failures, and keeps what it had of before.
pub proof fn law_routines_are_armed_as_asked(
    routine_id: &str,
    config: ArmRoutineConfig,
    by_session: &str,
    note: Option<String>,
    facts: ArmingFacts,
    now: u64,
    r: Result<ArmedRoutineRecord, ToolError>,
)
    requires
        call_ensures(arm_routine, (routine_id, config, by_session, note, facts, now), r),
    ensures
        r is Ok <==> {
            &&& facts.id_check is Ok
            &&& config.schedule_enabled || config.intent_enabled
            &&& 1 <= config.failure_threshold <= 20
            &&& facts.pressure.permits_write
            &&& facts.mined == Ok::<bool, ToolError>(true)
            &&& facts.automation is Ok && facts.automation->Ok_0 is Some
                && facts.automation->Ok_0->Some_0.state@ == "installed"@ && !is_blank(
                facts.automation->Ok_0->Some_0.plan_ref@,
            )
            &&& facts.existing is Ok
        },
        r is Ok ==> {
            let a = (r->Ok_0)@;
            &&& a.enabled && a.consecutive_failures == 0
            &&& a.schedule_enabled == config.schedule_enabled
            &&& a.intent_enabled == config.intent_enabled
            &&& a.failure_threshold == config.failure_threshold
            &&& a.updated_at_ns == now && a.armed_at_ns == Some(now)
            &&& a.armed_by == Some(by_session@)
            &&& a.arm_note == optional_view(note)
            &&& a.disarmed_at_ns is None && a.disarmed_by is None && a.disarm_reason is None
            &&& a.plan_ref == Some(facts.automation->Ok_0->Some_0.plan_ref@)
            &&& a.last_run_status is None
            &&& (facts.existing->Ok_0 is None ==> a.routine_id == routine_id@ && a.created_at_ns
                == now && a.last_schedule_fire_key is None && a.last_intent_fire_key is None)
            &&& (facts.existing->Ok_0 matches Some(before) ==> a.routine_id == before.routine_id@
                && a.created_at_ns == before.created_at_ns && a.last_schedule_fire_key
                == optional_view(before.last_schedule_fire_key) && a.last_intent_fire_key
                == optional_view(before.last_intent_fire_key))
        },
{
    law_arming_needs_an_installed_automation(routine_id@, config, facts);
    if r is Ok {
        law_arming_sets_what_was_asked_for(
            routine_id@,
            facts.existing->Ok_0,
            config,
            by_session@,
            optional_view(note),
            facts.automation->Ok_0->Some_0.plan_ref@,
            now,
        );
    }
}

/// What is not said of an arming: both triggers, and three failures. A configuration is sound with a
/// trigger and a threshold from one to twenty.
pub proof fn law_arming_defaults(
    schedule_enabled: Option<bool>,
    intent_enabled: Option<bool>,
    failure_threshold: Option<u32>,
    config: ArmRoutineConfig,
    r: Result<(), ToolError>,
)
    requires
        call_ensures(
            ArmRoutineConfig::from_optional,
            (schedule_enabled, intent_enabled, failure_threshold),
            config,
        ),
        call_ensures(validate_arm_config, (config,), r),
    ensures
        schedule_enabled is Some ==> Some(config.schedule_enabled) == schedule_enabled,
        schedule_enabled is None ==> config.schedule_enabled,
        intent_enabled is Some ==> Some(config.intent_enabled) == intent_enabled,
        intent_enabled is None ==> config.intent_enabled,
        failure_threshold is Some ==> Some(config.failure_threshold) == failure_threshold,
        failure_threshold is None ==> config.failure_threshold == 3,
        r is Ok <==> (config.schedule_enabled || config.intent_enabled) && 1
            <= config.failure_threshold <= 20,
{
}

/// Disarming switches an arming off, with who, when and why, and leaves all else; it is refused for an
/// unacceptable id, a store that cannot be written, and a routine that was never armed.
pub proof fn law_routines_are_disarmed(
    routine_id: &str,
    by_session: &str,
    reason: Option<String>,
    id_check: Result<(), ToolError>,
    pressure: &WritePressure,
    existing: Result<Option<ArmedRoutineRecord>, ToolError>,
    now: u64,
    r: Result<ArmedRoutineRecord, ToolError>,
)
    requires
        call_ensures(
            disarm_routine,
            (routine_id, by_session, reason, id_check, pressure, existing, now),
            r,
        ),
    ensures
        r is Ok <==> id_check is Ok && pressure.permits_write && existing is Ok && existing->Ok_0
            is Some,
        r is Ok ==> {
            let before = existing->Ok_0->Some_0@;
            let after = (r->Ok_0)@;
            &&& !after.enabled
            &&& after.updated_at_ns == now && after.disarmed_at_ns == Some(now)
            &&& after.disarmed_by == Some(by_session@)
            &&& after.disarm_reason == optional_view(reason)
            &&& after.routine_id == before.routine_id
            &&& after.schedule_enabled == before.schedule_enabled
            &&& after.intent_enabled == before.intent_enabled
            &&& after.consecutive_failures == before.consecutive_failures
            &&& after.last_schedule_fire_key == before.last_schedule_fire_key
            &&& after.last_intent_fire_key == before.last_intent_fire_key
            &&& after.created_at_ns == before.created_at_ns
        },
{
}

/// A trigger is claimed once: of an arming that is on and whose last trigger of that kind it was not. It
/// is then the last of its kind, and a run of it has started.
pub proof fn law_triggers_are_claimed_once(
    due: &ArmedRoutineDueRun,
    now: u64,
    pressure: &WritePressure,
    found: Result<Option<ArmedRoutineRecord>, ToolError>,
    r: Result<(ArmedRoutineRecord, ArmedRoutineRunRecord), ToolError>,
)
    requires
        call_ensures(claim_armed_run, (due, now, pressure, found), r),
    ensures
        r is Ok ==> pressure.permits_write && found is Ok && found->Ok_0 is Some,
        pressure.permits_write && found is Ok && found->Ok_0 is Some ==> {
            let before = found->Ok_0->Some_0@;
            let last = if due@.trigger_kind is Schedule {
                before.last_schedule_fire_key
            } else {
                before.last_intent_fire_key
            };
            &&& (r is Ok <==> before.enabled && last != Some(due@.trigger_key))
            &&& (r is Ok ==> {
                let after = (r->Ok_0).0@;
                let run = (r->Ok_0).1@;
                &&& (due@.trigger_kind is Schedule ==> after.last_schedule_fire_key == Some(
                    due@.trigger_key,
                ) && after.last_intent_fire_key == before.last_intent_fire_key)
                &&& (due@.trigger_kind is Intent ==> after.last_intent_fire_key == Some(
                    due@.trigger_key,
                ) && after.last_schedule_fire_key == before.last_schedule_fire_key)
                &&& after.enabled && after.consecutive_failures == before.consecutive_failures
                &&& after.last_run_id == Some(run.run_id)
                &&& run.routine_id == due@.routine_id
                &&& run.trigger_kind == due@.trigger_kind
                &&& run.trigger_key == due@.trigger_key
                &&& run.started_ts_ns == now
                &&& run.status is Started
                &&& run.plan_ref == due@.plan_ref
                &&& !run.dry_run
            })
        },
{
    if found is Ok && found->Ok_0 is Some {
        law_claiming_notes_the_trigger(found->Ok_0->Some_0@, due@, now);
    }
}

/// A run that fails counts, one that succeeds clears the count, and the failure that reaches the
/// threshold switches the arming off; the run tells what was reported of it.
pub proof fn law_runs_are_completed(
    run: ArmedRoutineRunRecord,
    report: RunReport,
    before: ArmedRoutineRecord,
    now: u64,
    r: Result<(ArmedRoutineRecord, ArmedRoutineRunRecord), ToolError>,
)
    requires
        before@.consecutive_failures < u32::MAX,
        call_ensures(
            complete_armed_run,
            (run, report, Ok::<Option<ArmedRoutineRecord>, ToolError>(Some(before)), now),
            r,
        ),
    ensures
        r is Ok,
        ({
            let after = (r->Ok_0).0@;
            let done = (r->Ok_0).1@;
            let count: int = if report.status is Failed {
                before@.consecutive_failures + 1
            } else if report.status is Succeeded {
                0
            } else {
                before@.consecutive_failures as int
            };
            let off = report.status is Failed && count >= before@.failure_threshold;
            &&& after.consecutive_failures == count && done.failure_count_after == count
            &&& done.disarmed_after_failure == off
            &&& (off ==> !after.enabled)
            &&& (!off ==> after.enabled == before@.enabled)
            &&& after.last_run_status == Some(report.status)
            &&& after.last_schedule_fire_key == before@.last_schedule_fire_key
            &&& after.last_intent_fire_key == before@.last_intent_fire_key
            &&& done.status == report.status
            &&& done.completed_ts_ns == now
            &&& done.run_id == run@.run_id
            &&& done.error == optional_view(report.error)
            &&& done.error_code == optional_view(report.error_code)
            &&& done.execution_id == optional_view(report.execution_id)
        }),
{
    law_completing_counts_failures(before@, run@, report, now);
}

/// A tick asks for the intents, every one of them, where it takes intents; at its instant and over the
/// hours it is told.
pub proof fn law_ticks_ask_for_every_intent(
    params: &ArmedRoutineTickParams,
    host_now_ns: u64,
    id_check: &Result<(), ToolError>,
    r: Option<IntentCurrentParams>,
    valid: Result<(), ToolError>,
)
    requires
        call_ensures(tick_intent_params, (params, host_now_ns), r),
        call_ensures(validate_tick_params, (params, id_check), valid),
    ensures
        r is Some <==> params.trigger_mode is None || params.trigger_mode->Some_0 is Intent
            || params.trigger_mode->Some_0 is Both,
        r is Some ==> {
            let asked = r->Some_0;
            &&& (params.now_ts_ns is Some ==> asked.now_ts_ns == params.now_ts_ns)
            &&& (params.now_ts_ns is None ==> asked.now_ts_ns == Some(host_now_ns))
            &&& asked.lookback_hours == params.lookback_hours
            &&& asked.max_candidates == Some(50u32)
            &&& asked.min_confidence is Some && asked.min_confidence->Some_0.bits == 0
            &&& !asked.include_agent_activity
        },
        valid is Ok <==> (params.routine_id is Some ==> *id_check is Ok)
            && params.launch_timeout_ms != Some(0u64),
{
}

/// What becomes of an arming in a tick: it is passed over where another routine is asked for, skipped
/// where it is off, and where its routine was not mined, is retired or has no automation; and its
/// schedule is what decides first.
pub proof fn law_armings_are_assessed<S, E>(
    record: &ArmedRoutineRecord,
    facts: &RoutineFacts,
    only: &Option<String>,
    mode: ArmedRoutineTickTriggerMode,
    now: u64,
    calendar: &TickCalendar,
    candidates: &Vec<IntentCandidate<S, E>>,
    due: Result<Option<ArmedRoutineDueRun>, ToolError>,
    r: Assessment,
)
    requires
        call_ensures(
            assess_record::<S, E>,
            (record, facts, only, mode, now, calendar, candidates),
            r,
        ),
        facts.schedule is Ok && facts.schedule->Ok_0 is Some ==> call_ensures(
            schedule_due_run,
            (record, &facts.schedule->Ok_0->Some_0, now, calendar),
            due,
        ),
    ensures
        ({
            let asked = *only is None || (*only)->Some_0@ == record.routine_id@;
            let mined = facts.schedule is Ok && facts.schedule->Ok_0 is Some;
            let alive = facts.lifecycle is Ok && facts.lifecycle->Ok_0 != Some(
                RoutineLifecycle::Disabled,
            ) && facts.lifecycle->Ok_0 != Some(RoutineLifecycle::Archived);
            let installed = facts.automation is Ok && facts.automation->Ok_0 is Some
                && facts.automation->Ok_0->Some_0.state@ == "installed"@;
            &&& (r@ is NotAsked <==> !asked)
            &&& (asked && !record.enabled ==> r@ == AssessmentView::Skipped(
                "armed_record_disabled"@,
            ))
            &&& (r@ is Due ==> asked && record.enabled && mined && alive && installed)
            &&& (asked && record.enabled && facts.schedule == Ok::<
                Option<RoutineSchedule>,
                ToolError,
            >(None) ==> r@ == AssessmentView::Skipped("routine_not_mined"@))
            &&& (asked && record.enabled && mined && alive && installed && mode !is Intent
                && record.schedule_enabled && due is Ok && due->Ok_0 is Some ==> r@
                == AssessmentView::Due(due->Ok_0->Some_0@))
            &&& (r@ is Due && r@->Due_0.trigger_kind is Schedule ==> mode !is Intent
                && record.schedule_enabled && due is Ok && due->Ok_0 is Some)
            &&& (r@ is Due && r@->Due_0.trigger_kind is Intent ==> mode !is Schedule
                && record.intent_enabled)
        }),
{
}

/// What is due is told as it is, run or not; a dry run has no run to tell of.
pub proof fn law_due_runs_are_told(
    due: &ArmedRoutineDueRun,
    run: &ArmedRoutineRunRecord,
    dry: ArmedRoutineTickRun,
    done: ArmedRoutineTickRun,
)
    requires
        call_ensures(dry_run_tick_run, (due,), dry),
        call_ensures(tick_run_from_record, (run,), done),
    ensures
        dry.routine_id == due.routine_id && dry.trigger_kind == due.trigger_kind && dry.trigger_key
            == due.trigger_key && dry.status is DryRun && dry.run_id is None && dry.error is None
            && dry.failure_count_after == 0 && !dry.disarmed_after_failure,
        done.routine_id == run.routine_id && done.trigger_kind == run.trigger_kind
            && done.trigger_key == run.trigger_key && done.status == run.status && done.run_id
            == Some(run.run_id) && done.execution_id == run.execution_id && done.approval_id
            == run.approval_id && done.failure_count_after == run.failure_count_after
            && done.disarmed_after_failure == run.disarmed_after_failure && done.error_code
            == run.error_code && done.error == run.error,
{
}

/// A tick reports every arming by what became of it: what is due among its runs, what was skipped among
/// its skips with the reason, each at the instant of the tick; and nothing failed where it answers.
pub proof fn law_ticks_report_every_arming<S, E>(
    params: &ArmedRoutineTickParams,
    host_now_ns: u64,
    facts: &TickFacts<S, E>,
    found: DueRuns,
    i: int,
    candidates: &Vec<IntentCandidate<S, E>>,
    a: Assessment,
)
    requires
        facts.records is Ok,
        facts.routines@.len() == facts.records->Ok_0@.len(),
        0 <= i < facts.records->Ok_0@.len(),
        facts.intents == Ok::<Vec<IntentCandidate<S, E>>, ToolError>(*candidates),
        call_ensures(
            due_armed_runs::<S, E>,
            (params, host_now_ns, facts),
            Ok::<DueRuns, ToolError>(found),
        ),
        call_ensures(
            assess_record::<S, E>,
            (
                &facts.records->Ok_0@[i],
                &facts.routines@[i],
                &params.routine_id,
                if params.trigger_mode is Some {
                    params.trigger_mode->Some_0
                } else {
                    ArmedRoutineTickTriggerMode::Both
                },
                if params.now_ts_ns is Some {
                    params.now_ts_ns->Some_0
                } else {
                    host_now_ns
                },
                &facts.calendar,
                candidates,
            ),
            a,
        ),
    ensures
        params.now_ts_ns is Some ==> Some(found.now_ts_ns) == params.now_ts_ns,
        params.now_ts_ns is None ==> found.now_ts_ns == host_now_ns,
        a@ !is Failed,
        a@ is Due ==> due_views(found.due@).contains(a@->Due_0),
        a@ is Skipped ==> skip_views(found.skipped@).contains(
            (facts.records->Ok_0@[i].routine_id@, a@->Skipped_0),
        ),
{
    let records = facts.records->Ok_0@;
    let all = assess_all(
        records,
        facts.routines@,
        *params,
        tick_now(*params, host_now_ns),
        facts.calendar,
        tick_candidates(*facts),
    );
    assert(all[i] == a@);
    law_tick_reports_what_it_found(
        records,
        all,
        a@->Due_0,
        (records[i].routine_id@, a@->Skipped_0),
    );
}

/// Loading begins at the prefix of all armings with nothing read, takes the rows of a chunk in order, and
/// goes on right behind the last of them; it ends where the rows do, and fails behind two hundred
/// thousand of them or where the store does.
pub proof fn law_armings_are_loaded_chunk_by_chunk(
    first: ArmedScan,
    scan: ArmedScan,
    chunk: &Result<RowChunk<ArmedRoutineRecord>, String>,
    r: ArmedScanStep,
)
    requires
        call_ensures(ArmedScan::begin, (), first),
        call_ensures(ArmedScan::absorb, (scan, chunk), r),
    ensures
        first.out@.len() == 0 && first.scanned == 0,
        first.start@ == vstd::utf8::encode_utf8("armed_routine/v1/"@),
        *chunk is Err ==> r is Done && r->Done_0 is Err,
        *chunk matches Ok(c) ==> {
            &&& (c.rows@.len() == 0 ==> r is Done && r->Done_0 is Ok && r->Done_0->Ok_0@
                == scan.out@)
            &&& (r matches ArmedScanStep::Read(next) ==> {
                &&& c.more && c.rows@.len() > 0
                &&& next.scanned == scan.scanned + c.rows@.len()
                &&& next.scanned < 200_000
                &&& next.start@ == c.rows@.last().key@.push(0)
                &&& next.out@.len() == scan.out@.len() + c.rows@.len()
                &&& forall|i: int|
                    0 <= i < c.rows@.len() ==> (#[trigger] c.rows@[i]).value == Ok::<
                        ArmedRoutineRecord,
                        String,
                    >(next.out@[scan.out@.len() + i])
            })
            &&& (r is Done && r->Done_0 is Ok ==> scan.out@.len() <= r->Done_0->Ok_0@.len()
                <= scan.out@.len() + c.rows@.len() && forall|i: int|
                0 <= i < r->Done_0->Ok_0@.len() - scan.out@.len() ==> (
                #[trigger] c.rows@[i]).value == Ok::<ArmedRoutineRecord, String>(
                    r->Done_0->Ok_0@[scan.out@.len() + i],
                ))
        },
{
    if let Ok(c) = *chunk {
        law_armings_are_loaded_in_order(c.rows@, scan.out@);
    }
}

/// An arming and a run are filed under their ids behind their own prefixes; a run's id tells its routine,
/// its trigger and its start; an arming that must be there is an error where it is not.
pub proof fn law_armings_and_runs_are_filed(
    routine_id: &str,
    run_id: &str,
    trigger: ArmedRoutineTriggerKind,
    started_ts_ns: u64,
    found: Result<Option<ArmedRoutineRecord>, ToolError>,
    armed_key: String,
    run_key: String,
    made: String,
    r: Result<ArmedRoutineRecord, ToolError>,
)
    requires
        call_ensures(armed_routine_key, (routine_id,), armed_key),
        call_ensures(armed_run_key, (run_id,), run_key),
        call_ensures(armed_run_id, (routine_id, trigger, started_ts_ns), made),
        call_ensures(read_armed_required, (routine_id, found), r),
    ensures
        armed_key@ == "armed_routine/v1/"@ + routine_id@,
        run_key@ == "armed_routine_run/v1/"@ + run_id@,
        trigger is Schedule ==> made@ == "arr1-"@ + routine_id@ + "-"@ + "schedule"@ + "-"@
            + zero_padded(started_ts_ns as nat, 20),
        trigger is Intent ==> made@ == "arr1-"@ + routine_id@ + "-"@ + "intent"@ + "-"@
            + zero_padded(started_ts_ns as nat, 20),
        r is Ok <==> found is Ok && found->Ok_0 is Some,
        r is Ok ==> r->Ok_0 == found->Ok_0->Some_0,
        found is Err ==> r->Err_0 == found->Err_0,
{
}

/// A write counts only where it reads back: the arming as it was written, and with a run both of them.
pub proof fn law_writes_must_read_back(
    record: &ArmedRoutineRecord,
    run: &ArmedRoutineRunRecord,
    outcome: ArmedWriteOutcome,
    both: RunWriteOutcome,
    r: Result<(), ToolError>,
    s: Result<(), ToolError>,
)
    requires
        call_ensures(write_armed_routine_record, (record, outcome), r),
        call_ensures(write_armed_and_run_records, (record, run, both), s),
    ensures
        r is Ok <==> outcome.encoded is Ok && outcome.stored is Ok && outcome.readback is Ok
            && outcome.readback->Ok_0 is Some && (outcome.readback->Ok_0->Some_0)@ == record@,
        s is Ok ==> both.pressure.permits_write && both.armed_encoded is Ok && both.run_encoded is Ok
            && both.stored is Ok && both.armed_readback is Ok && both.armed_readback->Ok_0 is Some
            && (both.armed_readback->Ok_0->Some_0)@ == record@ && both.run_readback is Ok
            && both.run_readback->Ok_0 is Some && (both.run_readback->Ok_0->Some_0)@.run_id
            == run@.run_id && (both.run_readback->Ok_0->Some_0)@.status == run@.status,
{
    law_unfaithful_run_storage_is_noticed(record@, run@, both);
}

/// Only a failure is one, and the statuses are told by their names.
pub proof fn law_statuses_are_told(status: ArmedRoutineRunStatus, failure: bool)
    requires
        call_ensures(ArmedRoutineRunStatus::is_failure, (status,), failure),
    ensures
        failure <==> status is Failed,
{
}

/// An arming or a run that is loaded is that of the first row under its key.
pub proof fn law_armings_and_runs_are_loaded_by_key(
    routine_id: &str,
    run_id: &str,
    rows: &Result<Vec<StoredRow<ArmedRoutineRecord>>, String>,
    run_rows: Result<Vec<StoredRow<ArmedRoutineRunRecord>>, String>,
    id_check: Result<(), ToolError>,
    r: Result<Option<ArmedRoutineRecord>, ToolError>,
    s: Result<Option<ArmedRoutineRunRecord>, ToolError>,
)
    requires
        call_ensures(load_armed_routine_record, (routine_id, id_check, rows), r),
        call_ensures(load_armed_run, (run_id, run_rows), s),
    ensures
        id_check is Err ==> r == Err::<Option<ArmedRoutineRecord>, ToolError>(id_check->Err_0),
        id_check is Ok && *rows is Err ==> r is Err,
        run_rows is Err ==> s is Err,
        r is Ok && r->Ok_0 is Some ==> exists|i: int|
            0 <= i < (*rows)->Ok_0@.len() && (#[trigger] (*rows)->Ok_0@[i]).key@
                == vstd::utf8::encode_utf8("armed_routine/v1/"@ + routine_id@)
                && (*rows)->Ok_0@[i].value == Ok::<ArmedRoutineRecord, String>(r->Ok_0->Some_0),
        s is Ok && s->Ok_0 is Some ==> exists|i: int|
            0 <= i < run_rows->Ok_0@.len() && (#[trigger] run_rows->Ok_0@[i]).key@
                == vstd::utf8::encode_utf8("armed_routine_run/v1/"@ + run_id@)
                && run_rows->Ok_0@[i].value == Ok::<ArmedRoutineRunRecord, String>(
                s->Ok_0->Some_0,
            ),
{
    if r is Ok && r->Ok_0 is Some {
        let all = (*rows)->Ok_0@;
        let key = vstd::utf8::encode_utf8(ARMED_ROUTINE_PREFIX@ + routine_id@);
        let at = choose|at: int| #[trigger]
            first_row_with_key(all, key, at) && all[at].value == Ok::<ArmedRoutineRecord, String>(
                r->Ok_0->Some_0,
            );
        assert(all[at].key@ == key);
    }
    if s is Ok && s->Ok_0 is Some {
        let all = run_rows->Ok_0@;
        let key = vstd::utf8::encode_utf8(ARMED_ROUTINE_RUN_PREFIX@ + run_id@);
        let at = choose|at: int| #[trigger]
            first_row_with_key(all, key, at) && all[at].value == Ok::<
                ArmedRoutineRunRecord,
                String,
            >(s->Ok_0->Some_0);
        assert(all[at].key@ == key);
    }
}

/// A weekday can be told of every instant that the clock can represent, and is the one of UTC or next to
/// it; a tick needs to read and write the store.
pub proof fn law_weekdays_are_near(
    ts_ns: u64,
    params: &ArmedRoutineTickParams,
    r: Result<u8, ToolError>,
    permissions: RequiredPermissions,
)
    requires
        call_ensures(weekday_for_ts, (ts_ns,), r),
        call_ensures(required_permissions_tick, (params,), permissions),
    ensures
        r is Ok <==> ts_ns <= 0x7fff_ffff_ffff_ffff,
        r is Ok ==> r->Ok_0 <= 6 && is_near_weekday(r->Ok_0 as int, ts_ns as int),
        permissions@.contains(Permission::ReadStorage),
        permissions@.contains(Permission::WriteStorage),
{
    assert(permissions@[0] == Permission::ReadStorage);
    assert(permissions@[1] == Permission::WriteStorage);
}

} // verus!
