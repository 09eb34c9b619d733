use synapse_mcp::error::ToolError;
use synapse_mcp::ieee::Real64;
use synapse_mcp::json::{flag_object, Json};
use synapse_mcp::keys::{RowChunk, StoredRow};
use synapse_mcp::m3::armed_routines::{
    arm_routine, armed_routine_key, armed_routine_tick, armed_run_id, armed_run_key,
    circular_minute_distance, claim_armed_run, complete_armed_run, disarm_routine, dow_matches,
    dry_run_tick_run, due_armed_runs, due_armed_runs_today, instant_of_next_day,
    instant_of_previous_day, load_armed_routine_record,
    load_armed_run, read_armed_required, required_permissions_tick, tick_intent_params, tick_run_from_record,
    validate_arm_config, weekday_for_ts, write_armed_and_run_records, write_armed_routine_record,
    ArmRoutineConfig, ArmedRoutineRecord, ArmedRoutineRunStatus, ArmedRoutineTickParams,
    ArmedRoutineTickTriggerMode, ArmedRoutineTriggerKind, ArmedScan, ArmedScanStep,
    ArmedWriteOutcome, ArmingFacts, RoutineAutomation, RoutineFacts, RoutineSchedule, RunReport,
    RunWriteOutcome, TickCalendar, TickFacts, WritePressure,
};
use synapse_mcp::m3::permissions::Permission;
use synapse_mcp::m3::routines::{IntentCandidate, RoutineDowClass, RoutineLifecycle};

const ROUTINE: &str = "rt1-0123456789abcdef";
const DAY_NS: u64 = 86_400_000_000_000;
const MINUTE_NS: u64 = 60_000_000_000;
const DAY: u64 = 1_700_006_400_000_000_000;
const NOW: u64 = DAY + 600 * 60_000_000_000;

fn calm() -> WritePressure {
    WritePressure { permits_write: true, level: "normal".to_owned() }
}

fn automation() -> RoutineAutomation {
    RoutineAutomation { state: "installed".to_owned(), plan_ref: format!("plan/v1/{ROUTINE}") }
}

fn arming(automation: Option<RoutineAutomation>, existing: Option<ArmedRoutineRecord>) -> ArmingFacts {
    ArmingFacts {
        id_check: Ok(()),
        pressure: calm(),
        mined: Ok(true),
        automation: Ok(automation),
        existing: Ok(existing),
    }
}

fn arm(config: ArmRoutineConfig) -> ArmedRoutineRecord {
    arm_routine(ROUTINE, config, "test-session", None, arming(Some(automation()), None), NOW)
        .expect("arm")
}

fn schedule() -> RoutineSchedule {
    RoutineSchedule {
        dow_class: RoutineDowClass::Daily,
        mean_minute_of_day: 600,
        tolerance_minutes: 0,
    }
}

type Candidate = IntentCandidate<&'static str, ()>;
type Facts = TickFacts<&'static str, ()>;

fn tick_facts(record: ArmedRoutineRecord, intents: Vec<Candidate>) -> Facts {
    TickFacts {
        id_check: Ok(()),
        records: Ok(vec![record]),
        intents: Ok(intents),
        routines: vec![RoutineFacts {
            schedule: Ok(Some(schedule())),
            lifecycle: Ok(Some(RoutineLifecycle::Confirmed)),
            automation: Ok(Some(automation())),
        }],
        calendar: calendar(DAY),
    }
}

fn calendar(day_start: u64) -> TickCalendar {
    TickCalendar {
        day_start: Ok(day_start),
        previous_day_start: Ok(day_start - DAY_NS),
        next_day_start: Ok(day_start + DAY_NS),
        weekday: Ok(2),
    }
}

fn params(mode: ArmedRoutineTickTriggerMode) -> ArmedRoutineTickParams {
    ArmedRoutineTickParams {
        now_ts_ns: Some(NOW),
        trigger_mode: Some(mode),
        ..ArmedRoutineTickParams::default()
    }
}

fn report(status: ArmedRoutineRunStatus) -> RunReport {
    RunReport {
        status,
        plan_ref: None,
        execution_id: Some("px1-test".to_owned()),
        approval_id: None,
        error_code: Some("TEST_FAILURE".to_owned()),
        error: Some("failed".to_owned()),
        evidence: flag_object("test", true),
    }
}

fn tool_error(code: &str) -> ToolError {
    ToolError { code: code.to_owned(), message: "said".to_owned() }
}

#[test]
fn arm_requires_installed_automation_and_reads_back() {
    let missing = arm_routine(
        ROUTINE,
        ArmRoutineConfig::from_optional(None, None, None),
        "test-session",
        None,
        arming(None, None),
        NOW,
    )
    .expect_err("automation missing");
    assert!(missing.message.contains("ROUTINE_AUTOMATION_NOT_INSTALLED"));

    let armed = arm_routine(
        ROUTINE,
        ArmRoutineConfig::from_optional(Some(true), Some(false), Some(2)),
        "test-session",
        Some("operator armed".to_owned()),
        arming(Some(automation()), None),
        NOW,
    )
    .expect("arm");
    assert!(armed.enabled);
    assert!(armed.schedule_enabled);
    assert!(!armed.intent_enabled);
    assert_eq!(armed.failure_threshold, 2);
    let rows = Ok(vec![StoredRow {
        key: armed_routine_key(ROUTINE).into_bytes(),
        value: Ok(armed.clone()),
    }]);
    assert_eq!(
        load_armed_routine_record(ROUTINE, Ok(()), &rows).expect("load").expect("row"),
        armed
    );
}

#[test]
fn schedule_due_claims_once_and_failure_threshold_disarms() {
    let armed = arm(ArmRoutineConfig::from_optional(Some(true), Some(false), Some(1)));
    assert!(armed.enabled);

    let params = params(ArmedRoutineTickTriggerMode::Schedule);
    let due = due_armed_runs(&params, 0, &tick_facts(armed.clone(), Vec::new())).expect("due");
    assert_eq!(due.evaluated, 1);
    assert!(due.skipped.is_empty());
    assert_eq!(due.due.len(), 1);
    let (claimed, started) =
        claim_armed_run(&due.due[0], NOW, &calm(), Ok(Some(armed))).expect("claim");
    let duplicate = due_armed_runs(&params, 0, &tick_facts(claimed.clone(), Vec::new()))
        .expect("due after claim")
        .due;
    assert!(duplicate.is_empty());

    let (armed, completed) = complete_armed_run(
        started,
        report(ArmedRoutineRunStatus::Failed),
        Ok(Some(claimed)),
        NOW + 1,
    )
    .expect("complete");
    assert!(completed.disarmed_after_failure);
    assert!(!armed.enabled);
    assert_eq!(armed.consecutive_failures, 1);
}

#[test]
fn arming_checks_come_in_order() {
    let config = ArmRoutineConfig::from_optional(None, None, None);
    assert!(config.schedule_enabled);
    assert_eq!(config.failure_threshold, 3);
    let refuse = |config, facts: ArmingFacts| {
        arm_routine(ROUTINE, config, "s", None, facts, NOW).expect_err("refused")
    };
    let mut facts = arming(Some(automation()), None);
    facts.id_check = Err(tool_error("BAD_ID"));
    assert_eq!(refuse(config, facts), tool_error("BAD_ID"));
    let mut facts = arming(Some(automation()), None);
    facts.pressure = WritePressure { permits_write: false, level: "critical".to_owned() };
    assert!(refuse(config, facts).message.contains("critical"));
    let mut facts = arming(Some(automation()), None);
    facts.mined = Ok(false);
    assert!(refuse(config, facts).message.contains(ROUTINE));
    let mut facts = arming(Some(automation()), None);
    facts.automation = Ok(Some(RoutineAutomation {
        state: "draft".to_owned(),
        plan_ref: "plan".to_owned(),
    }));
    assert!(refuse(config, facts).message.contains("automation state is \"draft\""));
    let mut facts = arming(Some(automation()), None);
    facts.existing = Err(tool_error("READ"));
    assert_eq!(refuse(config, facts), tool_error("READ"));
    assert!(validate_arm_config(ArmRoutineConfig { failure_threshold: 0, ..config }).is_err());
    assert!(validate_arm_config(ArmRoutineConfig { failure_threshold: 20, ..config }).is_ok());
    assert!(validate_arm_config(ArmRoutineConfig { failure_threshold: 21, ..config }).is_err());
    assert!(validate_arm_config(ArmRoutineConfig {
        schedule_enabled: false,
        intent_enabled: false,
        failure_threshold: 1,
    })
    .is_err());
}

#[test]
fn disarmed_routines_are_not_due_until_they_are_armed_again() {
    let armed = arm(ArmRoutineConfig::from_optional(Some(true), Some(true), None));
    let disarmed = disarm_routine(
        ROUTINE,
        "operator",
        Some("enough".to_owned()),
        Ok(()),
        &calm(),
        Ok(Some(armed)),
        NOW + 5,
    )
    .expect("disarm");
    assert!(!disarmed.enabled);
    assert_eq!(disarmed.disarmed_by.as_deref(), Some("operator"));
    assert_eq!(disarmed.disarm_reason.as_deref(), Some("enough"));
    assert_eq!(disarmed.disarmed_at_ns, Some(NOW + 5));
    let due = due_armed_runs(
        &params(ArmedRoutineTickTriggerMode::Both),
        0,
        &tick_facts(disarmed.clone(), Vec::new()),
    )
    .expect("due");
    assert!(due.due.is_empty());
    let again = arm_routine(
        ROUTINE,
        ArmRoutineConfig::from_optional(Some(true), Some(true), None),
        "test-session",
        None,
        arming(Some(automation()), Some(disarmed)),
        NOW + 9,
    )
    .expect("again");
    assert!(again.enabled);
    assert_eq!(again.consecutive_failures, 0);
    assert!(read_armed_required(ROUTINE, Ok(None)).is_err());
}

#[test]
fn intents_are_due_once_per_match() {
    let armed = arm(ArmRoutineConfig::from_optional(Some(false), Some(true), None));
    let candidate = || IntentCandidate {
        routine_id: ROUTINE.to_owned(),
        label: None,
        lifecycle: RoutineLifecycle::Confirmed,
        confidence: Real64::from_bits(0.9f64.to_bits()),
        matched_prefix_len: 1,
        total_steps: 2,
        remaining_steps: vec!["b"],
        last_matched_end_ts_ns: NOW - 3,
        evidence: (),
    };
    let params = params(ArmedRoutineTickTriggerMode::Intent);
    let due =
        due_armed_runs(&params, 0, &tick_facts(armed.clone(), vec![candidate()])).expect("due");
    assert_eq!(due.due.len(), 1);
    assert_eq!(due.due[0].trigger_kind, ArmedRoutineTriggerKind::Intent);
    assert!(due.due[0].intent.is_some());
    let (claimed, run) =
        claim_armed_run(&due.due[0], NOW, &calm(), Ok(Some(armed))).expect("claim");
    assert_eq!(run.status, ArmedRoutineRunStatus::Started);
    let again =
        due_armed_runs(&params, 0, &tick_facts(claimed, vec![candidate()])).expect("again");
    assert!(again.due.is_empty());
    let dry = dry_run_tick_run(&due.due[0]);
    assert_eq!(dry.status, ArmedRoutineRunStatus::DryRun);
    assert_eq!(dry.run_id, None);
    let shown = tick_run_from_record(&run);
    assert_eq!(shown.run_id.as_deref(), Some(run.run_id.as_str()));
}

#[test]
fn intents_are_asked_for_where_a_tick_evaluates_them() {
    assert_eq!(tick_intent_params(&params(ArmedRoutineTickTriggerMode::Schedule), 0), None);
    let asked = tick_intent_params(&params(ArmedRoutineTickTriggerMode::Both), 0).expect("asked");
    assert_eq!(asked.now_ts_ns, Some(NOW));
    assert_eq!(asked.max_candidates, Some(50));
    let asked = tick_intent_params(&ArmedRoutineTickParams::default(), 7).expect("asked");
    assert_eq!(asked.now_ts_ns, Some(7));
}

#[test]
fn success_clears_the_failures() {
    let mut armed = arm(ArmRoutineConfig::from_optional(Some(true), Some(false), Some(3)));
    armed.consecutive_failures = 2;
    let due = due_armed_runs(
        &params(ArmedRoutineTickTriggerMode::Schedule),
        0,
        &tick_facts(armed.clone(), Vec::new()),
    )
    .expect("due");
    let (claimed, run) =
        claim_armed_run(&due.due[0], NOW, &calm(), Ok(Some(armed))).expect("claim");
    let (armed, run) = complete_armed_run(
        run,
        report(ArmedRoutineRunStatus::Succeeded),
        Ok(Some(claimed)),
        NOW + 2,
    )
    .expect("complete");
    assert_eq!(armed.consecutive_failures, 0);
    assert!(armed.enabled);
    assert!(!run.disarmed_after_failure);
    assert_eq!(run.completed_ts_ns, NOW + 2);
    assert!(ArmedRoutineRunStatus::Failed.is_failure());
    assert!(!ArmedRoutineRunStatus::Succeeded.is_failure());
}

#[test]
fn writes_must_read_back() {
    let armed = arm(ArmRoutineConfig::from_optional(Some(true), Some(false), Some(1)));
    let outcome = |readback| ArmedWriteOutcome { encoded: Ok(()), stored: Ok(()), readback };
    assert_eq!(write_armed_routine_record(&armed, outcome(Ok(Some(armed.clone())))), Ok(()));
    assert!(write_armed_routine_record(&armed, outcome(Ok(None))).is_err());
    let mut other = armed.clone();
    other.updated_at_ns += 1;
    assert!(write_armed_routine_record(&armed, outcome(Ok(Some(other)))).is_err());
    assert!(write_armed_routine_record(
        &armed,
        ArmedWriteOutcome {
            encoded: Err("bad".to_owned()),
            stored: Ok(()),
            readback: Ok(Some(armed.clone())),
        }
    )
    .is_err());
    let due = due_armed_runs(
        &params(ArmedRoutineTickTriggerMode::Schedule),
        0,
        &tick_facts(armed.clone(), Vec::new()),
    )
    .expect("due");
    let claim = || {
        claim_armed_run(&due.due[0], NOW, &calm(), Ok(Some(armed.clone()))).expect("claim")
    };
    let (claimed, run) = claim();
    let write = |pressure: WritePressure| RunWriteOutcome {
        pressure,
        armed_encoded: Ok(()),
        run_encoded: Ok(()),
        stored: Ok(()),
        armed_readback: Ok(Some(claimed.clone())),
        run_readback: Ok(Some(claim().1)),
    };
    assert_eq!(write_armed_and_run_records(&claimed, &run, write(calm())), Ok(()));
    assert!(write_armed_and_run_records(
        &claimed,
        &run,
        write(WritePressure { permits_write: false, level: "critical".to_owned() })
    )
    .is_err());
    let rows = Ok(vec![StoredRow {
        key: armed_run_key(&run.run_id).into_bytes(),
        value: Ok(claim().1),
    }]);
    assert_eq!(load_armed_run(&run.run_id, rows).expect("load"), Some(run));
}

#[test]
fn keys_and_ids_name_the_routine() {
    assert_eq!(armed_routine_key("r"), "armed_routine/v1/r");
    assert_eq!(armed_run_key("x"), "armed_routine_run/v1/x");
    let schedule = armed_run_id("r", ArmedRoutineTriggerKind::Schedule, 7);
    let intent = armed_run_id("r", ArmedRoutineTriggerKind::Intent, 7);
    assert_ne!(schedule, intent);
    assert_ne!(schedule, armed_run_id("r", ArmedRoutineTriggerKind::Schedule, 8));
    assert_eq!(ArmedRoutineTriggerKind::Schedule.as_str(), "schedule");
    assert_eq!(armed_routine_tick().name, "armed_routine_tick");
    assert!(required_permissions_tick(&ArmedRoutineTickParams::default())
        .permissions
        .contains(&Permission::WriteStorage));
}

#[test]
fn clock_distances_wrap_at_midnight() {
    assert_eq!(circular_minute_distance(1439, 0), 1);
    assert_eq!(circular_minute_distance(0, 720), 720);
    assert_eq!(circular_minute_distance(10, 30), 20);
    assert!(dow_matches(&RoutineDowClass::Daily, 6));
    assert!(dow_matches(&RoutineDowClass::Weekdays, 4));
    assert!(!dow_matches(&RoutineDowClass::Weekdays, 5));
    assert!(dow_matches(&RoutineDowClass::Weekend, 5));
    assert!(dow_matches(&RoutineDowClass::Days { days: vec![1, 3] }, 3));
    assert!(!dow_matches(&RoutineDowClass::Days { days: vec![1, 3] }, 2));
    let first = weekday_for_ts(NOW).expect("weekday");
    let utc_weekday = (NOW / DAY_NS + 3) % 7;
    assert!([0, 1, 6].contains(&((u64::from(first) + 7 - utc_weekday) % 7)));
    for days in 1..7 {
        let other = weekday_for_ts(NOW + days * DAY_NS).expect("weekday");
        let utc_weekday = ((NOW + days * DAY_NS) / DAY_NS + 3) % 7;
        assert!([0, 1, 6].contains(&((u64::from(other) + 7 - utc_weekday) % 7)));
    }
    let next = weekday_for_ts(NOW + 86_400_000_000_000 * 7).expect("weekday");
    assert!(first <= 6);
    assert_eq!(first, next);
}

#[test]
fn schedules_are_due_within_their_window_only() {
    let armed = arm(ArmRoutineConfig::from_optional(Some(true), Some(false), None));
    let due_at = |minute: u64| {
        let mut params = params(ArmedRoutineTickTriggerMode::Schedule);
        params.now_ts_ns = Some(DAY + minute * 60_000_000_000);
        due_armed_runs(&params, 0, &tick_facts(armed.clone(), Vec::new())).expect("due").due.len()
    };
    assert_eq!(due_at(595), 1);
    assert_eq!(due_at(605), 1);
    assert_eq!(due_at(594), 0);
    assert_eq!(due_at(606), 0);
    let mut facts = tick_facts(armed.clone(), Vec::new());
    facts.routines[0].lifecycle = Ok(Some(RoutineLifecycle::Disabled));
    let skipped =
        due_armed_runs(&params(ArmedRoutineTickTriggerMode::Schedule), 0, &facts).expect("due");
    assert!(skipped.due.is_empty());
    assert_eq!(skipped.skipped.len(), 1);
    assert_eq!(skipped.skipped[0].routine_id, ROUTINE);
    let today = due_armed_runs_today(
        &params(ArmedRoutineTickTriggerMode::Schedule),
        0,
        tick_facts(armed, Vec::new()),
    )
    .expect("today");
    assert_eq!(today.due.len(), 1);
}

fn at_midnight(record: ArmedRoutineRecord, mean_minute_of_day: u32, day_start: u64) -> Facts {
    let mut facts = tick_facts(record, Vec::new());
    facts.routines[0].schedule = Ok(Some(RoutineSchedule {
        dow_class: RoutineDowClass::Daily,
        mean_minute_of_day,
        tolerance_minutes: 5,
    }));
    facts.calendar = calendar(day_start);
    facts
}

#[test]
fn windows_across_midnight_are_due_once() {
    let armed = arm(ArmRoutineConfig::from_optional(Some(true), Some(false), None));
    let tick = |now: u64| {
        let mut params = params(ArmedRoutineTickTriggerMode::Schedule);
        params.now_ts_ns = Some(now);
        params
    };
    for (mean, before, after) in [(0, 1438, 2), (1438, 1437, 1)] {
        let early = DAY + before * MINUTE_NS;
        let late = DAY + DAY_NS + after * MINUTE_NS;
        let due = due_armed_runs(&tick(early), 0, &at_midnight(armed.clone(), mean, DAY))
            .expect("due before midnight");
        assert_eq!(due.due.len(), 1);
        let (claimed, _) =
            claim_armed_run(&due.due[0], early, &calm(), Ok(Some(armed.clone()))).expect("claim");
        let again = due_armed_runs(&tick(late), 0, &at_midnight(claimed.clone(), mean, DAY + DAY_NS))
            .expect("after midnight");
        assert!(again.due.is_empty());

        let unclaimed =
            due_armed_runs(&tick(late), 0, &at_midnight(armed.clone(), mean, DAY + DAY_NS))
                .expect("due after midnight");
        assert_eq!(unclaimed.due.len(), 1);
        assert_eq!(unclaimed.due[0].trigger_key, due.due[0].trigger_key);

        let tomorrow = due_armed_runs(
            &tick(early + DAY_NS),
            0,
            &at_midnight(claimed, mean, DAY + DAY_NS),
        )
        .expect("due the next day");
        assert_eq!(tomorrow.due.len(), 1);
    }
}

#[test]
fn windows_need_the_day_of_their_centre() {
    let armed = arm(ArmRoutineConfig::from_optional(Some(true), Some(false), None));
    let mut params = params(ArmedRoutineTickTriggerMode::Schedule);
    params.now_ts_ns = Some(DAY + 1438 * MINUTE_NS);
    let mut facts = at_midnight(armed.clone(), 0, DAY);
    facts.calendar.next_day_start = Err(tool_error("NO_DAY"));
    assert_eq!(due_armed_runs(&params, 0, &facts).err(), Some(tool_error("NO_DAY")));
    facts.calendar = calendar(DAY);
    facts.calendar.previous_day_start = Err(tool_error("NO_DAY"));
    assert_eq!(due_armed_runs(&params, 0, &facts).expect("due").due.len(), 1);
}

#[test]
fn neighbouring_days_are_found_by_an_instant_in_them() {
    assert_eq!(instant_of_previous_day(DAY), DAY - 1);
    assert_eq!(instant_of_previous_day(0), 0);
    assert_eq!(instant_of_next_day(DAY), DAY + 36 * 60 * MINUTE_NS);
    assert_eq!(instant_of_next_day(u64::MAX), u64::MAX);
}

#[test]
fn armings_are_scanned_chunk_by_chunk() {
    let armed = arm(ArmRoutineConfig::from_optional(Some(true), Some(false), None));
    let row = |id: &str| StoredRow {
        key: armed_routine_key(id).into_bytes(),
        value: Ok(armed.clone()),
    };
    let first: Result<RowChunk<ArmedRoutineRecord>, String> =
        Ok(RowChunk { rows: vec![row("a")], more: true });
    let scan = match ArmedScan::begin().absorb(&first) {
        ArmedScanStep::Read(scan) => scan,
        ArmedScanStep::Done(done) => panic!("more rows follow: {done:?}"),
    };
    assert_eq!(scan.scanned, 1);
    let beyond = StoredRow { key: b"zzz".to_vec(), value: Err("unread".to_owned()) };
    let second = Ok(RowChunk { rows: vec![row("b"), beyond], more: true });
    match scan.absorb(&second) {
        ArmedScanStep::Done(Ok(records)) => assert_eq!(records.len(), 2),
        other => panic!("the prefix has ended: {other:?}"),
    }
    match ArmedScan::begin().absorb(&Err("io".to_owned())) {
        ArmedScanStep::Done(Err(error)) => {
            assert_eq!(error.message, "armed routine storage failure: io");
        }
        other => panic!("failure expected: {other:?}"),
    }
}

#[test]
fn claims_need_an_armed_routine_and_a_new_trigger() {
    let armed = arm(ArmRoutineConfig::from_optional(Some(true), Some(false), None));
    let due = due_armed_runs(
        &params(ArmedRoutineTickTriggerMode::Schedule),
        0,
        &tick_facts(armed.clone(), Vec::new()),
    )
    .expect("due");
    assert!(claim_armed_run(&due.due[0], NOW, &calm(), Ok(None)).is_err());
    let (claimed, _) =
        claim_armed_run(&due.due[0], NOW, &calm(), Ok(Some(armed.clone()))).expect("claim");
    assert!(claim_armed_run(&due.due[0], NOW, &calm(), Ok(Some(claimed))).is_err());
    let mut off = armed;
    off.enabled = false;
    assert!(claim_armed_run(&due.due[0], NOW, &calm(), Ok(Some(off))).is_err());
    assert_eq!(flag_object("test", true), Json::Object(vec![synapse_mcp::json::JsonEntry {
        key: "test".to_owned(),
        value: Json::Bool(true),
    }]));
}
