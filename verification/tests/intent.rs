use synapse_mcp::error::ToolError;
use synapse_mcp::ieee::Real64;
use synapse_mcp::keys::key_after;
use synapse_mcp::m3::intent::{
    begin_episodes, begin_family, current_intents, decode_routine_row, decode_state_row,
    intent_current, join_and_count, join_states, load_cf, now_context, now_context_on, plan_snapshot,
    recent_episodes, required_permissions, validate_snapshot, EpisodeRecord, FamilyChunk,
    FamilyRow, FamilyScan, FamilyStep, IntentCurrentParams, RoutineRecord, RoutineStateRecord,
    SnapshotCounts,
};
use synapse_mcp::m3::permissions::Permission;
use synapse_mcp::m3::routines::{IntentCandidate, RoutineLifecycle};

const DAY: u64 = 1_700_006_400_000_000_000;
const HOUR: u64 = 3_600_000_000_000;

fn params() -> IntentCurrentParams {
    IntentCurrentParams {
        now_ts_ns: Some(DAY + 10 * HOUR),
        lookback_hours: None,
        min_confidence: None,
        max_candidates: None,
        include_agent_activity: false,
    }
}

fn float(x: f64) -> Real64 {
    Real64::from_bits(x.to_bits())
}

fn tool_error(code: &str) -> ToolError {
    ToolError { code: code.to_owned(), message: "said".to_owned() }
}

#[test]
fn snapshots_are_planned() {
    let plan = plan_snapshot(&params(), "", 0, Ok(DAY)).expect("plan");
    assert_eq!(plan.now.ts_ns, DAY + 10 * HOUR);
    assert_eq!(plan.now.minute_of_day, 600);
    let utc_weekday = (plan.now.ts_ns / (24 * HOUR) + 3) % 7;
    let weekday = u64::from(plan.now.weekday);
    assert!([0, 1, 6].contains(&((weekday + 7 - utc_weekday) % 7)), "{weekday} {utc_weekday}");
    assert_eq!(plan.window_start_ns, DAY + 4 * HOUR);
    assert_eq!(plan.config.max_candidates, 10);
    assert_eq!(plan.config.min_combined_confidence, float(0.0));
    assert!(!plan.config.include_agent_activity);
    let mut other = params();
    other.now_ts_ns = None;
    other.lookback_hours = Some(168);
    other.min_confidence = Some(float(1.0));
    other.max_candidates = Some(50);
    other.include_agent_activity = true;
    let plan = plan_snapshot(&other, "1", 5, Ok(0)).expect("plan");
    assert_eq!(plan.now.ts_ns, 5);
    assert_eq!(plan.window_start_ns, 0);
    assert_eq!(plan.config.max_candidates, 50);
    assert!(plan.config.include_agent_activity);
}

#[test]
fn snapshots_are_refused() {
    let refused = |change: &dyn Fn(&mut IntentCurrentParams), printed: &str| {
        let mut params = params();
        change(&mut params);
        let error = validate_snapshot(&params, printed).expect_err("refused");
        assert_eq!(error.code, "TOOL_PARAMS_INVALID");
        assert_eq!(
            plan_snapshot(&params, printed, 0, Ok(DAY)).expect_err("refused"),
            error
        );
        error.message
    };
    let lookback = "intent_current lookback_hours must be between 1 and 168; got ";
    assert_eq!(refused(&|p| p.lookback_hours = Some(0), ""), format!("{lookback}0"));
    assert_eq!(refused(&|p| p.lookback_hours = Some(169), ""), format!("{lookback}169"));
    let candidates = "intent_current max_candidates must be between 1 and 50; got ";
    assert_eq!(refused(&|p| p.max_candidates = Some(0), ""), format!("{candidates}0"));
    assert_eq!(refused(&|p| p.max_candidates = Some(51), ""), format!("{candidates}51"));
    let confidence = "intent_current min_confidence must be within [0.0, 1.0]; got ";
    for x in [-0.5, 1.5, f64::NAN, f64::INFINITY] {
        let printed = format!("{x}");
        assert_eq!(
            refused(&|p| p.min_confidence = Some(float(x)), &printed),
            format!("{confidence}{printed}")
        );
    }
    let mut negative_zero = params();
    negative_zero.min_confidence = Some(float(-0.0));
    assert_eq!(validate_snapshot(&negative_zero, "-0"), Ok(()));
}

#[test]
fn instants_are_placed_in_their_day() {
    assert_eq!(now_context_on(DAY + 61_000_000_000, 3, DAY).minute_of_day, 1);
    assert_eq!(now_context_on(DAY + 25 * HOUR, 3, DAY).minute_of_day, 60);
    assert_eq!(now_context_on(DAY, 3, DAY + 1).minute_of_day, 0);
    assert_eq!(now_context_on(7, 2, 0).weekday, 2);
    let far = now_context(u64::MAX, Ok(0)).expect_err("too far");
    assert_eq!(
        far.message,
        "now_ts_ns 18446744073709551615 exceeds the representable range"
    );
    assert_eq!(now_context(DAY, Err(tool_error("X"))), Err(tool_error("X")));
}

fn episode(key_ts_ns: u64, start_ts_ns: u64) -> FamilyRow<EpisodeRecord<u8>> {
    FamilyRow {
        key: key_ts_ns.to_be_bytes().to_vec(),
        decoded: Ok(EpisodeRecord { key_ts_ns, start_ts_ns, body: 1 }),
    }
}

fn begun() -> FamilyScan<EpisodeRecord<u8>> {
    match begin_episodes(Ok(vec![0])) {
        FamilyStep::Read(scan) => scan,
        FamilyStep::Done(done) => panic!("reading expected: {done:?}"),
    }
}

#[test]
fn episodes_of_the_window_are_gathered() {
    let first = FamilyChunk {
        rows: vec![episode(5, 5), episode(10, 10), episode(20, 20)],
        more: true,
    };
    let scan = match recent_episodes(begun(), Ok(first), 10, 30) {
        FamilyStep::Read(scan) => scan,
        FamilyStep::Done(done) => panic!("more rows follow: {done:?}"),
    };
    assert_eq!(scan.scanned_rows, 3);
    assert_eq!(scan.start, key_after(&20u64.to_be_bytes()));
    let second = FamilyChunk { rows: vec![episode(30, 30), episode(31, 12)], more: true };
    match recent_episodes(scan, Ok(second), 10, 30) {
        FamilyStep::Done(Ok((episodes, scanned))) => {
            let starts: Vec<u64> = episodes.iter().map(|e| e.start_ts_ns).collect();
            assert_eq!(starts, [10, 20, 30]);
            assert_eq!(scanned, 5);
        }
        other => panic!("the window has ended: {other:?}"),
    }
}

#[test]
fn gathering_fails_loudly() {
    let bad = FamilyChunk {
        rows: vec![
            episode(10, 10),
            FamilyRow { key: vec![1], decoded: Err(tool_error("CORRUPT")) },
        ],
        more: true,
    };
    assert!(matches!(
        recent_episodes(begun(), Ok(bad), 0, 99),
        FamilyStep::Done(Err(error)) if error == tool_error("CORRUPT")
    ));
    assert!(matches!(
        recent_episodes(begun(), Err(tool_error("IO")), 0, 99),
        FamilyStep::Done(Err(error)) if error == tool_error("IO")
    ));
    assert!(matches!(
        begin_episodes::<u8>(Err(tool_error("DAY"))),
        FamilyStep::Done(Err(error)) if error == tool_error("DAY")
    ));
    match begin_family::<u8>("CF_ROUTINES", 200_000) {
        FamilyStep::Done(Err(error)) => assert_eq!(
            error.message,
            "INTENT_SCAN_BUDGET_EXHAUSTED after 200000 CF_ROUTINES rows; the store should hold \
             at most a few hundred — inspect CF_ROUTINES"
        ),
        other => panic!("the budget is spent: {other:?}"),
    }
    let mut scan = begun();
    scan.scanned_rows = 199_999;
    let more = FamilyChunk { rows: vec![episode(1, 1)], more: true };
    match recent_episodes(scan, Ok(more), 0, 99) {
        FamilyStep::Done(Err(error)) => {
            assert_eq!(error.code, "TOOL_INTERNAL_ERROR");
            assert!(error.message.contains("narrow lookback_hours"), "{}", error.message);
        }
        other => panic!("the budget is spent: {other:?}"),
    }
}

#[test]
fn families_are_read_whole() {
    let scan = match begin_family::<u8>("CF_ROUTINES", 7) {
        FamilyStep::Read(scan) => scan,
        FamilyStep::Done(done) => panic!("reading expected: {done:?}"),
    };
    let row = |byte: u8| FamilyRow { key: vec![byte], decoded: Ok(byte) };
    let first = FamilyChunk { rows: vec![row(1), row(2)], more: true };
    let scan = match load_cf(scan, "CF_ROUTINES", Ok(first)) {
        FamilyStep::Read(scan) => scan,
        FamilyStep::Done(done) => panic!("more rows follow: {done:?}"),
    };
    assert_eq!(scan.start, [2, 0]);
    match load_cf(scan, "CF_ROUTINES", Ok(FamilyChunk { rows: vec![row(3)], more: false })) {
        FamilyStep::Done(Ok((rows, scanned))) => {
            assert_eq!(rows, [1, 2, 3]);
            assert_eq!(scanned, 10);
        }
        other => panic!("the family has ended: {other:?}"),
    }
}

fn routine(version: u32, id: &str) -> RoutineRecord<u8> {
    RoutineRecord { record_version: version, routine_id: id.to_owned(), body: 4 }
}

fn state(version: u32, id: &str) -> RoutineStateRecord {
    RoutineStateRecord {
        record_version: version,
        routine_id: id.to_owned(),
        lifecycle: RoutineLifecycle::Disabled,
        label: Some("L".to_owned()),
    }
}

#[test]
fn routine_rows_are_checked() {
    let id = || Ok("r1".to_owned());
    assert_eq!(decode_routine_row(b"k", id(), Ok(routine(1, "r1"))), Ok(routine(1, "r1")));
    let refused = |key_id, value| {
        let error = decode_routine_row::<u8>(&[0xab], key_id, value).expect_err("refused");
        (error.code, error.message)
    };
    assert_eq!(
        refused(Err("short".to_owned()), Ok(routine(1, "r1"))),
        (
            "STORAGE_READ_FAILED".to_owned(),
            "ROUTINE_KEY_INVALID in CF_ROUTINES at ab: short; CF_ROUTINES is derived state — \
             re-run routine_mine"
                .to_owned()
        )
    );
    assert_eq!(
        refused(id(), Err("eof".to_owned())),
        (
            "STORAGE_CORRUPTED".to_owned(),
            "ROUTINE_ROW_DECODE_FAILED in CF_ROUTINES at r1: eof; CF_ROUTINES is derived state \
             — re-run routine_mine"
                .to_owned()
        )
    );
    assert_eq!(
        refused(id(), Ok(routine(2, "r1"))).1,
        "ROUTINE_VERSION_UNSUPPORTED in CF_ROUTINES at r1: record_version 2 (this binary \
         supports 1)"
    );
    assert_eq!(
        refused(id(), Ok(routine(1, "r2"))).1,
        "ROUTINE_ID_MISMATCH in CF_ROUTINES: row key r1 holds a record claiming routine_id r2"
    );
}

#[test]
fn state_rows_are_checked() {
    let id = || Ok("r1".to_owned());
    assert_eq!(decode_state_row(b"k", id(), Ok(state(2, "r1"))), Ok(state(2, "r1")));
    let refused = |key_id, value| {
        decode_state_row(&[0x01, 0xff], key_id, value).expect_err("refused").message
    };
    assert_eq!(
        refused(Err("short".to_owned()), Ok(state(2, "r1"))),
        "ROUTINE_STATE_KEY_INVALID in CF_ROUTINE_STATE at 01ff: short"
    );
    assert_eq!(
        refused(id(), Err("eof".to_owned())),
        "ROUTINE_STATE_ROW_DECODE_FAILED in CF_ROUTINE_STATE at r1: eof"
    );
    assert_eq!(
        refused(id(), Ok(state(1, "r1"))),
        "ROUTINE_STATE_VERSION_UNSUPPORTED in CF_ROUTINE_STATE at r1: record_version 1 (this \
         binary supports 2)"
    );
    assert_eq!(
        refused(id(), Ok(state(2, "r2"))),
        "ROUTINE_STATE_ID_MISMATCH in CF_ROUTINE_STATE: row key r1 holds a record claiming \
         routine_id r2"
    );
}

#[test]
fn states_are_joined_to_their_routines() {
    let mut last = state(2, "r1");
    last.lifecycle = RoutineLifecycle::Archived;
    last.label = None;
    let joined = join_states(
        vec![routine(1, "r1"), routine(1, "r2")],
        &vec![state(2, "r1"), last],
    );
    assert_eq!(joined.len(), 2);
    assert_eq!(joined[0].lifecycle, RoutineLifecycle::Archived);
    assert_eq!(joined[0].label, None);
    assert_eq!(joined[1].lifecycle, RoutineLifecycle::Candidate);
    assert_eq!(joined[1].label, None);
    assert_eq!(joined[1].record, routine(1, "r2"));
    let labelled = join_states(vec![routine(1, "r1")], &vec![state(2, "r1")]);
    assert_eq!(labelled[0].label.as_deref(), Some("L"));
}

#[test]
fn what_was_read_is_counted() {
    let episodes = vec![
        EpisodeRecord { key_ts_ns: 1, start_ts_ns: 1, body: 1 },
        EpisodeRecord { key_ts_ns: 2, start_ts_ns: 2, body: 2 },
    ];
    let states = vec![state(1, "r1"), state(2, "r1"), state(3, "r9")];
    let (joined, counts) = join_and_count(vec![routine(1, "r1")], &states, &episodes, 6);
    assert_eq!(joined[0].record, routine(1, "r1"));
    assert_eq!(
        counts,
        SnapshotCounts {
            mined_routines: 1,
            state_rows: 3,
            evaluated_routines: 1,
            considered_episodes: 2,
            scanned_rows: 6,
        }
    );
}

#[test]
fn answers_echo_the_counts() {
    let plan = plan_snapshot(&params(), "", 0, Ok(DAY)).expect("plan");
    let counts = SnapshotCounts {
        mined_routines: 1,
        state_rows: 2,
        evaluated_routines: 3,
        considered_episodes: 4,
        scanned_rows: 5,
    };
    let candidate = IntentCandidate {
        routine_id: "r1".to_owned(),
        label: None,
        lifecycle: RoutineLifecycle::Confirmed,
        confidence: float(0.5),
        matched_prefix_len: 1,
        total_steps: 2,
        remaining_steps: vec!["open mail"],
        last_matched_end_ts_ns: 9,
        evidence: 7,
    };
    let answer = current_intents(&plan, &counts, Ok(vec![candidate])).expect("answer");
    assert_eq!(answer.candidates.len(), 1);
    assert_eq!(answer.candidates[0].remaining_steps, ["open mail"]);
    assert_eq!(answer.candidates[0].evidence, 7);
    assert_eq!(answer.now, plan.now);
    assert_eq!(answer.window_start_ns, plan.window_start_ns);
    assert_eq!(
        (
            answer.total_mined_routines,
            answer.total_state_rows,
            answer.evaluated_routines,
            answer.considered_episodes,
            answer.scanned_rows
        ),
        (1, 2, 3, 4, 5)
    );
    let failed = current_intents::<&str, i32>(&plan, &counts, Err("odd".to_owned()))
        .expect_err("failed");
    assert_eq!(failed.code, "TOOL_INTERNAL_ERROR");
    assert_eq!(failed.message, "intent_current matcher failed: odd");
    assert_eq!(intent_current().name, "intent_current");
    assert_eq!(required_permissions(&params()).permissions, [Permission::ReadStorage]);
}
