use synapse_mcp::clock::{clock_secs, MAX_CLOCK_SECS};
use synapse_mcp::error::ToolError;
use synapse_mcp::ieee::Real64;
use synapse_mcp::keys::StoredRow;
use synapse_mcp::m3::permissions::Permission;
use synapse_mcp::m3::routines::{IntentCandidate, RoutineFeedbackOutcome, RoutineLifecycle};
use synapse_mcp::m3::suggestions::{
    begin_suggestion_tick, build_aggregates, build_suggestion, check_tick_pressure,
    confirm_suggestion_write, echo_config, gate_decision, in_quiet_hours, is_routine_suppressed,
    list_suggestions, load_all_suggestions, local_minute_of_day, required_permissions_list,
    required_permissions_tick, settle_suggestions, suggestion_key, suggestion_tick, tick_instant,
    tick_intent_params,
    write_suggestion, GateOutcome, SuggestionAggregates, SuggestionConfig, SuggestionListParams,
    SuggestionRecord, SuggestionSettings, SuggestionStatus, SuggestionTickParams, SuggestionWrite,
    TickClock, TickEffect,
};

const T: u64 = 1_000_000_000_000_000_000;

fn float(value: f64) -> Real64 {
    Real64::from_bits(value.to_bits())
}

fn config() -> SuggestionConfig {
    SuggestionConfig {
        min_confidence: float(0.6),
        expiry_secs: 600,
        global_max: 3,
        global_window_secs: 3_600,
        per_routine_window_secs: 14_400,
        quiet_hours: None,
    }
}

fn gate(
    routine_id: &str,
    confidence: f64,
    lifecycle: RoutineLifecycle,
    suppressed: bool,
    minute: Option<u32>,
    aggregates: &SuggestionAggregates,
    config: &SuggestionConfig,
) -> GateOutcome {
    gate_decision(
        routine_id,
        float(confidence),
        lifecycle,
        suppressed,
        T,
        minute,
        aggregates,
        config,
    )
}

#[test]
fn gate_blocks_below_threshold_disabled_and_suppressed() {
    let agg = SuggestionAggregates::default();
    let c = config();
    let confirmed = RoutineLifecycle::Confirmed;
    // Below threshold.
    assert_eq!(
        gate("rt1-a", 0.59, confirmed, false, Some(600), &agg, &c),
        GateOutcome::BelowThreshold
    );
    // Disabled routine never surfaces, even at high confidence.
    assert_eq!(
        gate("rt1-a", 0.99, RoutineLifecycle::Disabled, false, Some(600), &agg, &c),
        GateOutcome::DisabledRoutine
    );
    // Feedback cooldown suppresses.
    assert_eq!(
        gate("rt1-a", 0.99, confirmed, true, Some(600), &agg, &c),
        GateOutcome::SuppressedCooldown
    );
    // Clean pass.
    assert_eq!(
        gate("rt1-a", 0.99, confirmed, false, Some(600), &agg, &c),
        GateOutcome::Surface
    );
}

#[test]
fn gate_enforces_dedup_per_routine_and_global_caps() {
    let c = config();
    let confirmed = RoutineLifecycle::Confirmed;
    // One live suggestion for the routine -> duplicate.
    let mut agg = SuggestionAggregates::default();
    agg.live_routines.insert("rt1-a".to_owned());
    assert_eq!(
        gate("rt1-a", 0.99, confirmed, false, None, &agg, &c),
        GateOutcome::DuplicateLive
    );
    // Recent (non-live) suggestion for the routine within the window -> cap.
    let mut agg = SuggestionAggregates::default();
    agg.last_created_by_routine.insert("rt1-a".to_owned(), T - 1_000_000_000); // 1s ago, window 4h
    assert_eq!(
        gate("rt1-a", 0.99, confirmed, false, None, &agg, &c),
        GateOutcome::PerRoutineCap
    );
    // Outside the per-routine window -> allowed (only global applies).
    let mut agg = SuggestionAggregates::default();
    agg.last_created_by_routine.insert("rt1-a".to_owned(), T - 20_000 * 1_000_000_000); // >4h ago
    assert_eq!(
        gate("rt1-a", 0.99, confirmed, false, None, &agg, &c),
        GateOutcome::Surface
    );
    // Global cap: 3 created within the window -> next is blocked.
    let mut agg = SuggestionAggregates::default();
    agg.created_ts = vec![T - 1, T - 2, T - 3];
    assert_eq!(
        gate("rt1-b", 0.99, confirmed, false, None, &agg, &c),
        GateOutcome::GlobalCap
    );
    // Old creations fall out of the window -> allowed again.
    let mut agg = SuggestionAggregates::default();
    agg.created_ts = vec![T - 5_000 * 1_000_000_000; 3];
    assert_eq!(
        gate("rt1-b", 0.99, confirmed, false, None, &agg, &c),
        GateOutcome::Surface
    );
}

#[test]
fn quiet_hours_block_including_wraparound() {
    let mut c = config();
    c.quiet_hours = Some((1320, 420)); // 22:00–07:00 wrap
    let agg = SuggestionAggregates::default();
    let confirmed = RoutineLifecycle::Confirmed;
    // 23:00 -> quiet.
    assert_eq!(
        gate("rt1-a", 0.99, confirmed, false, Some(1380), &agg, &c),
        GateOutcome::QuietHours
    );
    // 03:00 -> quiet (wrap).
    assert_eq!(
        gate("rt1-a", 0.99, confirmed, false, Some(180), &agg, &c),
        GateOutcome::QuietHours
    );
    // 12:00 -> awake.
    assert_eq!(
        gate("rt1-a", 0.99, confirmed, false, Some(720), &agg, &c),
        GateOutcome::Surface
    );
}

#[test]
fn quiet_hours_end_before_their_last_minute() {
    assert!(in_quiet_hours(60, Some((60, 120))));
    assert!(in_quiet_hours(119, Some((60, 120))));
    assert!(!in_quiet_hours(120, Some((60, 120))));
    assert!(!in_quiet_hours(100, Some((100, 100))));
    assert!(!in_quiet_hours(100, None));
}

fn settings() -> SuggestionSettings {
    SuggestionSettings {
        min_confidence: None,
        expiry_secs: None,
        global_max: None,
        global_window_secs: None,
        per_routine_window_secs: None,
        quiet_start_min: None,
        quiet_end_min: None,
    }
}

#[test]
fn settings_fall_back_to_their_defaults() {
    let default = SuggestionConfig::from_settings(&settings());
    assert_eq!(default.min_confidence, float(0.6));
    assert_eq!(default.expiry_secs, 600);
    assert_eq!(default.global_max, 5);
    assert_eq!(default.global_window_secs, 3_600);
    assert_eq!(default.per_routine_window_secs, 14_400);
    assert_eq!(default.quiet_hours, None);
    let set = SuggestionConfig::from_settings(&SuggestionSettings {
        min_confidence: Some(float(0.25)),
        expiry_secs: Some("30".to_owned()),
        global_max: Some("4294967296".to_owned()),
        global_window_secs: Some(" 7".to_owned()),
        per_routine_window_secs: Some("0".to_owned()),
        quiet_start_min: Some("1439".to_owned()),
        quiet_end_min: Some("0".to_owned()),
    });
    assert_eq!(set.min_confidence, float(0.25));
    assert_eq!(set.expiry_secs, 30);
    assert_eq!(set.global_max, 5);
    assert_eq!(set.global_window_secs, 3_600);
    assert_eq!(set.per_routine_window_secs, 0);
    assert_eq!(set.quiet_hours, Some((1439, 0)));
    let late = SuggestionConfig::from_settings(&SuggestionSettings {
        quiet_start_min: Some("1440".to_owned()),
        quiet_end_min: Some("0".to_owned()),
        ..settings()
    });
    assert_eq!(late.quiet_hours, None);
    let echo = echo_config(&set);
    assert_eq!(echo.quiet_hours, Some([1439, 0]));
    assert_eq!(echo.expiry_secs, 30);
}

type Candidate = IntentCandidate<&'static str, ()>;

fn candidate(routine_id: &str, confidence: f64) -> Candidate {
    IntentCandidate {
        routine_id: routine_id.to_owned(),
        label: Some("Morning".to_owned()),
        lifecycle: RoutineLifecycle::Confirmed,
        confidence: float(confidence),
        matched_prefix_len: 2,
        total_steps: 5,
        remaining_steps: vec!["c", "d", "e"],
        last_matched_end_ts_ns: T - 1,
        evidence: (),
    }
}

fn live(routine_id: &str, created_ts_ns: u64) -> SuggestionRecord {
    let mut record = build_suggestion(&candidate(routine_id, 0.9), created_ts_ns, &config());
    record.label = None;
    record
}

#[test]
fn suggestions_are_built_from_candidates() {
    let record = build_suggestion(&candidate("rt1-a", 0.9), T, &config());
    assert_eq!(record.record_version, 1);
    assert_eq!(record.routine_id, "rt1-a");
    assert_eq!(record.label.as_deref(), Some("Morning"));
    assert_eq!(record.created_ts_ns, T);
    assert_eq!(record.expiry_ts_ns, T + 600 * 1_000_000_000);
    assert_eq!(record.status, SuggestionStatus::Live);
    assert_eq!(record.matched_prefix_len, 2);
    assert_eq!(record.total_steps, 5);
    assert_eq!(record.remaining_step_count, 3);
    assert_eq!(record.resolved_ts_ns, None);
    let key = String::from_utf8(suggestion_key("rt1-a", 42)).expect("utf-8");
    assert_eq!(key, "suggestion/v1/rt1-a/00000000000000000042");
}

#[test]
fn live_suggestions_expire_or_are_abandoned() {
    let now = T + 1;
    let mut expired = live("rt1-old", T - 700 * 1_000_000_000);
    expired.expiry_ts_ns = T;
    let kept = live("rt1-a", T);
    let gone = live("rt1-gone", T);
    let mut done = live("rt1-done", T);
    done.status = SuggestionStatus::Accepted;
    let settled = settle_suggestions(
        vec![expired, kept, gone, done],
        &vec![candidate("rt1-a", 0.9)],
        now,
        false,
    );
    assert_eq!(settled.expired.len(), 1);
    assert_eq!(settled.abandoned.len(), 1);
    let statuses: Vec<SuggestionStatus> =
        settled.suggestions.iter().map(|record| record.status).collect();
    assert_eq!(
        statuses,
        [
            SuggestionStatus::Expired,
            SuggestionStatus::Live,
            SuggestionStatus::Abandoned,
            SuggestionStatus::Accepted,
        ]
    );
    assert_eq!(settled.suggestions[0].resolved_ts_ns, Some(now));
    let feedback: Vec<(String, RoutineFeedbackOutcome)> = settled
        .effects
        .iter()
        .filter_map(|effect| match effect {
            TickEffect::Feedback(feedback) => {
                Some((feedback.routine_id.clone(), feedback.outcome))
            }
            TickEffect::Write(_) => None,
        })
        .collect();
    assert_eq!(
        feedback,
        [
            ("rt1-old".to_owned(), RoutineFeedbackOutcome::IgnoredTimeout),
            ("rt1-gone".to_owned(), RoutineFeedbackOutcome::Abandoned),
        ]
    );
    let dry = settle_suggestions(vec![live("rt1-gone", T)], &Vec::<Candidate>::new(), now, true);
    assert!(dry.effects.is_empty());
    assert_eq!(dry.abandoned.len(), 1);
}

#[test]
fn ticks_surface_candidates_once_and_stop_at_the_cap() {
    let candidates: Vec<Candidate> =
        ["rt1-a", "rt1-b", "rt1-c", "rt1-d", "rt1-a"].iter().map(|id| candidate(id, 0.9)).collect();
    let settled = settle_suggestions(Vec::new(), &candidates, T, false);
    let suppressed: Vec<Result<bool, ToolError>> = candidates.iter().map(|_| Ok(false)).collect();
    let clock = TickClock { now_ts_ns: T, minute_of_day: Some(600), dry_run: false };
    let plan = suggestion_tick(settled, &candidates, &suppressed, clock, &config());
    let response = plan.outcome.expect("tick");
    let outcomes: Vec<GateOutcome> =
        response.decisions.iter().map(|decision| decision.outcome).collect();
    assert_eq!(
        outcomes,
        [
            GateOutcome::Surface,
            GateOutcome::Surface,
            GateOutcome::Surface,
            GateOutcome::GlobalCap,
            GateOutcome::DuplicateLive,
        ]
    );
    assert_eq!(response.created.len(), 3);
    assert_eq!(response.candidates_evaluated, 5);
    assert_eq!(plan.effects.len(), 3);
    assert!(matches!(
        &plan.effects[2],
        TickEffect::Write(record) if record.routine_id == "rt1-c" && record.created_ts_ns == T
    ));
    assert_eq!(response.config, echo_config(&config()));

    let settled = settle_suggestions(Vec::new(), &candidates, T, true);
    let dry = TickClock { dry_run: true, ..clock };
    let plan = suggestion_tick(settled, &candidates, &suppressed, dry, &config());
    assert!(plan.effects.is_empty());
    assert!(plan.outcome.expect("dry").dry_run);
}

#[test]
fn ticks_end_at_a_cooldown_that_cannot_be_read() {
    let candidates = vec![candidate("rt1-a", 0.9), candidate("rt1-b", 0.9)];
    let settled = settle_suggestions(Vec::new(), &candidates, T, false);
    let error = || ToolError { code: "STORAGE".to_owned(), message: "gone".to_owned() };
    let suppressed = vec![Ok(true), Err(error())];
    let clock = TickClock { now_ts_ns: T, minute_of_day: None, dry_run: false };
    let plan = suggestion_tick(settled, &candidates, &suppressed, clock, &config());
    assert_eq!(plan.outcome, Err(error()));
    assert_eq!(is_routine_suppressed(Ok(None)), Ok(false));
    assert_eq!(is_routine_suppressed(Ok(Some(true))), Ok(true));
    assert_eq!(is_routine_suppressed(Err(error())), Err(error()));
}

#[test]
fn ticks_begin_with_pressure_intents_and_rows() {
    let intents = || Ok(vec![candidate("rt1-a", 0.9)]);
    let rows = || {
        Ok(vec![StoredRow { key: b"k".to_vec(), value: Ok(live("rt1-a", T)) }])
    };
    let refused = begin_suggestion_tick(T, false, false, "critical", &intents(), &rows())
        .expect_err("pressure");
    assert_eq!(
        refused.message,
        "suggestion_tick refused under disk pressure: pressure_level=critical"
    );
    assert_eq!(refused.code, "STORAGE_WRITE_FAILED");
    assert!(begin_suggestion_tick(T, true, false, "critical", &intents(), &rows()).is_ok());
    assert!(check_tick_pressure(true, "normal", false).is_ok());
    let error = || ToolError { code: "INTENT".to_owned(), message: "none".to_owned() };
    assert_eq!(
        begin_suggestion_tick::<&str, ()>(T, false, true, "normal", &Err(error()), &rows())
            .expect_err("intents"),
        error()
    );
    assert!(begin_suggestion_tick(T, false, true, "normal", &intents(), &Err("io".to_owned()))
        .is_err());
    let settled =
        begin_suggestion_tick(T, false, true, "normal", &intents(), &rows()).expect("settled");
    assert_eq!(settled.suggestions.len(), 1);
}

#[test]
fn undecodable_suggestions_are_reported_with_their_key() {
    let rows = Ok(vec![
        StoredRow { key: b"suggestion/v1/a".to_vec(), value: Ok(live("rt1-a", T)) },
        StoredRow { key: b"bad\xffkey".to_vec(), value: Err("eof".to_owned()) },
    ]);
    let error = load_all_suggestions(&rows).expect_err("corrupt");
    assert_eq!(error.code, "STORAGE_CORRUPTED");
    assert!(error.message.contains("bad\u{fffd}key"), "{}", error.message);
    assert!(error.message.contains("eof"));
}

#[test]
fn written_suggestions_must_read_back() {
    let record = live("rt1-a", T);
    let found = |value: Result<SuggestionRecord, String>| {
        Ok(vec![StoredRow { key: suggestion_key("rt1-a", T), value }])
    };
    assert_eq!(confirm_suggestion_write(&record, &found(Ok(record.clone()))), Ok(()));
    let mut other = record.clone();
    other.total_steps = 99;
    let mismatch = confirm_suggestion_write(&record, &found(Ok(other))).expect_err("mismatch");
    assert!(mismatch.message.starts_with("SUGGESTION_READBACK_MISMATCH for "));
    let missing = confirm_suggestion_write(&record, &Ok(Vec::new())).expect_err("missing");
    assert!(missing.message.starts_with("SUGGESTION_READBACK_MISSING: row for "));
    let write = |encoded: Result<(), String>, stored: Result<(), String>| SuggestionWrite {
        encoded,
        stored,
        found: found(Ok(record.clone())),
    };
    assert_eq!(write_suggestion(&record, &write(Ok(()), Ok(()))), Ok(()));
    let id = record.suggestion_id.clone();
    let error = write_suggestion(&record, &write(Err("bad".to_owned()), Ok(()))).expect_err("enc");
    assert_eq!(error.message, format!("failed to encode suggestion {id}: bad"));
    let error = write_suggestion(&record, &write(Ok(()), Err("full".to_owned()))).expect_err("put");
    assert_eq!(error.message, format!("failed to persist suggestion {id}: full"));
    assert_eq!(error.code, "STORAGE_WRITE_FAILED");
}

#[test]
fn aggregates_see_live_routines_and_creations() {
    let mut old = live("rt1-a", T - 5);
    old.status = SuggestionStatus::Expired;
    let aggregates = build_aggregates(&vec![old, live("rt1-b", T), live("rt1-a", T - 9)]);
    assert!(aggregates.live_routines.contains("rt1-a"));
    assert!(aggregates.live_routines.contains("rt1-b"));
    assert!(!aggregates.live_routines.contains("rt1-c"));
    assert_eq!(aggregates.last_created_by_routine.get("rt1-a"), Some(T - 5));
    assert_eq!(aggregates.created_ts, [T - 5, T, T - 9]);
}

#[test]
fn lists_are_filtered_and_newest_first() {
    let mut done = live("rt1-a", T + 2);
    done.status = SuggestionStatus::Declined;
    let row = |record: SuggestionRecord| StoredRow {
        key: suggestion_key(&record.routine_id, record.created_ts_ns),
        value: Ok(record),
    };
    let all = Ok(vec![
        row(live("rt1-a", T)),
        row(live("rt1-b", T + 1)),
        row(done),
        row(live("rt1-a", T + 3)),
    ]);
    let created = |params: &SuggestionListParams| -> Vec<u64> {
        let listing = list_suggestions(&all, params).expect("listing");
        listing.suggestions.iter().map(|r| r.created_ts_ns).collect()
    };
    assert_eq!(created(&SuggestionListParams::default()), [T + 3, T + 2, T + 1, T]);
    assert_eq!(
        created(&SuggestionListParams {
            status: Some(SuggestionStatus::Live),
            routine_id: Some("rt1-a".to_owned()),
            limit: Some(1),
        }),
        [T + 3]
    );
    let response = list_suggestions(&all, &SuggestionListParams::default()).expect("listing");
    assert_eq!(response.total_rows, 4);
    assert_eq!(response.returned, 4);
    let broken = Ok(vec![StoredRow { key: b"k\xff".to_vec(), value: Err("eof".to_owned()) }]);
    assert_eq!(
        list_suggestions(&broken, &SuggestionListParams::default()).expect_err("broken").message,
        "SUGGESTION_ROW_DECODE_FAILED in CF_KV at k\u{fffd}: eof"
    );
    assert_eq!(
        list_suggestions(&Err("io".to_owned()), &SuggestionListParams::default())
            .expect_err("unread")
            .message,
        "suggestion engine storage failure: io"
    );
}

#[test]
fn suggestion_clock_and_permissions() {
    let params = |now_ts_ns| SuggestionTickParams { now_ts_ns, lookback_hours: None, dry_run: false };
    assert_eq!(tick_instant(&params(Some(5)), 9), 5);
    assert_eq!(tick_instant(&params(None), 9), 9);
    let asked = tick_intent_params(&SuggestionTickParams::default(), 9);
    assert_eq!(asked.now_ts_ns, Some(9));
    assert_eq!(asked.max_candidates, Some(50));
    assert_eq!(asked.min_confidence.map(|c| c.bits), Some(0.0f64.to_bits()));
    assert!(required_permissions_tick(&params(None)).permissions.contains(&Permission::WriteStorage));
    assert!(!required_permissions_list(&SuggestionListParams::default())
        .permissions
        .contains(&Permission::WriteStorage));
    assert_eq!(clock_secs(1_999_999_999), 1);
    assert_eq!(clock_secs(u64::MAX), MAX_CLOCK_SECS);
    let minute = local_minute_of_day(T).expect("a local minute");
    assert!(minute < 1440);
    let later = local_minute_of_day(T + 60_000_000_000).expect("a local minute");
    assert_eq!((minute + 1) % 1440, later);
}
