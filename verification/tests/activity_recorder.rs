use synapse_mcp::json::{Json, JsonNumber};
use synapse_mcp::m3::activity_recorder::{
    classify_foreground_transition, current_actor, idle_transition, pause_flushed,
    pause_recording, pause_written, resolve_foreground_trigger, resume_recording, resume_written,
    AccessibleStep, ActivityRecorder, ForegroundReading, ForegroundSnapshot, ForegroundTransition,
    IdleEdge, IdleProbeStep, IdleTimeoutSetting, LeaseStatus, PauseStep, RecorderConfig, RecorderConfigError,
    RecorderControlOutcome, RecorderFailure, ResumeStep, RowStamp, SessionEndEdge, ShutdownStep,
    SpawnStep, SuppressReason, TriggerReadings, WindowEventKind,
};
use synapse_mcp::m3::timeline::{TimelineActor, TimelineKind, TimelineRecord};

fn snapshot(hwnd: i64, pid: u32, title: &str) -> ForegroundSnapshot {
    ForegroundSnapshot {
        hwnd,
        pid,
        process_name: "test.exe".to_owned(),
        process_path: r"C:\test.exe".to_owned(),
        title: title.to_owned(),
    }
}

#[test]
fn config_defaults_match_activitywatch_prior_art() {
    let config = RecorderConfig::from_raw(None).unwrap_or_else(|error| panic!("{}", error.message()));
    assert_eq!(config.idle_timeout_ms, 180_000);
    assert_eq!(config.idle_poll_interval_ms, 5_000);
}

#[test]
fn config_short_timeout_derives_proportional_poll() {
    let config =
        RecorderConfig::from_raw(Some("2000")).unwrap_or_else(|error| panic!("{}", error.message()));
    assert_eq!(config.idle_timeout_ms, 2_000);
    assert_eq!(config.idle_poll_interval_ms, 500);
}

#[test]
fn settings_that_are_no_text_are_refused() {
    let config = RecorderConfig::from_setting(&IdleTimeoutSetting::NotPresent).expect("default");
    assert_eq!(config.idle_timeout_ms, 180_000);
    let config = RecorderConfig::from_setting(&IdleTimeoutSetting::Value(" 2000 ".to_owned()))
        .expect("value");
    assert_eq!(config.idle_timeout_ms, 2_000);
    match RecorderConfig::from_setting(&IdleTimeoutSetting::NotUnicode("2\u{fffd}".to_owned())) {
        Err(RecorderConfigError::NotAnInteger { value }) => assert_eq!(value, "2\u{fffd}"),
        other => panic!("refusal expected: {other:?}"),
    }
}

#[test]
fn config_rejects_zero_and_garbage() {
    assert!(RecorderConfig::from_raw(Some("0")).is_err(), "0 must be rejected");
    assert!(RecorderConfig::from_raw(Some("fast")).is_err(), "non-numeric must be rejected");
    assert!(RecorderConfig::from_raw(Some("")).is_err(), "empty string must be rejected");
}

#[test]
fn foreground_transitions_classify_switch_title_duplicate() {
    let first = snapshot(100, 7, "Inbox");
    assert_eq!(
        classify_foreground_transition(None, &first),
        ForegroundTransition::Switched,
        "first foreground must be a switch"
    );
    assert_eq!(
        classify_foreground_transition(Some(&first), &snapshot(100, 7, "Inbox")),
        ForegroundTransition::Duplicate,
        "identical foreground must not produce a row"
    );
    assert_eq!(
        classify_foreground_transition(Some(&first), &snapshot(100, 7, "Drafts")),
        ForegroundTransition::TitleChanged,
        "same window with new title is a title change"
    );
    assert_eq!(
        classify_foreground_transition(Some(&first), &snapshot(200, 7, "Inbox")),
        ForegroundTransition::Switched,
        "new hwnd is a switch even with identical title"
    );
    assert_eq!(
        classify_foreground_transition(Some(&first), &snapshot(100, 8, "Inbox")),
        ForegroundTransition::Switched,
        "hwnd reuse by a different pid is a switch"
    );
}

#[test]
fn idle_transitions_fire_exactly_on_edges() {
    assert_eq!(idle_transition(false, 179_999, 180_000), None, "below threshold");
    assert_eq!(
        idle_transition(false, 180_000, 180_000),
        Some(IdleEdge::Start),
        "threshold is inclusive"
    );
    assert_eq!(idle_transition(true, 200_000, 180_000), None, "still idle");
    assert_eq!(
        idle_transition(true, 1_000, 180_000),
        Some(IdleEdge::End),
        "input resumption ends idle"
    );
    assert_eq!(idle_transition(false, 0, 180_000), None, "active stays active");
}

fn reading(hwnd: i64, title: &str) -> ForegroundReading {
    ForegroundReading {
        hwnd,
        pid: 7,
        process_name: "test.exe".to_owned(),
        process_path: r"C:\test.exe".to_owned(),
        window_title: title.to_owned(),
    }
}

fn stamp(now_ts_ns: u64) -> RowStamp {
    RowStamp { now_ts_ns, actor: TimelineActor::Human }
}

fn recorder() -> ActivityRecorder {
    ActivityRecorder::new(RecorderConfig { idle_timeout_ms: 1_000, idle_poll_interval_ms: 250 })
}

fn field<'a>(row: &'a TimelineRecord, name: &str) -> &'a Json {
    match &row.payload {
        Json::Object(entries) => {
            &entries.iter().find(|entry| entry.key == name).expect("field").value
        }
        other => panic!("object expected: {other:?}"),
    }
}

fn text(s: &str) -> Json {
    Json::Text(s.to_owned())
}

fn number(n: u64) -> Json {
    Json::Number(JsonNumber::Unsigned(n))
}

#[test]
fn config_errors_say_what_was_set() {
    assert_eq!(RecorderConfig::from_raw(Some(" 0 ")), Err(RecorderConfigError::Zero));
    let error = RecorderConfig::from_raw(Some("1e3")).expect_err("refused");
    assert!(error.message().contains("1e3"), "{}", error.message());
    let tiny = RecorderConfig::from_raw(Some("100")).expect("config");
    assert_eq!(tiny.idle_poll_interval_ms, 100);
}

#[test]
fn foreground_rows_are_written_once() {
    let mut recorder = recorder();
    let row = recorder
        .apply_foreground(&reading(1, "Inbox"), "event", None, stamp(5))
        .expect("switch");
    assert_eq!(row.kind, TimelineKind::FocusChange);
    assert_eq!(row.ts_ns, 5);
    assert_eq!(row.app.as_deref(), Some("test.exe"));
    assert_eq!(field(&row, "title"), &text("Inbox"));
    assert_eq!(field(&row, "source"), &text("event"));
    assert_eq!(field(&row, "hwnd"), &number(1));
    assert!(recorder
        .apply_foreground(&reading(1, "Inbox"), "poll", None, stamp(6))
        .is_none());
    let row = recorder
        .apply_foreground(&reading(1, "Drafts"), "event", None, stamp(7))
        .expect("title");
    assert_eq!(row.kind, TimelineKind::TitleChange);
    assert_eq!(field(&row, "previous_title"), &text("Inbox"));
}

#[test]
fn excluded_apps_leave_the_baseline() {
    let mut recorder = recorder();
    recorder.apply_foreground(&reading(1, "A"), "event", None, stamp(1));
    let excluded = Some(SuppressReason::ExcludedApp);
    assert!(recorder
        .apply_foreground(&reading(2, "B"), "event", excluded, stamp(2))
        .is_none());
    assert_eq!(recorder.suppressed_counters(), (0, 1));
    assert!(recorder
        .apply_foreground(&reading(1, "A"), "event", None, stamp(3))
        .is_none());
    assert!(recorder
        .apply_foreground(&reading(2, "B"), "event", None, stamp(4))
        .is_some());
}

#[test]
fn paused_recorders_perceive_nothing() {
    let mut recorder = recorder();
    recorder.apply_foreground(&reading(1, "A"), "event", None, stamp(1));
    assert_eq!(
        recorder.handle_accessible(WindowEventKind::ForegroundChanged, 2, true),
        AccessibleStep::Nothing
    );
    assert_eq!(recorder.foreground, None);
    assert_eq!(recorder.suppressed_counters(), (1, 0));
    assert!(recorder
        .apply_foreground(&reading(1, "A"), "event", None, stamp(2))
        .is_some());
    assert_eq!(
        recorder.handle_accessible(WindowEventKind::ForegroundChanged, 2, false),
        AccessibleStep::ResolveForeground(2)
    );
    assert_eq!(
        recorder.handle_accessible(WindowEventKind::NameChanged, 1, false),
        AccessibleStep::ReadTitle(1)
    );
    assert_eq!(
        recorder.handle_accessible(WindowEventKind::NameChanged, 2, false),
        AccessibleStep::Nothing
    );
    assert_eq!(
        recorder.handle_accessible(WindowEventKind::Other, 1, false),
        AccessibleStep::Nothing
    );
    assert_eq!(recorder.begin_idle_probe(false, true), IdleProbeStep::Reconcile);
    assert!(recorder.foreground.is_some());
    assert_eq!(recorder.begin_idle_probe(true, false), IdleProbeStep::Stop);
    assert_eq!(recorder.begin_idle_probe(true, true), IdleProbeStep::Resume);
    assert_eq!(recorder.foreground, None);
}

#[test]
fn titles_are_recorded_when_they_change() {
    let mut recorder = recorder();
    assert!(recorder.handle_name_change(Some(&reading(1, "A")), None, stamp(1)).is_none());
    recorder.apply_foreground(&reading(1, "A"), "event", None, stamp(1));
    assert!(recorder.handle_name_change(Some(&reading(1, "A")), None, stamp(2)).is_none());
    assert!(recorder.handle_name_change(None, None, stamp(2)).is_none());
    let row = recorder.handle_name_change(Some(&reading(1, "B")), None, stamp(3)).expect("row");
    assert_eq!(row.kind, TimelineKind::TitleChange);
    assert_eq!(field(&row, "previous_title"), &text("A"));
}

#[test]
fn idle_rows_are_dated_back() {
    let mut recorder = recorder();
    assert!(recorder.handle_idle_probe(999, None, 5_000_000_000).is_none());
    let row = recorder.handle_idle_probe(1_500, None, 5_000_000_000).expect("start");
    assert_eq!(row.kind, TimelineKind::IdleStart);
    assert_eq!(row.ts_ns, 3_500_000_000);
    assert_eq!(field(&row, "idle_timeout_ms"), &number(1_000));
    assert!(recorder.handle_idle_probe(2_000, None, 6_000_000_000).is_none());
    let row = recorder.handle_idle_probe(10, None, 7_000_000_000).expect("end");
    assert_eq!(row.kind, TimelineKind::IdleEnd);
    assert_eq!(row.ts_ns, 6_990_000_000);
    let row = recorder.handle_idle_probe(u64::MAX, None, 7).expect("start");
    assert_eq!(row.ts_ns, 0);
}

#[test]
fn events_are_triggers_and_the_foreground_is_the_truth() {
    let readings = |event_visible, event_window, current_visible| TriggerReadings {
        event_visible,
        event_window,
        current: Some(reading(9, "real")),
        current_visible,
    };
    let title = |readings| resolve_foreground_trigger(readings).map(|r| r.window_title);
    assert_eq!(
        title(readings(Some(true), Some(reading(1, "event")), Some(true))).as_deref(),
        Some("event")
    );
    assert_eq!(
        title(readings(Some(false), Some(reading(1, "event")), Some(true))).as_deref(),
        Some("real")
    );
    assert_eq!(title(readings(Some(true), None, Some(true))).as_deref(), Some("real"));
    assert_eq!(title(readings(None, None, Some(false))), None);
    let mut recorder = recorder();
    assert!(recorder
        .reconcile_foreground(Some(&reading(1, "A")), Some(false), None, stamp(1))
        .is_none());
    let row = recorder
        .reconcile_foreground(Some(&reading(1, "A")), Some(true), None, stamp(1))
        .expect("row");
    assert_eq!(field(&row, "source"), &text("poll"));
}

#[test]
fn rows_are_attributed_to_the_lease_holder() {
    let lease = |held, owner: Option<&str>| LeaseStatus {
        held,
        owner_session_id: owner.map(str::to_owned),
    };
    assert_eq!(
        current_actor(&lease(true, Some("s")), "operator"),
        TimelineActor::Agent { session_id: "s".to_owned() }
    );
    assert_eq!(current_actor(&lease(false, Some("s")), "operator"), TimelineActor::Human);
    assert_eq!(current_actor(&lease(true, Some("operator")), "operator"), TimelineActor::Human);
    assert_eq!(current_actor(&lease(true, None), "operator"), TimelineActor::Human);
}

#[test]
fn pauses_close_the_session_first() {
    let mut recorder = recorder();
    recorder.note_write(true);
    recorder.note_write(false);
    assert_eq!(recorder.readback(), (1, 1));
    match recorder.pause(false, Some(9), "s", 42, 8) {
        PauseStep::Write(row) => {
            assert_eq!(row.kind, TimelineKind::SessionEnd);
            assert_eq!(field(&row, "edge"), &text("pause"));
            assert_eq!(field(&row, "paused_until_ns"), &number(9));
            assert_eq!(field(&row, "rows_written"), &number(1));
        }
        other => panic!("row expected: {other:?}"),
    }
    assert!(matches!(recorder.pause(true, None, "s", 42, 8), PauseStep::Persist));
    assert!(matches!(pause_written(Ok(())), PauseStep::Flush));
    assert!(matches!(pause_flushed(Ok(())), PauseStep::Persist));
    assert!(matches!(
        pause_written(Err("x".to_owned())),
        PauseStep::Fail(RecorderFailure::PauseWrite(_))
    ));
    assert!(matches!(
        pause_flushed(Err("x".to_owned())),
        PauseStep::Fail(RecorderFailure::PauseFlush(_))
    ));
    assert_eq!(
        pause_recording(false, Ok(3)),
        Ok(RecorderControlOutcome { was_paused: false, boundary_row_written: true, state: 3 })
    );
    assert_eq!(
        pause_recording::<u8>(true, Err("x".to_owned())),
        Err(RecorderFailure::Persist("x".to_owned()))
    );
}

#[test]
fn resumes_open_the_session_last() {
    let recorder = recorder();
    match recorder.resume(true, Ok(3), "s", 42, 8) {
        ResumeStep::Write(row, state) => {
            assert_eq!(row.kind, TimelineKind::SessionStart);
            assert_eq!(field(&row, "edge"), &text("resume"));
            assert_eq!(field(&row, "by_session"), &text("s"));
            assert_eq!(state, 3);
        }
        other => panic!("row expected: {other:?}"),
    }
    assert!(matches!(
        recorder.resume(false, Ok(3), "s", 42, 8),
        ResumeStep::Done(Ok(RecorderControlOutcome { boundary_row_written: false, .. }))
    ));
    assert!(matches!(
        recorder.resume::<u8>(true, Err("x".to_owned()), "s", 42, 8),
        ResumeStep::Done(Err(RecorderFailure::Persist(_)))
    ));
    assert!(matches!(resume_written(3, Ok(())), ResumeStep::Flush(3)));
    assert!(matches!(
        resume_written(3, Err("x".to_owned())),
        ResumeStep::Done(Err(RecorderFailure::ResumeWrite(_)))
    ));
    assert_eq!(
        resume_recording(3, Ok(())),
        Ok(RecorderControlOutcome { was_paused: true, boundary_row_written: true, state: 3 })
    );
    let failed = resume_recording(3, Err("x".to_owned())).expect_err("failed");
    assert_eq!(
        failed.message(),
        "flush session_start resume boundary row — recording IS resumed but the timeline write \
         path is broken: x"
    );
}

#[test]
fn startup_goes_step_by_step() {
    let config = RecorderConfig { idle_timeout_ms: 1_000, idle_poll_interval_ms: 250 };
    match ActivityRecorder::spawn(Err("x".to_owned()), false) {
        SpawnStep::Fail(failure) => assert_eq!(
            failure.message(),
            "probe GetLastInputInfo for the activity recorder idle source: x"
        ),
        other => panic!("failure expected: {other:?}"),
    }
    assert!(matches!(
        ActivityRecorder::spawn(Ok(4), true),
        SpawnStep::PersistResume { initial_idle_ms: 4 }
    ));
    assert!(matches!(
        ActivityRecorder::spawn(Ok(4), false),
        SpawnStep::AskGate { initial_idle_ms: 4 }
    ));
    assert!(matches!(
        ActivityRecorder::spawn_resumed(4, Ok(())),
        SpawnStep::AskGate { initial_idle_ms: 4 }
    ));
    assert!(matches!(
        ActivityRecorder::spawn_resumed(4, Err("x".to_owned())),
        SpawnStep::Fail(RecorderFailure::StartupResume(_))
    ));
    assert!(matches!(
        ActivityRecorder::spawn_gated(true, config, 4, 42, 8),
        SpawnStep::Start
    ));
    match ActivityRecorder::spawn_gated(false, config, 4, 42, 8) {
        SpawnStep::Write(row) => {
            assert_eq!(field(&row, "edge"), &text("startup"));
            assert_eq!(field(&row, "initial_idle_ms"), &number(4));
            assert_eq!(field(&row, "idle_poll_interval_ms"), &number(250));
        }
        other => panic!("row expected: {other:?}"),
    }
    assert!(matches!(ActivityRecorder::spawn_written(Ok(())), SpawnStep::Flush));
    assert!(matches!(
        ActivityRecorder::spawn_written(Err("x".to_owned())),
        SpawnStep::Fail(RecorderFailure::StartupWrite(_))
    ));
    assert!(matches!(ActivityRecorder::spawn_flushed(Ok(())), SpawnStep::Start));
    assert!(matches!(
        ActivityRecorder::spawn_flushed(Err("x".to_owned())),
        SpawnStep::Fail(RecorderFailure::StartupFlush(_))
    ));
}

#[test]
fn sessions_end_once() {
    let mut recorder = recorder();
    assert!(recorder.record_accessible_event(false));
    assert!(!recorder.record_accessible_event(false));
    assert!(ActivityRecorder::records_event(WindowEventKind::NameChanged));
    assert!(!ActivityRecorder::records_event(WindowEventKind::Other));
    assert_eq!(recorder.shutdown(), ShutdownStep::AskWorker);
    assert_eq!(recorder.shutdown(), ShutdownStep::Nothing);
    assert_eq!(recorder.dropped(), None);
    assert_eq!(ActivityRecorder::shutdown_asked(true), ShutdownStep::AwaitWorker);
    assert_eq!(
        ActivityRecorder::shutdown_asked(false),
        ShutdownStep::EndSession(SessionEndEdge::ShutdownWorkerGone)
    );
    assert_eq!(ActivityRecorder::shutdown_awaited(true), ShutdownStep::JoinWorker);
    assert_eq!(
        ActivityRecorder::shutdown_awaited(false),
        ShutdownStep::AbortWorker(SessionEndEdge::ShutdownTimeout)
    );
    for gate in [SuppressReason::Paused, SuppressReason::ExcludedApp] {
        let seen = recorder.write_session_end_direct(
            SessionEndEdge::ShutdownTimeout,
            Some(gate),
            42,
            9,
        );
        assert!(seen.is_none());
    }
    let row = recorder
        .write_session_end_direct(SessionEndEdge::ShutdownTimeout, None, 42, 9)
        .expect("row");
    assert_eq!(field(&row, "edge"), &text("shutdown_timeout"));
    assert!(recorder
        .write_session_end("shutdown", Some(SuppressReason::Paused), 42, 9)
        .is_none());
    let row = recorder.write_session_end("shutdown", None, 42, 9).expect("row");
    assert_eq!(row.kind, TimelineKind::SessionEnd);
    assert_eq!(field(&row, "pid"), &number(42));
    let mut dropped = ActivityRecorder::new(recorder.config);
    assert_eq!(dropped.dropped(), Some(SessionEndEdge::Drop));
}
