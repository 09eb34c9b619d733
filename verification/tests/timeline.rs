use synapse_mcp::json::{Json, JsonEntry};
use synapse_mcp::keys::{hex_decode, hex_encode, key_after};
use synapse_mcp::m3::permissions::Permission;
use synapse_mcp::m3::timeline::{
    actor_filter, json_contains_text, lower_texts, parse_kind, record_matches,
    required_permissions, search_timeline, stop_name, timeline_search, to_match, validate,
    value_contains, ActorFilter, Filters, StopReason, TimelineActor, TimelineChunk, TimelineKind,
    TimelineRecord, TimelineRow, TimelineScan, TimelineSearchParams, TimelineSearchResponse,
    TimelineStep,
};

fn record(ts_ns: u64, kind: TimelineKind, app: &str, payload: Json) -> TimelineRecord {
    let mut record = TimelineRecord::new(ts_ns, kind, TimelineActor::Human);
    record.app = Some(app.to_owned());
    record.payload = payload;
    record
}

fn object(key: &str, value: Json) -> Json {
    Json::Object(vec![JsonEntry { key: key.to_owned(), value }])
}

fn filters() -> Filters {
    Filters {
        start_ts_ns: 0,
        end_ts_ns: u64::MAX,
        apps_lower: Vec::new(),
        text_lower: None,
        kinds: Vec::new(),
        actor: None,
        limit: 10,
        start_key: Vec::new(),
    }
}

fn timeline_key(ts_ns: u64, seq: u32) -> Vec<u8> {
    let mut key = ts_ns.to_be_bytes().to_vec();
    key.extend(seq.to_be_bytes());
    key
}

#[test]
fn text_filter_searches_nested_payload_strings_case_insensitively() {
    let row = record(
        5,
        TimelineKind::BrowserNav,
        "chrome.exe",
        object(
            "nav",
            object("url", Json::Text("https://example.test/Quarterly-Report".to_owned())),
        ),
    );
    let mut with_text = filters();
    with_text.text_lower = Some("quarterly-report".to_owned());
    assert!(record_matches(&row, &with_text));
    with_text.text_lower = Some("missing".to_owned());
    assert!(!record_matches(&row, &with_text));
}

#[test]
fn app_kind_actor_and_time_filters_apply() {
    let row = record(50, TimelineKind::FocusChange, "Excel.EXE", Json::Null);
    let mut all = filters();
    all.apps_lower = vec!["excel.exe".to_owned()];
    all.kinds = vec![TimelineKind::FocusChange];
    all.actor = Some(ActorFilter::Human);
    all.start_ts_ns = 50;
    all.end_ts_ns = 50;
    assert!(record_matches(&row, &all));
    all.kinds = vec![TimelineKind::Clipboard];
    assert!(!record_matches(&row, &all));
    all.kinds = vec![TimelineKind::FocusChange];
    all.actor = Some(ActorFilter::Agent);
    assert!(!record_matches(&row, &all));
    all.actor = None;
    all.end_ts_ns = 49;
    assert!(!record_matches(&row, &all));
}

#[test]
fn validate_rejects_bad_ranges_limits_kinds_actor_and_cursor() {
    let reject = |params: TimelineSearchParams, fragment: &str| {
        let error = validate(&params, Vec::new()).expect_err(fragment);
        assert!(
            error.message.contains(fragment),
            "expected {fragment:?} in {:?}",
            error.message
        );
    };
    reject(
        TimelineSearchParams {
            start_ts_ns: Some(10),
            end_ts_ns: Some(5),
            ..TimelineSearchParams::default()
        },
        "must be <=",
    );
    reject(
        TimelineSearchParams { limit: Some(0), ..TimelineSearchParams::default() },
        "limit",
    );
    reject(
        TimelineSearchParams {
            kinds: Some(vec!["keylogger_dump".to_owned()]),
            ..TimelineSearchParams::default()
        },
        "not a known timeline kind",
    );
    reject(
        TimelineSearchParams {
            actor: Some("alien".to_owned()),
            ..TimelineSearchParams::default()
        },
        "actor",
    );
    reject(
        TimelineSearchParams {
            cursor: Some("zz-not-hex".to_owned()),
            ..TimelineSearchParams::default()
        },
        "cursor",
    );
}

#[test]
fn cursor_roundtrips_and_resumes_after_key() {
    let key = timeline_key(42, 7);
    let cursor = hex_encode(&key);
    let decoded = hex_decode(&cursor).expect("hex roundtrip");
    assert_eq!(decoded, key);
    let params =
        TimelineSearchParams { cursor: Some(cursor), ..TimelineSearchParams::default() };
    let filters = validate(&params, Vec::new()).expect("cursor accepted");
    assert_eq!(filters.start_key, key_after(&key));
}

#[test]
fn searches_are_normalised() {
    let filters = validate(
        &TimelineSearchParams {
            start_ts_ns: Some(3),
            end_ts_ns: Some(3),
            apps: Some(vec![" Excel.EXE ".to_owned(), "ÄPP".to_owned()]),
            text: Some("  ÉTÉ ".to_owned()),
            kinds: Some(vec!["browser_nav".to_owned()]),
            actor: Some("AGENT".to_owned()),
            limit: Some(500),
            cursor: None,
        },
        vec![1, 2],
    )
    .expect("valid");
    assert_eq!(filters.apps_lower, ["excel.exe", "äpp"]);
    assert_eq!(filters.text_lower.as_deref(), Some("été"));
    assert_eq!(filters.kinds, [TimelineKind::BrowserNav]);
    assert_eq!(filters.actor, Some(ActorFilter::Agent));
    assert_eq!(filters.limit, 500);
    assert_eq!(filters.start_key, [1, 2]);
    let default = validate(&TimelineSearchParams::default(), Vec::new()).expect("default");
    assert_eq!(default.limit, 100);
    assert_eq!(default.end_ts_ns, u64::MAX);
    assert!(validate(
        &TimelineSearchParams { limit: Some(501), ..TimelineSearchParams::default() },
        Vec::new()
    )
    .is_err());
}

#[test]
fn kinds_and_actors_are_read_by_name() {
    assert_eq!(parse_kind("focus_change"), Ok(TimelineKind::FocusChange));
    assert_eq!(parse_kind("idle_end"), Ok(TimelineKind::IdleEnd));
    assert!(parse_kind("Focus-Change").is_err());
    assert_eq!(actor_filter("human"), Ok(ActorFilter::Human));
    assert_eq!(actor_filter("agent"), Ok(ActorFilter::Agent));
    assert!(actor_filter("both").is_err());
    assert_eq!(timeline_search().name, "timeline_search");
    assert_eq!(
        required_permissions(&TimelineSearchParams::default()).permissions,
        [Permission::ReadStorage]
    );
}

#[test]
fn texts_are_found_at_any_depth_but_not_in_keys() {
    let value = object(
        "Needle",
        Json::Array(vec![Json::Bool(true), object("x", Json::Text("a ÄNeedle b".to_owned()))]),
    );
    assert!(value_contains(&value, "äneedle"));
    assert!(!value_contains(&value, "needles"));
    assert!(!value_contains(&object("needle", Json::Null), "needle"));
    let lowered = lower_texts(&value);
    assert!(json_contains_text(&lowered, "needle"));
    assert!(!json_contains_text(&lowered, "Needle"));
}

fn row(ts_ns: u64, seq: u32, app: &str) -> TimelineRow {
    TimelineRow {
        key: timeline_key(ts_ns, seq),
        codec: Some((ts_ns, seq)),
        record: Ok(record(ts_ns, TimelineKind::FocusChange, app, Json::Null)),
    }
}

#[test]
fn scans_page_through_the_timeline() {
    let mut filters = filters();
    filters.limit = 2;
    let scan = TimelineScan::begin(&filters);
    assert!(scan.chunk_rows() > 0);
    let chunk = TimelineChunk {
        rows: vec![row(1, 0, "a"), row(2, 0, "b"), row(3, 0, "c")],
        more: false,
    };
    let response = match scan.absorb(&chunk, &filters) {
        TimelineStep::Done(response) => response,
        TimelineStep::Read(_) => panic!("the limit ends the scan"),
    };
    assert_eq!(response.matches.len(), 2);
    assert_eq!(response.matches[0].ts_ns, 1);
    assert_eq!(response.matches[0].kind, "focus_change");
    assert_eq!(response.matches[0].actor, "human");
    assert_eq!(response.matches[0].key_hex, hex_encode(&timeline_key(1, 0)));
    assert_eq!(response.stopped_because, stop_name(StopReason::LimitReached));
    let cursor = response.next_cursor.expect("cursor");
    assert_eq!(hex_decode(&cursor), Some(timeline_key(2, 0)));
    let (next, scan) = search_timeline(
        &TimelineSearchParams { cursor: Some(cursor), ..TimelineSearchParams::default() },
        Vec::new(),
    )
    .expect("resumed");
    assert_eq!(next.start_key, key_after(&timeline_key(2, 0)));
    let rest = TimelineChunk { rows: vec![row(3, 0, "c")], more: false };
    match scan.absorb(&rest, &next) {
        TimelineStep::Done(response) => {
            assert_eq!(response.matches.len(), 1);
            assert_eq!(response.next_cursor, None);
            assert_eq!(response.stopped_because, stop_name(StopReason::EndOfTimeline));
        }
        TimelineStep::Read(_) => panic!("the timeline has ended"),
    }
}

fn search_store(store: &[(u64, u32, &str)], params: &TimelineSearchParams) -> TimelineSearchResponse {
    let (filters, mut scan) = search_timeline(params, Vec::new()).expect("search");
    loop {
        let limit = scan.chunk_rows();
        let mut found: Vec<TimelineRow> = store
            .iter()
            .map(|(ts_ns, seq, app)| row(*ts_ns, *seq, app))
            .filter(|row| row.key >= scan.next_start)
            .collect();
        let more = found.len() > limit;
        found.truncate(limit);
        scan = match scan.absorb(&TimelineChunk { rows: found, more }, &filters) {
            TimelineStep::Read(next) => next,
            TimelineStep::Done(response) => return response,
        };
    }
}

fn all_pages(
    store: &[(u64, u32, &str)],
    mut params: TimelineSearchParams,
    later_limits: &[u32],
) -> (Vec<usize>, Vec<(u64, u32)>) {
    let mut later_limits = later_limits.iter();
    let mut sizes = Vec::new();
    let mut joined = Vec::new();
    loop {
        let page = search_store(store, &params);
        sizes.push(page.matches.len());
        joined.extend(page.matches.iter().map(|found| (found.ts_ns, found.seq.expect("seq"))));
        match page.next_cursor {
            Some(cursor) => {
                params.cursor = Some(cursor);
                params.limit = later_limits.next().copied().or(params.limit);
            }
            None => return (sizes, joined),
        }
    }
}

#[test]
fn pages_join_to_every_match_once_and_in_order() {
    let store = [
        (1, 0, "a"),
        (1, 1, "b"),
        (2, 0, "a"),
        (3, 0, "a"),
        (3, 1, "b"),
        (4, 0, "a"),
        (9, 0, "a"),
    ];
    let params = |limit: u32, apps: Option<Vec<String>>| TimelineSearchParams {
        end_ts_ns: Some(8),
        limit: Some(limit),
        apps,
        ..TimelineSearchParams::default()
    };
    let only_a = || Some(vec!["A".to_owned()]);
    assert_eq!(
        all_pages(&store, params(2, only_a()), &[]),
        (vec![2, 2, 0], vec![(1, 0), (2, 0), (3, 0), (4, 0)])
    );
    assert_eq!(
        all_pages(&store, params(3, None), &[]),
        (vec![3, 3, 0], vec![(1, 0), (1, 1), (2, 0), (3, 0), (3, 1), (4, 0)])
    );
    assert_eq!(
        all_pages(&store, params(1, None), &[4, 2]),
        (vec![1, 4, 1], vec![(1, 0), (1, 1), (2, 0), (3, 0), (3, 1), (4, 0)])
    );
    assert_eq!(all_pages(&store, params(100, only_a()), &[]).0, [4]);
    assert_eq!(all_pages(&[], params(1, None), &[]), (vec![0], Vec::new()));
}

#[test]
fn searches_longer_than_the_budget_go_on_behind_their_cursor() {
    let store: Vec<(u64, u32, &str)> = (0..100_001)
        .map(|ts_ns| (ts_ns, 0, if ts_ns % 50_000 == 0 { "hit" } else { "miss" }))
        .collect();
    let mut rows: Vec<TimelineRow> =
        store.iter().map(|(ts_ns, seq, app)| row(*ts_ns, *seq, app)).collect();
    let last = rows.pop().expect("last");
    let params = TimelineSearchParams {
        apps: Some(vec!["hit".to_owned()]),
        ..TimelineSearchParams::default()
    };
    let (filters, mut scan) = search_timeline(&params, Vec::new()).expect("search");
    let mut rows = rows.into_iter();
    let page = loop {
        let chunk: Vec<TimelineRow> = rows.by_ref().take(scan.chunk_rows()).collect();
        scan = match scan.absorb(&TimelineChunk { rows: chunk, more: true }, &filters) {
            TimelineStep::Read(next) => next,
            TimelineStep::Done(response) => break response,
        };
    };
    assert_eq!(page.stopped_because, stop_name(StopReason::ScanBudgetExhausted));
    assert_eq!(page.scanned_rows, 100_000);
    assert_eq!(page.matches.len(), 2);
    let (filters, scan) = search_timeline(
        &TimelineSearchParams { cursor: page.next_cursor, ..params },
        Vec::new(),
    )
    .expect("resumed");
    assert_eq!(scan.next_start, key_after(&timeline_key(99_999, 0)));
    match scan.absorb(&TimelineChunk { rows: vec![last], more: false }, &filters) {
        TimelineStep::Done(response) => {
            assert_eq!(response.matches.len(), 1);
            assert_eq!(response.matches[0].ts_ns, 100_000);
            assert_eq!(response.next_cursor, None);
        }
        TimelineStep::Read(_) => panic!("the timeline has ended"),
    }
}

#[test]
fn scans_go_on_while_there_is_more_and_end_with_the_range() {
    let mut filters = filters();
    filters.end_ts_ns = 5;
    let first = TimelineChunk {
        rows: vec![
            row(1, 0, "a"),
            TimelineRow { key: timeline_key(2, 0), codec: None, record: Err("bad".to_owned()) },
        ],
        more: true,
    };
    let scan = match TimelineScan::begin(&filters).absorb(&first, &filters) {
        TimelineStep::Read(scan) => scan,
        TimelineStep::Done(response) => panic!("more rows follow: {response:?}"),
    };
    assert_eq!(scan.scanned_rows, 2);
    assert_eq!(scan.invalid_rows, 1);
    assert_eq!(scan.next_start, key_after(&timeline_key(2, 0)));
    let second = TimelineChunk { rows: vec![row(6, 0, "b")], more: true };
    match scan.absorb(&second, &filters) {
        TimelineStep::Done(response) => {
            assert_eq!(response.matches.len(), 1);
            assert_eq!(response.stopped_because, stop_name(StopReason::EndTsReached));
        }
        TimelineStep::Read(_) => panic!("the range has ended"),
    }
}

#[test]
fn matches_show_who_acted() {
    let mut row = record(1, TimelineKind::SessionEnd, "a", Json::Bool(true));
    row.actor = TimelineActor::Agent { session_id: "s1".to_owned() };
    let shown = to_match(&[0xab, 0x01], Some(4), &row);
    assert_eq!(shown.key_hex, "ab01");
    assert_eq!(shown.seq, Some(4));
    assert!(shown.actor.contains("s1"), "{}", shown.actor);
    assert_eq!(shown.payload, Json::Bool(true));
    assert_eq!(shown.kind, "session_end");
}
