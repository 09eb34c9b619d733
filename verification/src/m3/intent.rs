//! The `intent_current` tool.
//!
//! A read-only snapshot of which mined routines the operator appears to be executing. The tool
//! reads the recent episodes, the mined routines and their lifecycle, and hands them to the
//! matcher with the wall-clock context of the instant. Rows that cannot be decoded and an exhausted
//! scan budget are errors, never a silently truncated snapshot.

use vstd::prelude::*;

use crate::clock::{is_near_weekday, local_weekday};
use crate::error::{internal, internal_error, invalid, mcp_error, params_invalid, ErrorView,
    ToolError, STORAGE_CORRUPTED, STORAGE_READ_FAILED};
use crate::ieee::{Real64, ONE_64};
use crate::keys::{hex_encode, hex_of, key_after};
use crate::m3::armed_routines::minute_since;
use crate::m3::permissions::{read_only, Permission, RequiredPermissions};
use crate::m3::routines::{IntentCandidate, RoutineLifecycle};
use crate::m3::suggestions::floor_sub;
use crate::m3::M3ToolStub;
use crate::numerals::{decimal, decimal_text};
use crate::text::{cat2, cat3, cat4, cat5, clone_optional, optional_view, text_equal};

verus! {

/// Most rows read by one call over all three column families.
pub const MAX_SCAN_ROWS_PER_CALL: usize = 200_000;

/// Most rows of one storage read.
pub const SCAN_CHUNK_ROWS: usize = 4_096;

/// Default lookback.
pub const DEFAULT_LOOKBACK_HOURS: u32 = 6;

/// Greatest lookback.
pub const MAX_LOOKBACK_HOURS: u32 = 168;

/// Default number of candidates.
pub const DEFAULT_MAX_CANDIDATES: u32 = 10;

/// Greatest number of candidates.
pub const MAX_MAX_CANDIDATES: u32 = 50;

/// The version of a routine row that is understood.
pub const ROUTINE_RECORD_VERSION: u32 = 1;

/// The version of a routine state row that is understood.
pub const ROUTINE_STATE_RECORD_VERSION: u32 = 2;

// ---------------------------------------------------------------------------------------------
// Parameters
// ---------------------------------------------------------------------------------------------

/// What to take a snapshot of.
#[derive(Clone, Copy, Debug, PartialEq, Eq)]
pub struct IntentCurrentParams {
    /// The instant of the snapshot; now where absent.
    pub now_ts_ns: Option<u64>,
    /// How far back to gather episodes.
    pub lookback_hours: Option<u32>,
    /// Keep only candidates of at least this confidence.
    pub min_confidence: Option<Real64>,
    /// Most candidates to return.
    pub max_candidates: Option<u32>,
    /// Match the episodes of agents too.
    pub include_agent_activity: bool,
}

impl Default for IntentCurrentParams {
    fn default() -> (r: Self)
        ensures
            r == (IntentCurrentParams {
                now_ts_ns: None,
                lookback_hours: None,
                min_confidence: None,
                max_candidates: None,
                include_agent_activity: false,
            }),
    {
        IntentCurrentParams {
            now_ts_ns: None,
            lookback_hours: None,
            min_confidence: None,
            max_candidates: None,
            include_agent_activity: false,
        }
    }
}

/// The wall clock that a snapshot was evaluated against.
#[derive(Clone, Copy, Debug, PartialEq, Eq, Structural)]
pub struct NowEcho {
    pub ts_ns: u64,
    /// The local day of the week; 0 is Monday.
    pub weekday: u8,
    /// The minute of the local day.
    pub minute_of_day: u32,
}

/// What a snapshot reports.
#[derive(Debug, PartialEq, Eq)]
pub struct IntentCurrentResponse<S, E> {
    /// The candidates, strongest first.
    pub candidates: Vec<IntentCandidate<S, E>>,
    pub now: NowEcho,
    /// The beginning of the window of recent activity.
    pub window_start_ns: u64,
    pub total_mined_routines: u64,
    pub total_state_rows: u64,
    /// Routines handed to the matcher.
    pub evaluated_routines: u64,
    /// Episodes handed to the matcher.
    pub considered_episodes: u64,
    /// Rows read over all column families.
    pub scanned_rows: u64,
}

/// The registration entry of the snapshot tool.
pub fn intent_current() -> (r: M3ToolStub)
    ensures
        r.name@ == "intent_current"@,
{
    M3ToolStub::new("intent_current")
}

/// The snapshot of every candidate at an instant, however weak.
pub open spec fn every_candidate(now: u64, lookback_hours: Option<u32>) -> IntentCurrentParams {
    IntentCurrentParams {
        now_ts_ns: Some(now),
        lookback_hours,
        min_confidence: Some(Real64 { bits: 0 }),
        max_candidates: Some(MAX_MAX_CANDIDATES),
        include_agent_activity: false,
    }
}

/// Asks for every candidate at an instant, however weak.
pub fn ask_for_every_candidate(now: u64, lookback_hours: Option<u32>) -> (r: IntentCurrentParams)
    ensures
        r == every_candidate(now, lookback_hours),
{
    IntentCurrentParams {
        now_ts_ns: Some(now),
        lookback_hours,
        min_confidence: Some(Real64 { bits: 0 }),
        max_candidates: Some(MAX_MAX_CANDIDATES),
        include_agent_activity: false,
    }
}

/// A snapshot reads storage.
pub fn required_permissions(_params: &IntentCurrentParams) -> (r: RequiredPermissions)
    ensures
        r@ == seq![Permission::ReadStorage],
{
    read_only()
}

/// Whether a confidence lies between zero and one.
pub open spec fn is_fraction(c: Real64) -> bool {
    (Real64 { bits: 0 }).is_at_most(c) && c.is_at_most(Real64 { bits: ONE_64 })
}

/// Why the parameters of a snapshot are refused, if they are. `printed` is the decimal form of the
/// minimum confidence.
pub open spec fn snapshot_params_error(
    params: IntentCurrentParams,
    printed: Seq<char>,
) -> Option<ErrorView> {
    if params.lookback_hours matches Some(hours) && !(1 <= hours <= MAX_LOOKBACK_HOURS) {
        Some(
            params_invalid(
                "intent_current lookback_hours must be between 1 and 168; got "@ + decimal(
                    params.lookback_hours->Some_0 as nat,
                ),
            ),
        )
    } else if params.max_candidates matches Some(most) && !(1 <= most <= MAX_MAX_CANDIDATES) {
        Some(
            params_invalid(
                "intent_current max_candidates must be between 1 and 50; got "@ + decimal(
                    params.max_candidates->Some_0 as nat,
                ),
            ),
        )
    } else if params.min_confidence matches Some(c) && !is_fraction(c) {
        Some(
            params_invalid(
                "intent_current min_confidence must be within [0.0, 1.0]; got "@ + printed,
            ),
        )
    } else {
        None
    }
}

/// How the matcher is to be run.
#[derive(Clone, Copy, Debug, PartialEq, Eq, Structural)]
pub struct IntentMatchConfig {
    pub min_combined_confidence: Real64,
    pub max_candidates: usize,
    pub include_agent_activity: bool,
}

/// A snapshot that is about to be taken.
#[derive(Clone, Copy, Debug, PartialEq, Eq, Structural)]
pub struct SnapshotPlan {
    pub now: NowEcho,
    pub window_start_ns: u64,
    pub config: IntentMatchConfig,
}

/// The instant of a snapshot.
pub open spec fn snapshot_now(params: IntentCurrentParams, host_now_ns: u64) -> u64 {
    match params.now_ts_ns {
        Some(now) => now,
        None => host_now_ns,
    }
}

/// The lookback of a snapshot in hours.
pub open spec fn lookback_of(params: IntentCurrentParams) -> u32 {
    match params.lookback_hours {
        Some(hours) => hours,
        None => DEFAULT_LOOKBACK_HOURS,
    }
}

/// The plan of a snapshot, given the local calendar of its instant.
pub open spec fn plan_of(
    params: IntentCurrentParams,
    now_ts: u64,
    weekday: u8,
    day_start: u64,
) -> SnapshotPlan {
    SnapshotPlan {
        now: NowEcho {
            ts_ns: now_ts,
            weekday,
            minute_of_day: minute_since(now_ts, day_start) as u32,
        },
        window_start_ns: floor_sub(
            now_ts as int,
            lookback_of(params) * 3_600_000_000_000,
        ) as u64,
        config: IntentMatchConfig {
            min_combined_confidence: match params.min_confidence {
                Some(c) => c,
                None => Real64 { bits: 0 },
            },
            max_candidates: (match params.max_candidates {
                Some(most) => most,
                None => DEFAULT_MAX_CANDIDATES,
            }) as usize,
            include_agent_activity: params.include_agent_activity,
        },
    }
}

/// The error for an instant beyond the calendar.
pub open spec fn instant_out_of_range(ts_ns: u64) -> ErrorView {
    params_invalid("now_ts_ns "@ + decimal(ts_ns as nat) + " exceeds the representable range"@)
}

/// The wall-clock context of an instant, given its local day of the week and when its local day
/// began.
pub fn now_context_on(ts_ns: u64, weekday: u8, day_start: u64) -> (r: NowEcho)
    ensures
        r.ts_ns == ts_ns,
        r.weekday == weekday,
        r.minute_of_day == minute_since(ts_ns, day_start),
{
    NowEcho {
        ts_ns,
        weekday,
        minute_of_day: ((ts_ns.saturating_sub(day_start) / 60_000_000_000) % 1440) as u32,
    }
}

/// The wall-clock context of an instant.
pub fn now_context(ts_ns: u64, day_start: Result<u64, ToolError>) -> (r: Result<NowEcho, ToolError>)
    ensures
        if ts_ns > i64::MAX {
            r matches Err(e) && e@ == instant_out_of_range(ts_ns)
        } else {
            match day_start {
                Err(e) => r == Err::<NowEcho, ToolError>(e),
                Ok(day_start) => r matches Ok(now) && now.weekday <= 6 && is_near_weekday(
                    now.weekday as int,
                    ts_ns as int,
                ) && now.ts_ns == ts_ns && now.minute_of_day == minute_since(ts_ns, day_start),
            }
        },
{
    if ts_ns > i64::MAX as u64 {
        let digits = decimal_text(ts_ns);
        return Err(
            invalid(cat3("now_ts_ns ", digits.as_str(), " exceeds the representable range")),
        );
    }
    let weekday: u32 = local_weekday(ts_ns as i64);
    match day_start {
        Ok(day_start) => Ok(now_context_on(ts_ns, weekday as u8, day_start)),
        Err(e) => Err(e),
    }
}

/// Checks the parameters of a snapshot.
pub fn validate_snapshot(params: &IntentCurrentParams, printed: &str) -> (r: Result<(), ToolError>)
    ensures
        match r {
            Ok(_) => snapshot_params_error(*params, printed@) is None,
            Err(e) => snapshot_params_error(*params, printed@) == Some(e@),
        },
{
    if let Some(hours) = params.lookback_hours {
        if !(1 <= hours && hours <= MAX_LOOKBACK_HOURS) {
            let got = decimal_text(hours as u64);
            return Err(
                invalid(
                    cat2(
                        "intent_current lookback_hours must be between 1 and 168; got ",
                        got.as_str(),
                    ),
                ),
            );
        }
    }
    if let Some(most) = params.max_candidates {
        if !(1 <= most && most <= MAX_MAX_CANDIDATES) {
            let got = decimal_text(most as u64);
            return Err(
                invalid(
                    cat2(
                        "intent_current max_candidates must be between 1 and 50; got ",
                        got.as_str(),
                    ),
                ),
            );
        }
    }
    if let Some(c) = params.min_confidence {
        let zero = Real64 { bits: 0 };
        let one = Real64 { bits: ONE_64 };
        if !(zero.at_most(c) && c.at_most(one)) {
            return Err(
                invalid(
                    cat2("intent_current min_confidence must be within [0.0, 1.0]; got ", printed),
                ),
            );
        }
    }
    Ok(())
}

/// Plans a snapshot: checks the parameters, then takes the wall-clock context of the instant.
/// `day_start` is when the local day of that instant began.
pub fn plan_snapshot(
    params: &IntentCurrentParams,
    printed: &str,
    host_now_ns: u64,
    day_start: Result<u64, ToolError>,
) -> (r: Result<SnapshotPlan, ToolError>)
    ensures
        if snapshot_params_error(*params, printed@) is Some {
            r matches Err(e) && snapshot_params_error(*params, printed@) == Some(e@)
        } else if snapshot_now(*params, host_now_ns) > i64::MAX {
            r matches Err(e) && e@ == instant_out_of_range(snapshot_now(*params, host_now_ns))
        } else {
            match day_start {
                Err(e) => r == Err::<SnapshotPlan, ToolError>(e),
                Ok(day_start) => r matches Ok(plan) && plan.now.weekday <= 6 && is_near_weekday(
                    plan.now.weekday as int,
                    snapshot_now(*params, host_now_ns) as int,
                ) && plan == plan_of(
                    *params,
                    snapshot_now(*params, host_now_ns),
                    plan.now.weekday,
                    day_start,
                ),
            }
        },
{
    match validate_snapshot(params, printed) {
        Ok(()) => {},
        Err(e) => {
            return Err(e);
        },
    }
    let now_ts: u64 = match params.now_ts_ns {
        Some(now) => now,
        None => host_now_ns,
    };
    let now = match now_context(now_ts, day_start) {
        Ok(now) => now,
        Err(e) => {
            return Err(e);
        },
    };
    let lookback_hours: u32 = match params.lookback_hours {
        Some(hours) => hours,
        None => DEFAULT_LOOKBACK_HOURS,
    };
    let lookback_ns: u64 = lookback_hours as u64 * 3_600_000_000_000;
    let max_candidates: u32 = match params.max_candidates {
        Some(most) => most,
        None => DEFAULT_MAX_CANDIDATES,
    };
    Ok(
        SnapshotPlan {
            now,
            window_start_ns: now_ts.saturating_sub(lookback_ns),
            config: IntentMatchConfig {
                min_combined_confidence: match params.min_confidence {
                    Some(c) => c,
                    None => Real64 { bits: 0 },
                },
                max_candidates: max_candidates as usize,
                include_agent_activity: params.include_agent_activity,
            },
        },
    )
}

// ---------------------------------------------------------------------------------------------
// Recent episodes
// ---------------------------------------------------------------------------------------------

/// An episode as the snapshot sees it: the instant of its key, when it began, and the rest of it.
#[derive(Debug, PartialEq, Eq)]
pub struct EpisodeRecord<T> {
    pub key_ts_ns: u64,
    pub start_ts_ns: u64,
    pub body: T,
}

/// One row of a column family, decoded or with the error of its decoding.
#[derive(Debug)]
pub struct FamilyRow<T> {
    pub key: Vec<u8>,
    pub decoded: Result<T, ToolError>,
}

/// One bounded read of a column family and whether rows follow it.
#[derive(Debug)]
pub struct FamilyChunk<T> {
    pub rows: Vec<FamilyRow<T>>,
    pub more: bool,
}

/// A scan of a column family under way: what it has collected, how many rows the call has read,
/// and where it reads next.
#[derive(Debug)]
pub struct FamilyScan<T> {
    pub out: Vec<T>,
    pub scanned_rows: u64,
    pub start: Vec<u8>,
}

/// What a scan does next.
#[derive(Debug)]
pub enum FamilyStep<T> {
    /// Read the next chunk from the scan's start key.
    Read(FamilyScan<T>),
    /// The scan is over: what it has collected, and how many rows the call has read.
    Done(Result<(Vec<T>, u64), ToolError>),
}

/// What the rows of a chunk come to: what has been collected, how many rows have been read, and
/// whether a row ended the scan, with its error or without one.
pub struct Gathered<T> {
    pub out: Seq<T>,
    pub scanned: nat,
    pub ended: bool,
    pub error: Option<ErrorView>,
}

/// Whether an episode begins in the window.
pub open spec fn in_window<T>(episode: EpisodeRecord<T>, window_start_ns: u64, now_ts_ns: u64) -> bool {
    window_start_ns <= episode.start_ts_ns <= now_ts_ns
}

/// Gathers episodes until a row cannot be decoded or lies behind the instant of the snapshot.
pub open spec fn gather_episodes<T>(
    state: Gathered<EpisodeRecord<T>>,
    rows: Seq<FamilyRow<EpisodeRecord<T>>>,
    window_start_ns: u64,
    now_ts_ns: u64,
) -> Gathered<EpisodeRecord<T>>
    decreases rows.len(),
{
    if rows.len() == 0 || state.ended {
        state
    } else {
        let seen = Gathered { scanned: state.scanned + 1, ..state };
        let next = match rows[0].decoded {
            Err(e) => Gathered { ended: true, error: Some(e@), ..seen },
            Ok(episode) => if episode.key_ts_ns > now_ts_ns {
                Gathered { ended: true, ..seen }
            } else if in_window(episode, window_start_ns, now_ts_ns) {
                Gathered { out: state.out.push(episode), ..seen }
            } else {
                seen
            },
        };
        gather_episodes(next, rows.drop_first(), window_start_ns, now_ts_ns)
    }
}

/// The state of a scan before a chunk is taken in.
pub open spec fn gathered<T>(scan: FamilyScan<T>) -> Gathered<T> {
    Gathered { out: scan.out@, scanned: scan.scanned_rows as nat, ended: false, error: None }
}

/// The error for an episode scan that has read too many rows.
pub open spec fn episodes_exhausted() -> ErrorView {
    internal_error(
        "INTENT_SCAN_BUDGET_EXHAUSTED after 200000 CF_EPISODES rows; narrow lookback_hours \u{2014} matching over a truncated scan would be falsely empty"@,
    )
}

/// The error for a family scan that has read too many rows.
pub open spec fn family_exhausted(cf_name: Seq<char>) -> ErrorView {
    internal_error(
        "INTENT_SCAN_BUDGET_EXHAUSTED after 200000 "@ + cf_name
            + " rows; the store should hold at most a few hundred \u{2014} inspect "@ + cf_name,
    )
}

/// What a scan does next: it ends where a row ended it, where there is nothing more to read, or
/// where the budget is spent; otherwise it reads on behind the last row.
pub open spec fn scan_goes_on<T>(
    step: FamilyStep<T>,
    after: Gathered<T>,
    rows: Seq<FamilyRow<T>>,
    more: bool,
    exhausted: ErrorView,
) -> bool {
    if after.error is Some {
        step matches FamilyStep::Done(Err(e)) && Some(e@) == after.error
    } else if after.ended || rows.len() == 0 || !more {
        step matches FamilyStep::Done(Ok(done)) && done.0@ == after.out && done.1 == after.scanned
    } else if after.scanned >= MAX_SCAN_ROWS_PER_CALL {
        step matches FamilyStep::Done(Err(e)) && e@ == exhausted
    } else {
        step matches FamilyStep::Read(next) && next.out@ == after.out && next.scanned_rows
            == after.scanned && next.start@ == rows.last().key@.push(0)
    }
}

fn exhausted_episodes() -> (r: ToolError)
    ensures
        r@ == episodes_exhausted(),
{
    internal(
        "INTENT_SCAN_BUDGET_EXHAUSTED after 200000 CF_EPISODES rows; narrow lookback_hours \u{2014} matching over a truncated scan would be falsely empty".to_owned(),
    )
}

fn exhausted_family(cf_name: &str) -> (r: ToolError)
    ensures
        r@ == family_exhausted(cf_name@),
{
    internal(
        cat4(
            "INTENT_SCAN_BUDGET_EXHAUSTED after 200000 ",
            cf_name,
            " rows; the store should hold at most a few hundred \u{2014} inspect ",
            cf_name,
        ),
    )
}

/// Starts the scan of the recent episodes at the given key, which is the first that an episode of
/// the day of the window's start can have.
pub fn begin_episodes<T>(start: Result<Vec<u8>, ToolError>) -> (r: FamilyStep<EpisodeRecord<T>>)
    ensures
        match start {
            Err(e) => r == FamilyStep::Done(Err::<(Vec<EpisodeRecord<T>>, u64), ToolError>(e)),
            Ok(start) => r matches FamilyStep::Read(scan) && scan.out@.len() == 0
                && scan.scanned_rows == 0 && scan.start == start,
        },
{
    match start {
        Err(e) => FamilyStep::Done(Err(e)),
        Ok(start) => FamilyStep::Read(FamilyScan { out: Vec::new(), scanned_rows: 0, start }),
    }
}

/// Takes in a chunk of episodes: keeps those that begin between the window's start and the instant
/// of the snapshot, and ends behind that instant.
pub fn recent_episodes<T>(
    scan: FamilyScan<EpisodeRecord<T>>,
    chunk: Result<FamilyChunk<EpisodeRecord<T>>, ToolError>,
    window_start_ns: u64,
    now_ts_ns: u64,
) -> (r: FamilyStep<EpisodeRecord<T>>)
    requires
        scan.scanned_rows < MAX_SCAN_ROWS_PER_CALL,
        chunk matches Ok(c) ==> c.rows@.len() <= SCAN_CHUNK_ROWS,
    ensures
        match chunk {
            Err(e) => r == FamilyStep::Done(Err::<(Vec<EpisodeRecord<T>>, u64), ToolError>(e)),
            Ok(chunk) => scan_goes_on(
                r,
                gather_episodes(gathered(scan), chunk.rows@, window_start_ns, now_ts_ns),
                chunk.rows@,
                chunk.more,
                episodes_exhausted(),
            ),
        },
{
    let body = match chunk {
        Ok(body) => body,
        Err(e) => {
            return FamilyStep::Done(Err(e));
        },
    };
    let more = body.more;
    let ghost rows = body.rows@;
    let ghost all = gather_episodes(gathered(scan), rows, window_start_ns, now_ts_ns);
    let total: usize = body.rows.len();
    let start: Vec<u8> = if total == 0 {
        Vec::new()
    } else {
        key_after(body.rows[total - 1].key.as_slice())
    };
    let mut out: Vec<EpisodeRecord<T>> = scan.out;
    let mut scanned: u64 = scan.scanned_rows;
    assert(rows.skip(0) =~= rows);
    for row in it: body.rows
        invariant
            it.seq() == rows,
            chunk matches Ok(c) && c.rows@ == rows && c.more == more,
            all == gather_episodes(gathered(scan), rows, window_start_ns, now_ts_ns),
            rows.len() <= SCAN_CHUNK_ROWS,
            scanned == scan.scanned_rows + it.index(),
            scan.scanned_rows < MAX_SCAN_ROWS_PER_CALL,
            all == gather_episodes(
                Gathered { out: out@, scanned: scanned as nat, ended: false, error: None },
                rows.skip(it.index() as int),
                window_start_ns,
                now_ts_ns,
            ),
    {
        proof {
            reveal_with_fuel(gather_episodes, 2);
            let i = it.index() as int;
            assert(rows.skip(i)[0] == rows[i]);
            assert(rows.skip(i).drop_first() =~= rows.skip(i + 1));
        }
        scanned = scanned + 1;
        match row.decoded {
            Err(e) => {
                return FamilyStep::Done(Err(e));
            },
            Ok(episode) => {
                if episode.key_ts_ns > now_ts_ns {
                    return FamilyStep::Done(Ok((out, scanned)));
                }
                if episode.start_ts_ns >= window_start_ns && episode.start_ts_ns <= now_ts_ns {
                    out.push(episode);
                }
            },
        }
    }
    assert(rows.skip(rows.len() as int) =~= Seq::empty());
    if total == 0 || !more {
        return FamilyStep::Done(Ok((out, scanned)));
    }
    if scanned >= MAX_SCAN_ROWS_PER_CALL as u64 {
        return FamilyStep::Done(Err(exhausted_episodes()));
    }
    FamilyStep::Read(FamilyScan { out, scanned_rows: scanned, start })
}

// ---------------------------------------------------------------------------------------------
// Routines and their state
// ---------------------------------------------------------------------------------------------

/// Gathers the rows of a column family until one cannot be decoded.
pub open spec fn gather_all<T>(state: Gathered<T>, rows: Seq<FamilyRow<T>>) -> Gathered<T>
    decreases rows.len(),
{
    if rows.len() == 0 || state.ended {
        state
    } else {
        let seen = Gathered { scanned: state.scanned + 1, ..state };
        let next = match rows[0].decoded {
            Err(e) => Gathered { ended: true, error: Some(e@), ..seen },
            Ok(record) => Gathered { out: state.out.push(record), ..seen },
        };
        gather_all(next, rows.drop_first())
    }
}

/// Starts the scan of a whole column family, unless the budget of the call is spent already.
pub fn begin_family<T>(cf_name: &str, scanned_rows: u64) -> (r: FamilyStep<T>)
    ensures
        if scanned_rows >= MAX_SCAN_ROWS_PER_CALL {
            r matches FamilyStep::Done(Err(e)) && e@ == family_exhausted(cf_name@)
        } else {
            r matches FamilyStep::Read(scan) && scan.out@.len() == 0 && scan.scanned_rows
                == scanned_rows && scan.start@.len() == 0
        },
{
    if scanned_rows >= MAX_SCAN_ROWS_PER_CALL as u64 {
        return FamilyStep::Done(Err(exhausted_family(cf_name)));
    }
    FamilyStep::Read(FamilyScan { out: Vec::new(), scanned_rows, start: Vec::new() })
}

/// Takes in a chunk of a column family.
pub fn load_cf<T>(
    scan: FamilyScan<T>,
    cf_name: &str,
    chunk: Result<FamilyChunk<T>, ToolError>,
) -> (r: FamilyStep<T>)
    requires
        scan.scanned_rows < MAX_SCAN_ROWS_PER_CALL,
        chunk matches Ok(c) ==> c.rows@.len() <= SCAN_CHUNK_ROWS,
    ensures
        match chunk {
            Err(e) => r == FamilyStep::Done(Err::<(Vec<T>, u64), ToolError>(e)),
            Ok(chunk) => scan_goes_on(
                r,
                gather_all(gathered(scan), chunk.rows@),
                chunk.rows@,
                chunk.more,
                family_exhausted(cf_name@),
            ),
        },
{
    let body = match chunk {
        Ok(body) => body,
        Err(e) => {
            return FamilyStep::Done(Err(e));
        },
    };
    let more = body.more;
    let ghost rows = body.rows@;
    let ghost all = gather_all(gathered(scan), rows);
    let total: usize = body.rows.len();
    let start: Vec<u8> = if total == 0 {
        Vec::new()
    } else {
        key_after(body.rows[total - 1].key.as_slice())
    };
    let mut out: Vec<T> = scan.out;
    let mut scanned: u64 = scan.scanned_rows;
    assert(rows.skip(0) =~= rows);
    for row in it: body.rows
        invariant
            it.seq() == rows,
            chunk matches Ok(c) && c.rows@ == rows && c.more == more,
            all == gather_all(gathered(scan), rows),
            rows.len() <= SCAN_CHUNK_ROWS,
            scanned == scan.scanned_rows + it.index(),
            scan.scanned_rows < MAX_SCAN_ROWS_PER_CALL,
            all == gather_all(
                Gathered { out: out@, scanned: scanned as nat, ended: false, error: None },
                rows.skip(it.index() as int),
            ),
    {
        proof {
            reveal_with_fuel(gather_all, 2);
            let i = it.index() as int;
            assert(rows.skip(i)[0] == rows[i]);
            assert(rows.skip(i).drop_first() =~= rows.skip(i + 1));
        }
        scanned = scanned + 1;
        match row.decoded {
            Err(e) => {
                return FamilyStep::Done(Err(e));
            },
            Ok(record) => {
                out.push(record);
            },
        }
    }
    assert(rows.skip(rows.len() as int) =~= Seq::empty());
    if total == 0 || !more {
        return FamilyStep::Done(Ok((out, scanned)));
    }
    if scanned >= MAX_SCAN_ROWS_PER_CALL as u64 {
        return FamilyStep::Done(Err(exhausted_family(cf_name)));
    }
    FamilyStep::Read(FamilyScan { out, scanned_rows: scanned, start })
}

/// A mined routine as the snapshot sees it: what is checked of it, and the rest of it.
#[derive(Debug, PartialEq, Eq)]
pub struct RoutineRecord<T> {
    pub record_version: u32,
    pub routine_id: String,
    pub body: T,
}

/// The operator's decision on a routine.
#[derive(Debug, PartialEq, Eq)]
pub struct RoutineStateRecord {
    pub record_version: u32,
    pub routine_id: String,
    pub lifecycle: RoutineLifecycle,
    pub label: Option<String>,
}

/// What is wrong with a row that holds the record of another version or another routine.
pub open spec fn row_mismatch(
    tag: Seq<char>,
    cf_name: Seq<char>,
    key_id: Seq<char>,
    version: u32,
    supported: Seq<char>,
    is_supported: bool,
    record_id: Seq<char>,
) -> Option<ErrorView> {
    if !is_supported {
        Some(
            ErrorView {
                code: STORAGE_CORRUPTED@,
                message: tag + "_VERSION_UNSUPPORTED in "@ + cf_name + " at "@ + key_id
                    + ": record_version "@ + decimal(version as nat) + " (this binary supports "@
                    + supported + ")"@,
            },
        )
    } else if record_id != key_id {
        Some(
            ErrorView {
                code: STORAGE_CORRUPTED@,
                message: tag + "_ID_MISMATCH in "@ + cf_name + ": row key "@ + key_id
                    + " holds a record claiming routine_id "@ + record_id,
            },
        )
    } else {
        None
    }
}

fn check_row(
    tag: &str,
    cf_name: &str,
    key_id: &str,
    version: u32,
    supported: &str,
    is_supported: bool,
    record_id: &str,
) -> (r: Result<(), ToolError>)
    ensures
        match r {
            Ok(_) => row_mismatch(
                tag@,
                cf_name@,
                key_id@,
                version,
                supported@,
                is_supported,
                record_id@,
            ) is None,
            Err(e) => row_mismatch(
                tag@,
                cf_name@,
                key_id@,
                version,
                supported@,
                is_supported,
                record_id@,
            ) == Some(e@),
        },
{
    if !is_supported {
        let digits = decimal_text(version as u64);
        let head = cat5(tag, "_VERSION_UNSUPPORTED in ", cf_name, " at ", key_id);
        let message = crate::text::cat6(
            head.as_str(),
            ": record_version ",
            digits.as_str(),
            " (this binary supports ",
            supported,
            ")",
        );
        return Err(mcp_error(STORAGE_CORRUPTED, message));
    }
    if !text_equal(record_id, key_id) {
        let head = cat5(tag, "_ID_MISMATCH in ", cf_name, ": row key ", key_id);
        let message = cat3(head.as_str(), " holds a record claiming routine_id ", record_id);
        return Err(mcp_error(STORAGE_CORRUPTED, message));
    }
    Ok(())
}

/// Why a routine row cannot be used, if it cannot.
pub open spec fn routine_row_error<T>(
    key: Seq<u8>,
    key_id: Result<String, String>,
    value: Result<RoutineRecord<T>, String>,
) -> Option<ErrorView> {
    match (key_id, value) {
        (Err(detail), _) => Some(
            ErrorView {
                code: STORAGE_READ_FAILED@,
                message: "ROUTINE_KEY_INVALID in CF_ROUTINES at "@ + hex_of(key) + ": "@ + detail@
                    + "; CF_ROUTINES is derived state \u{2014} re-run routine_mine"@,
            },
        ),
        (Ok(id), Err(detail)) => Some(
            ErrorView {
                code: STORAGE_CORRUPTED@,
                message: "ROUTINE_ROW_DECODE_FAILED in CF_ROUTINES at "@ + id@ + ": "@ + detail@
                    + "; CF_ROUTINES is derived state \u{2014} re-run routine_mine"@,
            },
        ),
        (Ok(id), Ok(record)) => row_mismatch(
            "ROUTINE"@,
            "CF_ROUTINES"@,
            id@,
            record.record_version,
            "1"@,
            record.record_version == ROUTINE_RECORD_VERSION,
            record.routine_id@,
        ),
    }
}

/// Checks one routine row: its key must name a routine, and its record must be of the version
/// understood and of that routine.
pub fn decode_routine_row<T>(
    key: &[u8],
    key_id: Result<String, String>,
    value: Result<RoutineRecord<T>, String>,
) -> (r: Result<RoutineRecord<T>, ToolError>)
    ensures
        match r {
            Ok(record) => routine_row_error(key@, key_id, value) is None && value == Ok::<
                RoutineRecord<T>,
                String,
            >(record),
            Err(e) => routine_row_error(key@, key_id, value) == Some(e@),
        },
{
    let id = match key_id {
        Ok(id) => id,
        Err(detail) => {
            let place = hex_encode(key);
            return Err(
                mcp_error(
                    STORAGE_READ_FAILED,
                    cat5(
                        "ROUTINE_KEY_INVALID in CF_ROUTINES at ",
                        place.as_str(),
                        ": ",
                        detail.as_str(),
                        "; CF_ROUTINES is derived state \u{2014} re-run routine_mine",
                    ),
                ),
            );
        },
    };
    let record = match value {
        Ok(record) => record,
        Err(detail) => {
            return Err(
                mcp_error(
                    STORAGE_CORRUPTED,
                    cat5(
                        "ROUTINE_ROW_DECODE_FAILED in CF_ROUTINES at ",
                        id.as_str(),
                        ": ",
                        detail.as_str(),
                        "; CF_ROUTINES is derived state \u{2014} re-run routine_mine",
                    ),
                ),
            );
        },
    };
    match check_row(
        "ROUTINE",
        "CF_ROUTINES",
        id.as_str(),
        record.record_version,
        "1",
        record.record_version == ROUTINE_RECORD_VERSION,
        record.routine_id.as_str(),
    ) {
        Ok(()) => Ok(record),
        Err(e) => Err(e),
    }
}

/// Why a routine state row cannot be used, if it cannot.
pub open spec fn state_row_error(
    key: Seq<u8>,
    key_id: Result<String, String>,
    value: Result<RoutineStateRecord, String>,
) -> Option<ErrorView> {
    match (key_id, value) {
        (Err(detail), _) => Some(
            ErrorView {
                code: STORAGE_READ_FAILED@,
                message: "ROUTINE_STATE_KEY_INVALID in CF_ROUTINE_STATE at "@ + hex_of(key) + ": "@
                    + detail@,
            },
        ),
        (Ok(id), Err(detail)) => Some(
            ErrorView {
                code: STORAGE_CORRUPTED@,
                message: "ROUTINE_STATE_ROW_DECODE_FAILED in CF_ROUTINE_STATE at "@ + id@ + ": "@
                    + detail@,
            },
        ),
        (Ok(id), Ok(record)) => row_mismatch(
            "ROUTINE_STATE"@,
            "CF_ROUTINE_STATE"@,
            id@,
            record.record_version,
            "2"@,
            record.record_version == ROUTINE_STATE_RECORD_VERSION,
            record.routine_id@,
        ),
    }
}

/// Checks one routine state row.
pub fn decode_state_row(
    key: &[u8],
    key_id: Result<String, String>,
    value: Result<RoutineStateRecord, String>,
) -> (r: Result<RoutineStateRecord, ToolError>)
    ensures
        match r {
            Ok(record) => state_row_error(key@, key_id, value) is None && value == Ok::<
                RoutineStateRecord,
                String,
            >(record),
            Err(e) => state_row_error(key@, key_id, value) == Some(e@),
        },
{
    let id = match key_id {
        Ok(id) => id,
        Err(detail) => {
            let place = hex_encode(key);
            return Err(
                mcp_error(
                    STORAGE_READ_FAILED,
                    cat4(
                        "ROUTINE_STATE_KEY_INVALID in CF_ROUTINE_STATE at ",
                        place.as_str(),
                        ": ",
                        detail.as_str(),
                    ),
                ),
            );
        },
    };
    let record = match value {
        Ok(record) => record,
        Err(detail) => {
            return Err(
                mcp_error(
                    STORAGE_CORRUPTED,
                    cat4(
                        "ROUTINE_STATE_ROW_DECODE_FAILED in CF_ROUTINE_STATE at ",
                        id.as_str(),
                        ": ",
                        detail.as_str(),
                    ),
                ),
            );
        },
    };
    match check_row(
        "ROUTINE_STATE",
        "CF_ROUTINE_STATE",
        id.as_str(),
        record.record_version,
        "2",
        record.record_version == ROUTINE_STATE_RECORD_VERSION,
        record.routine_id.as_str(),
    ) {
        Ok(()) => Ok(record),
        Err(e) => Err(e),
    }
}

// ---------------------------------------------------------------------------------------------
// Joining and reporting
// ---------------------------------------------------------------------------------------------

/// A routine as it is handed to the matcher.
#[derive(Debug, PartialEq, Eq)]
pub struct RoutineForMatch<T> {
    pub record: RoutineRecord<T>,
    pub lifecycle: RoutineLifecycle,
    pub label: Option<String>,
}

/// The state of a routine: the last row that names it.
pub open spec fn state_of(
    states: Seq<RoutineStateRecord>,
    routine_id: Seq<char>,
) -> Option<RoutineStateRecord>
    decreases states.len(),
{
    if states.len() == 0 {
        None
    } else if states.last().routine_id@ == routine_id {
        Some(states.last())
    } else {
        state_of(states.drop_last(), routine_id)
    }
}

/// A routine joined with its state; one without a state is an unreviewed candidate.
pub open spec fn joins<T>(
    joined: RoutineForMatch<T>,
    record: RoutineRecord<T>,
    states: Seq<RoutineStateRecord>,
) -> bool {
    &&& joined.record == record
    &&& match state_of(states, record.routine_id@) {
        Some(state) => joined.lifecycle == state.lifecycle && optional_view(joined.label)
            == optional_view(state.label),
        None => joined.lifecycle is Candidate && joined.label is None,
    }
}

fn find_state(states: &Vec<RoutineStateRecord>, routine_id: &str) -> (r: Option<usize>)
    ensures
        match r {
            Some(i) => i < states@.len() && state_of(states@, routine_id@) == Some(
                states@[i as int],
            ),
            None => state_of(states@, routine_id@) is None,
        },
{
    let mut n: usize = states.len();
    assert(states@.subrange(0, n as int) =~= states@);
    while n > 0
        invariant
            n <= states@.len(),
            state_of(states@, routine_id@) == state_of(
                states@.subrange(0, n as int),
                routine_id@,
            ),
        decreases n,
    {
        proof {
            assert(states@.subrange(0, n as int).last() == states@[n - 1]);
            assert(states@.subrange(0, n as int).drop_last() =~= states@.subrange(0, n - 1));
        }
        if text_equal(states[n - 1].routine_id.as_str(), routine_id) {
            return Some(n - 1);
        }
        n -= 1;
    }
    assert(states@.subrange(0, 0) =~= Seq::empty());
    None
}

/// Joins every routine with its state.
pub fn join_states<T>(routines: Vec<RoutineRecord<T>>, states: &Vec<RoutineStateRecord>) -> (r: Vec<
    RoutineForMatch<T>,
>)
    ensures
        r@.len() == routines@.len(),
        forall|i: int| 0 <= i < r@.len() ==> joins(#[trigger] r@[i], routines@[i], states@),
{
    let ghost all = routines@;
    let mut out: Vec<RoutineForMatch<T>> = Vec::new();
    for record in it: routines
        invariant
            it.seq() == all,
            out@.len() == it.index(),
            forall|i: int| 0 <= i < out@.len() ==> joins(#[trigger] out@[i], all[i], states@),
    {
        let joined = match find_state(states, record.routine_id.as_str()) {
            Some(i) => RoutineForMatch {
                record,
                lifecycle: states[i].lifecycle,
                label: clone_optional(&states[i].label),
            },
            None => RoutineForMatch {
                record,
                lifecycle: RoutineLifecycle::Candidate,
                label: None,
            },
        };
        out.push(joined);
    }
    out
}

/// What was read for a snapshot.
#[derive(Clone, Copy, Debug, PartialEq, Eq, Structural)]
pub struct SnapshotCounts {
    pub mined_routines: usize,
    pub state_rows: usize,
    pub evaluated_routines: usize,
    pub considered_episodes: usize,
    pub scanned_rows: u64,
}

/// Joins every routine with its state, and counts what was read for the snapshot.
pub fn join_and_count<T, E>(
    mined: Vec<RoutineRecord<T>>,
    states: &Vec<RoutineStateRecord>,
    episodes: &Vec<EpisodeRecord<E>>,
    scanned_rows: u64,
) -> (r: (Vec<RoutineForMatch<T>>, SnapshotCounts))
    ensures
        r.0@.len() == mined@.len(),
        forall|i: int| 0 <= i < r.0@.len() ==> joins(#[trigger] r.0@[i], mined@[i], states@),
        r.1 == (SnapshotCounts {
            mined_routines: mined.len(),
            state_rows: states.len(),
            evaluated_routines: r.0.len(),
            considered_episodes: episodes.len(),
            scanned_rows,
        }),
{
    let mined_routines: usize = mined.len();
    let joined = join_states(mined, states);
    let counts = SnapshotCounts {
        mined_routines,
        state_rows: states.len(),
        evaluated_routines: joined.len(),
        considered_episodes: episodes.len(),
        scanned_rows,
    };
    (joined, counts)
}

/// Reports a snapshot: what the matcher found, or that it failed.
pub fn current_intents<S, E>(
    plan: &SnapshotPlan,
    counts: &SnapshotCounts,
    found: Result<Vec<IntentCandidate<S, E>>, String>,
) -> (r: Result<IntentCurrentResponse<S, E>, ToolError>)
    ensures
        match found {
            Err(detail) => r matches Err(e) && e@ == internal_error(
                "intent_current matcher failed: "@ + detail@,
            ),
            Ok(candidates) => r == Ok::<IntentCurrentResponse<S, E>, ToolError>(
                IntentCurrentResponse {
                    candidates,
                    now: plan.now,
                    window_start_ns: plan.window_start_ns,
                    total_mined_routines: counts.mined_routines as u64,
                    total_state_rows: counts.state_rows as u64,
                    evaluated_routines: counts.evaluated_routines as u64,
                    considered_episodes: counts.considered_episodes as u64,
                    scanned_rows: counts.scanned_rows,
                },
            ),
        },
{
    match found {
        Err(detail) => Err(internal(cat2("intent_current matcher failed: ", detail.as_str()))),
        Ok(candidates) => Ok(
            IntentCurrentResponse {
                candidates,
                now: plan.now,
                window_start_ns: plan.window_start_ns,
                total_mined_routines: counts.mined_routines as u64,
                total_state_rows: counts.state_rows as u64,
                evaluated_routines: counts.evaluated_routines as u64,
                considered_episodes: counts.considered_episodes as u64,
                scanned_rows: counts.scanned_rows,
            },
        ),
    }
}

// ---------------------------------------------------------------------------------------------
// Laws
// ---------------------------------------------------------------------------------------------

/// The window of a snapshot ends at its instant and is no longer than the lookback asked for, and
/// its clock context is one of a day.
pub proof fn law_window_ends_now(
    params: IntentCurrentParams,
    printed: Seq<char>,
    now_ts: u64,
    weekday: u8,
    day_start: u64,
)
    requires
        snapshot_params_error(params, printed) is None,
    ensures
        ({
            let plan = plan_of(params, now_ts, weekday, day_start);
            &&& plan.window_start_ns <= plan.now.ts_ns
            &&& plan.now.ts_ns - plan.window_start_ns <= lookback_of(params) * 3_600_000_000_000
            &&& lookback_of(params) <= 168
            &&& plan.now.minute_of_day < 1440
            &&& 1 <= plan.config.max_candidates <= 50
        }),
{
}

/// Every gathered episode begins in the window, and a scan that was not ended counts every row.
pub proof fn law_gathered_episodes_lie_in_window<T>(
    state: Gathered<EpisodeRecord<T>>,
    rows: Seq<FamilyRow<EpisodeRecord<T>>>,
    window_start_ns: u64,
    now_ts_ns: u64,
)
    requires
        forall|i: int|
            0 <= i < state.out.len() ==> in_window(
                #[trigger] state.out[i],
                window_start_ns,
                now_ts_ns,
            ),
    ensures
        ({
            let after = gather_episodes(state, rows, window_start_ns, now_ts_ns);
            &&& forall|i: int|
                0 <= i < after.out.len() ==> in_window(
                    #[trigger] after.out[i],
                    window_start_ns,
                    now_ts_ns,
                )
            &&& !after.ended ==> after.scanned == state.scanned + rows.len()
            &&& after.scanned <= state.scanned + rows.len()
        }),
    decreases rows.len(),
{
    if rows.len() > 0 && !state.ended {
        let seen = Gathered { scanned: state.scanned + 1, ..state };
        let next = match rows[0].decoded {
            Err(e) => Gathered { ended: true, error: Some(e@), ..seen },
            Ok(episode) => if episode.key_ts_ns > now_ts_ns {
                Gathered { ended: true, ..seen }
            } else if in_window(episode, window_start_ns, now_ts_ns) {
                Gathered { out: state.out.push(episode), ..seen }
            } else {
                seen
            },
        };
        law_gathered_episodes_lie_in_window(next, rows.drop_first(), window_start_ns, now_ts_ns);
    }
}

/// Scanning a column family is all or nothing: it gathers every row, in order, or reports an error.
pub proof fn law_family_scan_skips_nothing<T>(state: Gathered<T>, rows: Seq<FamilyRow<T>>)
    requires
        !state.ended,
        state.error is None,
    ensures
        ({
            let after = gather_all(state, rows);
            after.error is Some || {
                &&& after.out.len() == state.out.len() + rows.len()
                &&& state.out.is_prefix_of(after.out)
                &&& forall|i: int|
                    0 <= i < rows.len() ==> (#[trigger] rows[i]).decoded == Ok::<T, ToolError>(
                        after.out[state.out.len() + i],
                    )
                &&& !after.ended
                &&& after.scanned == state.scanned + rows.len()
            }
        }),
    decreases rows.len(),
{
    reveal_with_fuel(gather_all, 2);
    if rows.len() > 0 {
        let seen = Gathered { scanned: state.scanned + 1, ..state };
        match rows[0].decoded {
            Err(_) => {},
            Ok(record) => {
                let next = Gathered { out: state.out.push(record), ..seen };
                law_family_scan_skips_nothing(next, rows.drop_first());
                let after = gather_all(state, rows);
                if after.error is None {
                    assert(after.out[state.out.len() as int] == next.out[state.out.len() as int]);
                    assert(state.out =~= after.out.subrange(0, state.out.len() as int));
                    assert forall|i: int| 0 <= i < rows.len() implies (
                    #[trigger] rows[i]).decoded == Ok::<T, ToolError>(
                        after.out[state.out.len() + i],
                    ) by {
                        if i > 0 {
                            assert(rows.drop_first()[i - 1] == rows[i]);
                        }
                    }
                }
            },
        }
    }
}

/// How far a snapshot looks back: exactly as many hours as the caller asks for, six where the caller
/// does not say, and no further than the epoch.
pub proof fn law_snapshots_look_back_as_asked(
    params: IntentCurrentParams,
    now_ts: u64,
    weekday: u8,
    day_start: u64,
)
    ensures
        ({
            let plan = plan_of(params, now_ts, weekday, day_start);
            &&& params.lookback_hours matches Some(h) ==> {
                &&& h * 3_600_000_000_000 <= now_ts ==> plan.now.ts_ns - plan.window_start_ns == h
                    * 3_600_000_000_000
                &&& h * 3_600_000_000_000 > now_ts ==> plan.window_start_ns == 0
            }
            &&& params.lookback_hours is None ==> {
                &&& 21_600_000_000_000 <= now_ts ==> plan.now.ts_ns - plan.window_start_ns
                    == 21_600_000_000_000
                &&& 21_600_000_000_000 > now_ts ==> plan.window_start_ns == 0
            }
            &&& plan.now.ts_ns == now_ts
            &&& plan.now.weekday == weekday
            &&& day_start <= now_ts && now_ts - day_start < 86_400_000_000_000
                ==> plan.now.minute_of_day == (now_ts - day_start) / 60_000_000_000
        }),
{
}

/// How the matcher is run: with the caller's least confidence, nothing by default; the caller's number
/// of candidates, ten by default; and over the activity of agents where the caller asks for it.
pub proof fn law_matcher_runs_as_asked(
    params: IntentCurrentParams,
    now_ts: u64,
    weekday: u8,
    day_start: u64,
)
    ensures
        ({
            let config = plan_of(params, now_ts, weekday, day_start).config;
            &&& params.max_candidates matches Some(n) ==> config.max_candidates == n
            &&& params.max_candidates is None ==> config.max_candidates == 10
            &&& params.min_confidence matches Some(c) ==> config.min_combined_confidence == c
            &&& params.min_confidence is None ==> config.min_combined_confidence.bits == 0
            &&& config.include_agent_activity == params.include_agent_activity
        }),
{
}

/// The instant of a snapshot is the caller's, or that of the host.
pub proof fn law_snapshots_are_of_the_callers_instant(
    params: IntentCurrentParams,
    host_now_ns: u64,
)
    ensures
        params.now_ts_ns matches Some(now) ==> snapshot_now(params, host_now_ns) == now,
        params.now_ts_ns is None ==> snapshot_now(params, host_now_ns) == host_now_ns,
{
}

/// Which snapshots are refused: those that look back less than an hour or more than a week, ask for no
/// candidate or more than fifty, or for a confidence that is no number from zero to one.
pub proof fn law_snapshots_are_refused_for_a_reason(
    params: IntentCurrentParams,
    printed: Seq<char>,
)
    ensures
        snapshot_params_error(params, printed) is None <==> {
            &&& params.lookback_hours matches Some(h) ==> 1 <= h <= 168
            &&& params.max_candidates matches Some(n) ==> 1 <= n <= 50
            &&& params.min_confidence matches Some(c) ==> c.bits <= 0x3ff0_0000_0000_0000 || c.bits
                == 0x8000_0000_0000_0000
        },
{
}

/// Asking for every candidate asks for fifty however weak ones, of the operator alone, at the instant
/// and over the hours given.
pub proof fn law_every_candidate_is_asked_for(now: u64, lookback_hours: Option<u32>)
    ensures
        ({
            let r = every_candidate(now, lookback_hours);
            &&& r.now_ts_ns == Some(now)
            &&& r.lookback_hours == lookback_hours
            &&& r.max_candidates == Some(50u32)
            &&& r.min_confidence matches Some(c) && c.bits == 0
            &&& !r.include_agent_activity
        }),
{
}

/// Which episodes are gathered: of the rows before the first whose key lies behind the instant, each
/// that began in the window, both ends included, in order; a row that cannot be read fails the
/// gathering.
pub proof fn law_episodes_of_the_window_are_gathered<T>(
    state: Gathered<EpisodeRecord<T>>,
    rows: Seq<FamilyRow<EpisodeRecord<T>>>,
    window_start_ns: u64,
    now_ts_ns: u64,
)
    requires
        !state.ended,
        state.error is None,
        forall|i: int|
            0 <= i < rows.len() ==> (#[trigger] rows[i]).decoded is Ok
                && rows[i].decoded->Ok_0.key_ts_ns <= now_ts_ns,
    ensures
        ({
            let after = gather_episodes(state, rows, window_start_ns, now_ts_ns);
            &&& !after.ended
            &&& after.error is None
            &&& after.scanned == state.scanned + rows.len()
            &&& after.out == state.out + rows.map_values(
                |row: FamilyRow<EpisodeRecord<T>>| row.decoded->Ok_0,
            ).filter(
                |e: EpisodeRecord<T>| window_start_ns <= e.start_ts_ns && e.start_ts_ns
                    <= now_ts_ns,
            )
        }),
    decreases rows.len(),
{
    reveal(Seq::filter);
    reveal_with_fuel(gather_episodes, 2);
    let decoded = |row: FamilyRow<EpisodeRecord<T>>| row.decoded->Ok_0;
    let wanted = |e: EpisodeRecord<T>| window_start_ns <= e.start_ts_ns && e.start_ts_ns
        <= now_ts_ns;
    let all = rows.map_values(decoded);
    if rows.len() == 0 {
        all.lemma_filter_len(wanted);
        assert(all.filter(wanted) =~= Seq::empty());
        assert(state.out + all.filter(wanted) =~= state.out);
    } else {
        let rest = rows.drop_first();
        let episode = rows[0].decoded->Ok_0;
        let seen = Gathered { scanned: state.scanned + 1, ..state };
        let next = if wanted(episode) {
            Gathered { out: state.out.push(episode), ..seen }
        } else {
            seen
        };
        assert forall|i: int| 0 <= i < rest.len() implies (#[trigger] rest[i]).decoded is Ok
            && rest[i].decoded->Ok_0.key_ts_ns <= now_ts_ns by {
            assert(rest[i] == rows[i + 1]);
        }
        law_episodes_of_the_window_are_gathered(next, rest, window_start_ns, now_ts_ns);
        let first = seq![episode];
        assert(all =~= first + rest.map_values(decoded));
        Seq::filter_distributes_over_add(first, rest.map_values(decoded), wanted);
        assert(first.drop_last() =~= Seq::empty());
        first.drop_last().lemma_filter_len(wanted);
        assert(first.drop_last().filter(wanted) =~= Seq::empty());
        assert(first.filter(wanted) =~= if wanted(episode) {
            first
        } else {
            Seq::empty()
        });
        assert(state.out + all.filter(wanted) =~= next.out + rest.map_values(decoded).filter(
            wanted,
        ));
    }
}

/// The gathering ends without an error at a key behind the instant, and with its error at a row that
/// cannot be read; neither adds an episode.
pub proof fn law_gathering_ends_behind_the_instant<T>(
    state: Gathered<EpisodeRecord<T>>,
    rows: Seq<FamilyRow<EpisodeRecord<T>>>,
    window_start_ns: u64,
    now_ts_ns: u64,
)
    requires
        !state.ended,
        rows.len() > 0,
    ensures
        ({
            let after = gather_episodes(state, rows, window_start_ns, now_ts_ns);
            &&& rows[0].decoded is Ok && rows[0].decoded->Ok_0.key_ts_ns > now_ts_ns ==> after.ended
                && after.error == state.error && after.out == state.out && after.scanned
                == state.scanned + 1
            &&& rows[0].decoded matches Err(e) ==> after.ended && after.error == Some(e@)
                && after.out == state.out
        }),
{
    reveal_with_fuel(gather_episodes, 2);
}

/// A mined routine is taken where its key and its record could be read, the record is of version one,
/// and it is filed under its own id; a state likewise, of version two.
pub proof fn law_rows_are_checked<T>(
    key: Seq<u8>,
    key_id: Result<String, String>,
    routine: Result<RoutineRecord<T>, String>,
    state: Result<RoutineStateRecord, String>,
)
    ensures
        routine_row_error(key, key_id, routine) is None <==> (key_id matches Ok(id) && (
        routine matches Ok(record) && record.record_version == 1 && record.routine_id@ == id@)),
        state_row_error(key, key_id, state) is None <==> (key_id matches Ok(id) && (
        state matches Ok(record) && record.record_version == 2 && record.routine_id@ == id@)),
{
}

/// A routine is joined with the last state that is filed for it, whose lifecycle and label it takes; one
/// without a state is a candidate without a label.
pub proof fn law_routines_take_their_last_state<T>(
    joined: RoutineForMatch<T>,
    record: RoutineRecord<T>,
    states: Seq<RoutineStateRecord>,
    at: int,
)
    requires
        joins(joined, record, states),
    ensures
        joined.record == record,
        0 <= at < states.len() && states[at].routine_id@ == record.routine_id@ && (forall|j: int|
            at < j < states.len() ==> (#[trigger] states[j]).routine_id@ != record.routine_id@)
            ==> joined.lifecycle == states[at].lifecycle && optional_view(joined.label)
            == optional_view(states[at].label),
        (forall|j: int|
            0 <= j < states.len() ==> (#[trigger] states[j]).routine_id@ != record.routine_id@)
            ==> joined.lifecycle == RoutineLifecycle::Candidate && joined.label is None,
{
    if 0 <= at < states.len() && states[at].routine_id@ == record.routine_id@ && (forall|j: int|
        at < j < states.len() ==> (#[trigger] states[j]).routine_id@ != record.routine_id@) {
        lemma_last_state(states, record.routine_id@, at);
    }
    if forall|j: int|
        0 <= j < states.len() ==> (#[trigger] states[j]).routine_id@ != record.routine_id@ {
        lemma_no_state(states, record.routine_id@);
    }
}

proof fn lemma_last_state(states: Seq<RoutineStateRecord>, routine_id: Seq<char>, at: int)
    requires
        0 <= at < states.len(),
        states[at].routine_id@ == routine_id,
        forall|j: int|
            at < j < states.len() ==> (#[trigger] states[j]).routine_id@ != routine_id,
    ensures
        state_of(states, routine_id) == Some(states[at]),
    decreases states.len(),
{
    if at < states.len() - 1 {
        assert(states.last().routine_id@ != routine_id);
        lemma_last_state(states.drop_last(), routine_id, at);
    }
}

proof fn lemma_no_state(states: Seq<RoutineStateRecord>, routine_id: Seq<char>)
    requires
        forall|j: int|
            0 <= j < states.len() ==> (#[trigger] states[j]).routine_id@ != routine_id,
    ensures
        state_of(states, routine_id) is None,
    decreases states.len(),
{
    if states.len() > 0 {
        assert(states[states.len() - 1].routine_id@ != routine_id);
        lemma_no_state(states.drop_last(), routine_id);
    }
}

/// A scan is never cut short in silence: where rows remain behind two hundred thousand it fails, and
/// otherwise it goes on right behind the last row, or ends with all it gathered.
pub proof fn law_scans_are_never_cut_short_in_silence<T>(
    step: FamilyStep<T>,
    after: Gathered<T>,
    rows: Seq<FamilyRow<T>>,
    more: bool,
    exhausted: ErrorView,
)
    requires
        scan_goes_on(step, after, rows, more, exhausted),
        after.error is None,
        !after.ended,
        rows.len() > 0,
    ensures
        !more ==> (step matches FamilyStep::Done(Ok(done)) && done.0@ == after.out && done.1
            == after.scanned),
        more && after.scanned >= 200_000 ==> (step matches FamilyStep::Done(Err(e)) && e@
            == exhausted),
        more && after.scanned < 200_000 ==> (step matches FamilyStep::Read(next) && next.out@
            == after.out && next.scanned_rows == after.scanned && next.start@
            == rows[rows.len() - 1].key@ + seq![0u8]),
{
    assert(rows.last().key@.push(0) =~= rows[rows.len() - 1].key@ + seq![0u8]);
}

/// What a snapshot is planned as: at the caller's instant or the host's, looking back exactly as many
/// hours as the caller asks for, or six, but not beyond the epoch; with the caller's confidence, number
/// and agents. It is refused where the lookback is not from one hour to a week, the number not from one
/// to fifty, the confidence no fraction, or the instant or its day cannot be told.
pub proof fn law_snapshots_are_planned_as_asked(
    params: &IntentCurrentParams,
    printed: &str,
    host_now_ns: u64,
    day_start: Result<u64, ToolError>,
    r: Result<SnapshotPlan, ToolError>,
)
    requires
        call_ensures(plan_snapshot, (params, printed, host_now_ns, day_start), r),
    ensures
        ({
            let now = match params.now_ts_ns {
                Some(given) => given,
                None => host_now_ns,
            };
            let sound = (params.lookback_hours matches Some(h) ==> 1 <= h <= 168) && (
            params.max_candidates matches Some(n) ==> 1 <= n <= 50) && (
            params.min_confidence matches Some(c) ==> c.bits <= 0x3ff0_0000_0000_0000 || c.bits
                == 0x8000_0000_0000_0000);
            &&& (r is Ok <==> sound && now <= 0x7fff_ffff_ffff_ffff && day_start is Ok)
            &&& (r is Ok ==> {
                let plan = r->Ok_0;
                &&& plan.now.ts_ns == now
                &&& (params.lookback_hours matches Some(h) ==> (h * 3_600_000_000_000 <= now
                    ==> now - plan.window_start_ns == h * 3_600_000_000_000) && (h
                    * 3_600_000_000_000 > now ==> plan.window_start_ns == 0))
                &&& (params.lookback_hours is None && 21_600_000_000_000 <= now ==> now
                    - plan.window_start_ns == 21_600_000_000_000)
                &&& (day_start->Ok_0 <= now && now - day_start->Ok_0 < 86_400_000_000_000
                    ==> plan.now.minute_of_day == (now - day_start->Ok_0) / 60_000_000_000)
                &&& (params.max_candidates matches Some(n) ==> plan.config.max_candidates == n)
                &&& (params.max_candidates is None ==> plan.config.max_candidates == 10)
                &&& (params.min_confidence matches Some(c) ==> plan.config.min_combined_confidence
                    == c)
                &&& (params.min_confidence is None ==> plan.config.min_combined_confidence.bits
                    == 0)
                &&& plan.config.include_agent_activity == params.include_agent_activity
                &&& plan.now.weekday <= 6
                &&& is_near_weekday(plan.now.weekday as int, now as int)
            })
        }),
{
    law_snapshots_are_refused_for_a_reason(*params, printed@);
}

/// The instant and its minute: counted from the beginning of its day, on its weekday.
pub proof fn law_instants_have_their_minute(
    ts_ns: u64,
    weekday: u8,
    day_start: u64,
    fixed: NowEcho,
    r: Result<NowEcho, ToolError>,
)
    requires
        call_ensures(now_context_on, (ts_ns, weekday, day_start), fixed),
        call_ensures(now_context, (ts_ns, Ok::<u64, ToolError>(day_start)), r),
        day_start <= ts_ns,
        ts_ns - day_start < 86_400_000_000_000,
    ensures
        fixed.ts_ns == ts_ns && fixed.weekday == weekday,
        fixed.minute_of_day == (ts_ns - day_start) / 60_000_000_000,
        r is Ok <==> ts_ns <= 0x7fff_ffff_ffff_ffff,
        r is Ok ==> (r->Ok_0).ts_ns == ts_ns && (r->Ok_0).minute_of_day == fixed.minute_of_day,
{
}

/// What a chunk of episodes adds: where every row can be read and none lies behind the instant, each
/// episode that began in the window, in order. The scan then ends where nothing is left, fails behind
/// two hundred thousand rows, and otherwise goes on right behind the last row.
pub proof fn law_recent_episodes_are_gathered<T>(
    scan: FamilyScan<EpisodeRecord<T>>,
    chunk: FamilyChunk<EpisodeRecord<T>>,
    window_start_ns: u64,
    now_ts_ns: u64,
    r: FamilyStep<EpisodeRecord<T>>,
)
    requires
        scan.scanned_rows < 200_000,
        call_ensures(
            recent_episodes::<T>,
            (
                scan,
                Ok::<FamilyChunk<EpisodeRecord<T>>, ToolError>(chunk),
                window_start_ns,
                now_ts_ns,
            ),
            r,
        ),
        forall|i: int|
            0 <= i < chunk.rows@.len() ==> (#[trigger] chunk.rows@[i]).decoded is Ok
                && chunk.rows@[i].decoded->Ok_0.key_ts_ns <= now_ts_ns,
    ensures
        ({
            let out = scan.out@ + chunk.rows@.map_values(
                |row: FamilyRow<EpisodeRecord<T>>| row.decoded->Ok_0,
            ).filter(
                |e: EpisodeRecord<T>| window_start_ns <= e.start_ts_ns && e.start_ts_ns
                    <= now_ts_ns,
            );
            let total = scan.scanned_rows + chunk.rows@.len();
            let over = chunk.rows@.len() == 0 || !chunk.more;
            &&& (over ==> r is Done && r->Done_0 is Ok && r->Done_0->Ok_0.0@ == out
                && r->Done_0->Ok_0.1 == total)
            &&& (!over && total >= 200_000 ==> r is Done && r->Done_0 is Err)
            &&& (!over && total < 200_000 ==> r is Read && r->Read_0.out@ == out
                && r->Read_0.scanned_rows == total && r->Read_0.start@
                == chunk.rows@.last().key@.push(0))
        }),
{
    law_episodes_of_the_window_are_gathered(
        gathered(scan),
        chunk.rows@,
        window_start_ns,
        now_ts_ns,
    );
}

/// A scan of episodes ends with what it has at the first key behind the instant, and with the error at a
/// row or a chunk that cannot be read.
pub proof fn law_recent_episodes_end_for_a_reason<T>(
    scan: FamilyScan<EpisodeRecord<T>>,
    chunk: Result<FamilyChunk<EpisodeRecord<T>>, ToolError>,
    window_start_ns: u64,
    now_ts_ns: u64,
    r: FamilyStep<EpisodeRecord<T>>,
    start: Result<Vec<u8>, ToolError>,
    first: FamilyStep<EpisodeRecord<T>>,
)
    requires
        scan.scanned_rows < 200_000,
        call_ensures(recent_episodes::<T>, (scan, chunk, window_start_ns, now_ts_ns), r),
        call_ensures(begin_episodes::<T>, (start,), first),
    ensures
        chunk is Err ==> r is Done && r->Done_0 is Err && r->Done_0->Err_0 == chunk->Err_0,
        chunk is Ok && chunk->Ok_0.rows@.len() > 0 && chunk->Ok_0.rows@[0].decoded is Err ==> r
            is Done && r->Done_0 is Err && r->Done_0->Err_0@
            == chunk->Ok_0.rows@[0].decoded->Err_0@,
        chunk is Ok && chunk->Ok_0.rows@.len() > 0 && chunk->Ok_0.rows@[0].decoded is Ok
            && chunk->Ok_0.rows@[0].decoded->Ok_0.key_ts_ns > now_ts_ns ==> r is Done && r->Done_0
            is Ok && r->Done_0->Ok_0.0@ == scan.out@,
        start is Err ==> first is Done && first->Done_0 is Err && first->Done_0->Err_0
            == start->Err_0,
        start is Ok ==> first is Read && first->Read_0.out@.len() == 0 && first->Read_0.scanned_rows
            == 0 && first->Read_0.start == start->Ok_0,
{
    if chunk is Ok && chunk->Ok_0.rows@.len() > 0 {
        law_gathering_ends_behind_the_instant(
            gathered(scan),
            chunk->Ok_0.rows@,
            window_start_ns,
            now_ts_ns,
        );
    }
}

/// A column family is loaded from its beginning, counting on from the rows read before, and every row is
/// taken, in order; a row that cannot be read fails it, and so does a chunk or too many rows.
pub proof fn law_families_are_loaded_whole<T>(
    cf_name: &str,
    scanned_rows: u64,
    first: FamilyStep<T>,
    scan: FamilyScan<T>,
    chunk: FamilyChunk<T>,
    r: FamilyStep<T>,
)
    requires
        call_ensures(begin_family::<T>, (cf_name, scanned_rows), first),
        scan.scanned_rows < 200_000,
        call_ensures(load_cf::<T>, (scan, cf_name, Ok::<FamilyChunk<T>, ToolError>(chunk)), r),
    ensures
        scanned_rows >= 200_000 ==> first is Done && first->Done_0 is Err,
        scanned_rows < 200_000 ==> first is Read && first->Read_0.out@.len() == 0
            && first->Read_0.scanned_rows == scanned_rows && first->Read_0.start@.len() == 0,
        r is Done && r->Done_0 is Ok ==> {
            let out = r->Done_0->Ok_0.0@;
            &&& out.len() == scan.out@.len() + chunk.rows@.len()
            &&& scan.out@.is_prefix_of(out)
            &&& r->Done_0->Ok_0.1 == scan.scanned_rows + chunk.rows@.len()
            &&& (chunk.rows@.len() == 0 || !chunk.more)
            &&& forall|i: int|
                0 <= i < chunk.rows@.len() ==> (#[trigger] chunk.rows@[i]).decoded == Ok::<
                    T,
                    ToolError,
                >(out[scan.out@.len() + i])
        },
        r is Read ==> {
            let out = r->Read_0.out@;
            &&& out.len() == scan.out@.len() + chunk.rows@.len()
            &&& r->Read_0.scanned_rows == scan.scanned_rows + chunk.rows@.len()
            &&& r->Read_0.scanned_rows < 200_000
            &&& chunk.more && chunk.rows@.len() > 0
            &&& r->Read_0.start@ == chunk.rows@.last().key@.push(0)
            &&& forall|i: int|
                0 <= i < chunk.rows@.len() ==> (#[trigger] chunk.rows@[i]).decoded == Ok::<
                    T,
                    ToolError,
                >(out[scan.out@.len() + i])
        },
{
    law_family_scan_skips_nothing(gathered(scan), chunk.rows@);
}

/// A row of a routine or its state is taken as it is, and refused where its key or its record cannot be
/// read, its version is another, or it is filed under another id.
pub proof fn law_rows_are_taken_as_they_are<T>(
    key: &[u8],
    key_id: Result<String, String>,
    routine: Result<RoutineRecord<T>, String>,
    state: Result<RoutineStateRecord, String>,
    r: Result<RoutineRecord<T>, ToolError>,
    s: Result<RoutineStateRecord, ToolError>,
)
    requires
        call_ensures(decode_routine_row::<T>, (key, key_id, routine), r),
        call_ensures(decode_state_row, (key, key_id, state), s),
    ensures
        r is Ok <==> key_id is Ok && routine is Ok && (routine->Ok_0).record_version == 1 && (
        routine->Ok_0).routine_id@ == key_id->Ok_0@,
        r is Ok ==> r->Ok_0 == routine->Ok_0,
        s is Ok <==> key_id is Ok && state is Ok && (state->Ok_0).record_version == 2 && (
        state->Ok_0).routine_id@ == key_id->Ok_0@,
        s is Ok ==> s->Ok_0 == state->Ok_0,
{
}

/// The routines that are matched are the mined ones, each with its last state, in order, and all of them
/// are counted, as are the states, the episodes and the rows read.
pub proof fn law_routines_are_joined_and_counted<T, E>(
    mined: Vec<RoutineRecord<T>>,
    states: &Vec<RoutineStateRecord>,
    episodes: &Vec<EpisodeRecord<E>>,
    scanned_rows: u64,
    r: (Vec<RoutineForMatch<T>>, SnapshotCounts),
    i: int,
    at: int,
)
    requires
        call_ensures(join_and_count::<T, E>, (mined, states, episodes, scanned_rows), r),
        0 <= i < mined@.len(),
    ensures
        r.0@.len() == mined@.len(),
        r.0@[i].record == mined@[i],
        0 <= at < states@.len() && states@[at].routine_id@ == mined@[i].routine_id@ && (forall|j: int|
            at < j < states@.len() ==> (#[trigger] states@[j]).routine_id@
                != mined@[i].routine_id@) ==> r.0@[i].lifecycle == states@[at].lifecycle
            && optional_view(r.0@[i].label) == optional_view(states@[at].label),
        (forall|j: int|
            0 <= j < states@.len() ==> (#[trigger] states@[j]).routine_id@
                != mined@[i].routine_id@) ==> r.0@[i].lifecycle is Candidate && r.0@[i].label
            is None,
        r.1.mined_routines == mined@.len(),
        r.1.state_rows == states@.len(),
        r.1.evaluated_routines == mined@.len(),
        r.1.considered_episodes == episodes@.len(),
        r.1.scanned_rows == scanned_rows,
{
    assert(joins(r.0@[i], mined@[i], states@));
    law_routines_take_their_last_state(r.0@[i], mined@[i], states@, at);
}

/// A snapshot tells the candidates that were found, in the order they were found in, with its instant,
/// its window and its counts; a matcher that fails fails it.
pub proof fn law_snapshots_tell_what_was_found<S, E>(
    plan: &SnapshotPlan,
    counts: &SnapshotCounts,
    found: Result<Vec<IntentCandidate<S, E>>, String>,
    r: Result<IntentCurrentResponse<S, E>, ToolError>,
)
    requires
        call_ensures(current_intents::<S, E>, (plan, counts, found), r),
    ensures
        r is Ok <==> found is Ok,
        r is Ok ==> {
            let told = r->Ok_0;
            &&& told.candidates == found->Ok_0
            &&& told.now == plan.now
            &&& told.window_start_ns == plan.window_start_ns
            &&& told.total_mined_routines == counts.mined_routines
            &&& told.total_state_rows == counts.state_rows
            &&& told.evaluated_routines == counts.evaluated_routines
            &&& told.considered_episodes == counts.considered_episodes
            &&& told.scanned_rows == counts.scanned_rows
        },
{
}

} // verus!
