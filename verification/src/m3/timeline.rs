//! The `timeline_search` tool.
//!
//! Searches timeline rows by time range, app, record kind, actor, and case-insensitive text over
//! the record's app and the texts of its payload. Results page by an opaque cursor, and the rows
//! read by one call are bounded. Rows that cannot be decoded are counted, never silently skipped.

use vstd::prelude::*;

use crate::error::{invalid, params_invalid, ErrorView, ToolError};
use crate::json::{json_copy, json_view, lemma_item_is_smaller, lemma_value_is_smaller, Json,
    JsonEntry, JsonView};
use crate::keys::{copy_key, hex_decode, hex_decoded, hex_encode, hex_of, key_after, key_less,
    keys_ascend, law_key_order_is_transitive, law_scan_resumes_with_the_next_row, scan_begins_at};
use crate::m3::permissions::{read_only, Permission, RequiredPermissions};
use crate::m3::M3ToolStub;
use crate::numerals::{decimal, decimal_text};
use crate::text::{cat2, cat3, cat4, clone_optional, contains_text, debug_quoted, lowercase,
    optional_view, quoted, text_contains, text_equal, to_lowercase, trim, trimmed, views};

verus! {

/// Default number of matches returned.
pub const DEFAULT_LIMIT: u32 = 100;

/// Upper bound of the number of matches.
pub const MAX_LIMIT: u32 = 500;

/// Most rows read by one call.
pub const MAX_SCAN_ROWS_PER_CALL: usize = 100_000;

/// Most rows of one storage read.
pub const SCAN_CHUNK_ROWS: usize = 4_096;

/// Most bytes of a text filter.
pub const MAX_TEXT_FILTER_BYTES: usize = 512;

// ---------------------------------------------------------------------------------------------
// Records
// ---------------------------------------------------------------------------------------------

/// What a timeline record is about.
#[derive(Clone, Copy, Debug, PartialEq, Eq, Structural)]
pub enum TimelineKind {
    FocusChange,
    TitleChange,
    IdleStart,
    IdleEnd,
    SessionStart,
    SessionEnd,
    BrowserNav,
    Clipboard,
}

/// The name of a kind in parameters and reports.
pub open spec fn kind_text(kind: TimelineKind) -> Seq<char> {
    match kind {
        TimelineKind::FocusChange => "focus_change"@,
        TimelineKind::TitleChange => "title_change"@,
        TimelineKind::IdleStart => "idle_start"@,
        TimelineKind::IdleEnd => "idle_end"@,
        TimelineKind::SessionStart => "session_start"@,
        TimelineKind::SessionEnd => "session_end"@,
        TimelineKind::BrowserNav => "browser_nav"@,
        TimelineKind::Clipboard => "clipboard"@,
    }
}

/// The name of a kind in parameters and reports.
pub fn kind_name(kind: TimelineKind) -> (r: String)
    ensures
        r@ == kind_text(kind),
{
    match kind {
        TimelineKind::FocusChange => "focus_change".to_owned(),
        TimelineKind::TitleChange => "title_change".to_owned(),
        TimelineKind::IdleStart => "idle_start".to_owned(),
        TimelineKind::IdleEnd => "idle_end".to_owned(),
        TimelineKind::SessionStart => "session_start".to_owned(),
        TimelineKind::SessionEnd => "session_end".to_owned(),
        TimelineKind::BrowserNav => "browser_nav".to_owned(),
        TimelineKind::Clipboard => "clipboard".to_owned(),
    }
}

/// Who did what a timeline record is about.
#[derive(Debug, PartialEq, Eq)]
pub enum TimelineActor {
    Human,
    Agent { session_id: String },
}

/// One timeline record.
#[derive(Debug, PartialEq, Eq)]
pub struct TimelineRecord {
    pub ts_ns: u64,
    pub kind: TimelineKind,
    pub actor: TimelineActor,
    pub app: Option<String>,
    pub payload: Json,
}

impl TimelineRecord {
    /// A record without an app and a payload.
    pub fn new(ts_ns: u64, kind: TimelineKind, actor: TimelineActor) -> (r: TimelineRecord)
        ensures
            r == (TimelineRecord { ts_ns, kind, actor, app: None, payload: Json::Null }),
    {
        TimelineRecord { ts_ns, kind, actor, app: None, payload: Json::Null }
    }
}

/// A record with texts as sequences of characters; a human actor is `None`, an agent its session.
#[verifier::ext_equal]
pub struct TimelineView {
    pub ts_ns: u64,
    pub kind: TimelineKind,
    pub agent: Option<Seq<char>>,
    pub app: Option<Seq<char>>,
    pub payload: JsonView,
}

/// The session of an agent; a human has none.
pub open spec fn agent_of(actor: TimelineActor) -> Option<Seq<char>> {
    match actor {
        TimelineActor::Human => None,
        TimelineActor::Agent { session_id } => Some(session_id@),
    }
}

impl View for TimelineRecord {
    type V = TimelineView;

    open spec fn view(&self) -> TimelineView {
        TimelineView {
            ts_ns: self.ts_ns,
            kind: self.kind,
            agent: agent_of(self.actor),
            app: optional_view(self.app),
            payload: self.payload@,
        }
    }
}

/// The actor as a match reports it.
pub open spec fn actor_text(actor: TimelineActor) -> Seq<char> {
    match actor {
        TimelineActor::Human => "human"@,
        TimelineActor::Agent { session_id } => "agent:"@ + session_id@,
    }
}

// ---------------------------------------------------------------------------------------------
// Parameters
// ---------------------------------------------------------------------------------------------

/// What to search for.
#[derive(Debug, PartialEq, Eq)]
pub struct TimelineSearchParams {
    /// Inclusive lower bound of the instant.
    pub start_ts_ns: Option<u64>,
    /// Inclusive upper bound of the instant.
    pub end_ts_ns: Option<u64>,
    /// Case-insensitive exact matches of the app.
    pub apps: Option<Vec<String>>,
    /// Case-insensitive text in the app or the payload.
    pub text: Option<String>,
    /// Names of record kinds.
    pub kinds: Option<Vec<String>>,
    /// `human` or `agent`.
    pub actor: Option<String>,
    /// Most matches to return.
    pub limit: Option<u32>,
    /// Continuation cursor of an earlier response.
    pub cursor: Option<String>,
}

impl Default for TimelineSearchParams {
    fn default() -> (r: Self)
        ensures
            r == (TimelineSearchParams {
                start_ts_ns: None,
                end_ts_ns: None,
                apps: None,
                text: None,
                kinds: None,
                actor: None,
                limit: None,
                cursor: None,
            }),
    {
        TimelineSearchParams {
            start_ts_ns: None,
            end_ts_ns: None,
            apps: None,
            text: None,
            kinds: None,
            actor: None,
            limit: None,
            cursor: None,
        }
    }
}

/// The registration entry of the search tool.
pub fn timeline_search() -> (r: M3ToolStub)
    ensures
        r.name@ == "timeline_search"@,
{
    M3ToolStub::new("timeline_search")
}

/// A search reads storage.
pub fn required_permissions(_params: &TimelineSearchParams) -> (r: RequiredPermissions)
    ensures
        r@ == seq![Permission::ReadStorage],
{
    read_only()
}

/// Whose records to keep.
#[derive(Clone, Copy, Debug, PartialEq, Eq, Structural)]
pub enum ActorFilter {
    Human,
    Agent,
}

/// The checked parameters of a search.
#[derive(Debug)]
pub struct Filters {
    pub start_ts_ns: u64,
    pub end_ts_ns: u64,
    pub apps_lower: Vec<String>,
    pub text_lower: Option<String>,
    pub kinds: Vec<TimelineKind>,
    pub actor: Option<ActorFilter>,
    pub limit: usize,
    pub start_key: Vec<u8>,
}

/// The checked parameters with texts as sequences of characters.
#[verifier::ext_equal]
pub struct FiltersView {
    pub start_ts_ns: u64,
    pub end_ts_ns: u64,
    pub apps_lower: Seq<Seq<char>>,
    pub text_lower: Option<Seq<char>>,
    pub kinds: Seq<TimelineKind>,
    pub actor: Option<ActorFilter>,
    pub limit: usize,
    pub start_key: Seq<u8>,
}

impl View for Filters {
    type V = FiltersView;

    open spec fn view(&self) -> FiltersView {
        FiltersView {
            start_ts_ns: self.start_ts_ns,
            end_ts_ns: self.end_ts_ns,
            apps_lower: views(self.apps_lower@),
            text_lower: optional_view(self.text_lower),
            kinds: self.kinds@,
            actor: self.actor,
            limit: self.limit,
            start_key: self.start_key@,
        }
    }
}

/// The entries of an optional list.
pub open spec fn entries_of(list: Option<Vec<String>>) -> Seq<Seq<char>> {
    match list {
        Some(items) => views(items@),
        None => Seq::empty(),
    }
}

/// The kind that a name denotes.
pub open spec fn kind_of(name: Seq<char>) -> Option<TimelineKind> {
    if name == "focus_change"@ {
        Some(TimelineKind::FocusChange)
    } else if name == "title_change"@ {
        Some(TimelineKind::TitleChange)
    } else if name == "idle_start"@ {
        Some(TimelineKind::IdleStart)
    } else if name == "idle_end"@ {
        Some(TimelineKind::IdleEnd)
    } else if name == "session_start"@ {
        Some(TimelineKind::SessionStart)
    } else if name == "session_end"@ {
        Some(TimelineKind::SessionEnd)
    } else if name == "browser_nav"@ {
        Some(TimelineKind::BrowserNav)
    } else if name == "clipboard"@ {
        Some(TimelineKind::Clipboard)
    } else {
        None
    }
}

/// The error for a name that is no kind.
pub open spec fn unknown_kind(raw: Seq<char>) -> ErrorView {
    params_invalid(
        "timeline_search kinds entry "@ + debug_quoted(raw) + " is not a known timeline kind"@,
    )
}

/// Reads the name of a kind.
pub fn parse_kind(raw: &str) -> (r: Result<TimelineKind, ToolError>)
    ensures
        match r {
            Ok(kind) => kind_of(trimmed(raw@)) == Some(kind),
            Err(e) => kind_of(trimmed(raw@)) is None && e@ == unknown_kind(raw@),
        },
{
    let name = trim(raw);
    let name = name.as_str();
    if text_equal(name, "focus_change") {
        Ok(TimelineKind::FocusChange)
    } else if text_equal(name, "title_change") {
        Ok(TimelineKind::TitleChange)
    } else if text_equal(name, "idle_start") {
        Ok(TimelineKind::IdleStart)
    } else if text_equal(name, "idle_end") {
        Ok(TimelineKind::IdleEnd)
    } else if text_equal(name, "session_start") {
        Ok(TimelineKind::SessionStart)
    } else if text_equal(name, "session_end") {
        Ok(TimelineKind::SessionEnd)
    } else if text_equal(name, "browser_nav") {
        Ok(TimelineKind::BrowserNav)
    } else if text_equal(name, "clipboard") {
        Ok(TimelineKind::Clipboard)
    } else {
        let shown = quoted(raw);
        Err(
            invalid(
                cat3(
                    "timeline_search kinds entry ",
                    shown.as_str(),
                    " is not a known timeline kind",
                ),
            ),
        )
    }
}

/// The actor filter that a lower-case name denotes.
pub open spec fn actor_of(lowered: Seq<char>) -> Option<ActorFilter> {
    if lowered == "human"@ {
        Some(ActorFilter::Human)
    } else if lowered == "agent"@ {
        Some(ActorFilter::Agent)
    } else {
        None
    }
}

/// The error for a name that is no actor.
pub open spec fn unknown_actor(lowered: Seq<char>) -> ErrorView {
    params_invalid(
        "timeline_search actor must be \"human\" or \"agent\"; got "@ + debug_quoted(lowered),
    )
}

/// Reads the lower-case name of an actor.
pub fn actor_filter(lowered: &str) -> (r: Result<ActorFilter, ToolError>)
    ensures
        match r {
            Ok(actor) => actor_of(lowered@) == Some(actor),
            Err(e) => actor_of(lowered@) is None && e@ == unknown_actor(lowered@),
        },
{
    if text_equal(lowered, "human") {
        Ok(ActorFilter::Human)
    } else if text_equal(lowered, "agent") {
        Ok(ActorFilter::Agent)
    } else {
        let shown = quoted(lowered);
        Err(
            invalid(
                cat2("timeline_search actor must be \"human\" or \"agent\"; got ", shown.as_str()),
            ),
        )
    }
}

/// The lower bound of a search.
pub open spec fn start_of(params: TimelineSearchParams) -> u64 {
    match params.start_ts_ns {
        Some(ts) => ts,
        None => 0,
    }
}

/// The upper bound of a search.
pub open spec fn end_of(params: TimelineSearchParams) -> u64 {
    match params.end_ts_ns {
        Some(ts) => ts,
        None => u64::MAX,
    }
}

/// The most matches of a search.
pub open spec fn limit_of(params: TimelineSearchParams) -> u32 {
    match params.limit {
        Some(limit) => limit,
        None => DEFAULT_LIMIT,
    }
}

/// Whether every entry has more than white space.
pub open spec fn none_blank(entries: Seq<Seq<char>>) -> bool {
    forall|i: int| 0 <= i < entries.len() ==> trimmed(#[trigger] entries[i]).len() > 0
}

/// The name at the given position is the first that is no kind.
pub open spec fn unknown_first_at(names: Seq<Seq<char>>, at: int) -> bool {
    &&& 0 <= at < names.len()
    &&& forall|i: int| 0 <= i < at ==> kind_of(trimmed(#[trigger] names[i])) is Some
    &&& kind_of(trimmed(names[at])) is None
}

/// Whether every name is one of a kind.
pub open spec fn all_known(names: Seq<Seq<char>>) -> bool {
    forall|i: int| 0 <= i < names.len() ==> kind_of(trimmed(#[trigger] names[i])) is Some
}

/// How many bytes a text takes in UTF-8.
pub open spec fn byte_len(s: Seq<char>) -> nat {
    vstd::utf8::encode_utf8(s).len()
}

/// What is wrong with the bounds, the limit, the apps or the text of a search.
pub open spec fn early_error(params: TimelineSearchParams) -> Option<ErrorView> {
    if start_of(params) > end_of(params) {
        Some(
            params_invalid(
                "timeline_search start_ts_ns "@ + decimal(start_of(params) as nat)
                    + " must be <= end_ts_ns "@ + decimal(end_of(params) as nat),
            ),
        )
    } else if limit_of(params) == 0 || limit_of(params) > MAX_LIMIT {
        Some(
            params_invalid(
                "timeline_search limit must be between 1 and 500; got "@ + decimal(
                    limit_of(params) as nat,
                ),
            ),
        )
    } else if !none_blank(entries_of(params.apps)) {
        Some(params_invalid("timeline_search apps entries must not be empty"@))
    } else {
        match params.text {
            None => None,
            Some(text) => if trimmed(text@).len() == 0 {
                Some(params_invalid("timeline_search text must not be empty"@))
            } else if byte_len(trimmed(text@)) > MAX_TEXT_FILTER_BYTES {
                Some(params_invalid("timeline_search text must be <= 512 bytes"@))
            } else {
                None
            },
        }
    }
}

/// What is wrong with the actor or the cursor of a search.
pub open spec fn late_error(params: TimelineSearchParams) -> Option<ErrorView> {
    if params.actor is Some && actor_of(lowercase(trimmed(params.actor->Some_0@))) is None {
        Some(unknown_actor(lowercase(trimmed(params.actor->Some_0@))))
    } else if params.cursor is Some && hex_decoded(params.cursor->Some_0@) is None {
        Some(
            params_invalid(
                "timeline_search cursor is not a valid hex key from a prior response"@,
            ),
        )
    } else {
        None
    }
}

/// What the parameters of a search come to where nothing is wrong with them.
pub open spec fn filters_of(params: TimelineSearchParams, scan_start: Seq<u8>) -> FiltersView {
    FiltersView {
        start_ts_ns: start_of(params),
        end_ts_ns: end_of(params),
        apps_lower: entries_of(params.apps).map_values(|s: Seq<char>| lowercase(trimmed(s))),
        text_lower: match params.text {
            Some(text) => Some(lowercase(trimmed(text@))),
            None => None,
        },
        kinds: entries_of(params.kinds).map_values(|s: Seq<char>| kind_of(trimmed(s))->Some_0),
        actor: match params.actor {
            Some(actor) => actor_of(lowercase(trimmed(actor@))),
            None => None,
        },
        limit: limit_of(params) as usize,
        start_key: match params.cursor {
            Some(cursor) => (hex_decoded(cursor@)->Some_0).push(0),
            None => scan_start,
        },
    }
}

fn lower_apps(apps: &Vec<String>) -> (r: Option<Vec<String>>)
    ensures
        match r {
            Some(lowered) => none_blank(views(apps@)) && views(lowered@) == views(
                apps@,
            ).map_values(|s: Seq<char>| lowercase(trimmed(s))),
            None => !none_blank(views(apps@)),
        },
{
    let mut out: Vec<String> = Vec::new();
    let mut i: usize = 0;
    while i < apps.len()
        invariant
            i <= apps@.len(),
            out@.len() == i,
            forall|k: int| 0 <= k < i ==> trimmed(#[trigger] views(apps@)[k]).len() > 0,
            forall|k: int|
                0 <= k < i ==> (#[trigger] out@[k])@ == lowercase(trimmed(views(apps@)[k])),
        decreases apps@.len() - i,
    {
        let cut = trim(apps[i].as_str());
        if cut.as_str().is_empty() {
            assert(trimmed(views(apps@)[i as int]).len() == 0);
            return None;
        }
        out.push(to_lowercase(cut.as_str()));
        i += 1;
    }
    assert(views(out@) =~= views(apps@).map_values(|s: Seq<char>| lowercase(trimmed(s))));
    Some(out)
}

fn read_kinds(names: &Vec<String>) -> (r: Result<Vec<TimelineKind>, ToolError>)
    ensures
        match r {
            Ok(kinds) => all_known(views(names@)) && kinds@ == views(names@).map_values(
                |s: Seq<char>| kind_of(trimmed(s))->Some_0,
            ),
            Err(e) => exists|at: int| #[trigger]
                unknown_first_at(views(names@), at) && e@ == unknown_kind(views(names@)[at]),
        },
{
    let mut out: Vec<TimelineKind> = Vec::new();
    let mut i: usize = 0;
    while i < names.len()
        invariant
            i <= names@.len(),
            out@.len() == i,
            forall|k: int| 0 <= k < i ==> kind_of(trimmed(#[trigger] views(names@)[k])) is Some,
            forall|k: int|
                0 <= k < i ==> Some(#[trigger] out@[k]) == kind_of(trimmed(views(names@)[k])),
        decreases names@.len() - i,
    {
        match parse_kind(names[i].as_str()) {
            Ok(kind) => {
                out.push(kind);
            },
            Err(e) => {
                assert(views(names@)[i as int] == names@[i as int]@);
                assert(unknown_first_at(views(names@), i as int));
                assert(e@ == unknown_kind(views(names@)[i as int]));
                return Err(e);
            },
        }
        i += 1;
    }
    assert(out@ =~= views(names@).map_values(|s: Seq<char>| kind_of(trimmed(s))->Some_0));
    Ok(out)
}

/// Checks the parameters of a search. `scan_start` is the first key that a record at the lower
/// bound can have.
pub fn validate(params: &TimelineSearchParams, scan_start: Vec<u8>) -> (r: Result<
    Filters,
    ToolError,
>)
    ensures
        if early_error(*params) is Some {
            r matches Err(e) && early_error(*params) == Some(e@)
        } else if !all_known(entries_of(params.kinds)) {
            r matches Err(e) && exists|at: int| #[trigger]
                unknown_first_at(entries_of(params.kinds), at) && e@ == unknown_kind(
                    entries_of(params.kinds)[at],
                )
        } else if late_error(*params) is Some {
            r matches Err(e) && late_error(*params) == Some(e@)
        } else {
            r matches Ok(filters) && filters@ == filters_of(*params, scan_start@)
        },
{
    let start_ts_ns: u64 = match params.start_ts_ns {
        Some(ts) => ts,
        None => 0,
    };
    let end_ts_ns: u64 = match params.end_ts_ns {
        Some(ts) => ts,
        None => u64::MAX,
    };
    if start_ts_ns > end_ts_ns {
        let start = decimal_text(start_ts_ns);
        let end = decimal_text(end_ts_ns);
        return Err(
            invalid(
                cat4(
                    "timeline_search start_ts_ns ",
                    start.as_str(),
                    " must be <= end_ts_ns ",
                    end.as_str(),
                ),
            ),
        );
    }
    let limit: u32 = match params.limit {
        Some(limit) => limit,
        None => DEFAULT_LIMIT,
    };
    if limit == 0 || limit > MAX_LIMIT {
        let got = decimal_text(limit as u64);
        return Err(
            invalid(cat2("timeline_search limit must be between 1 and 500; got ", got.as_str())),
        );
    }
    let apps_lower: Vec<String> = match &params.apps {
        Some(apps) => match lower_apps(apps) {
            Some(lowered) => lowered,
            None => {
                return Err(
                    invalid("timeline_search apps entries must not be empty".to_owned()),
                );
            },
        },
        None => Vec::new(),
    };
    let text_lower: Option<String> = match &params.text {
        Some(text) => {
            let cut = trim(text.as_str());
            if cut.as_str().is_empty() {
                return Err(invalid("timeline_search text must not be empty".to_owned()));
            }
            if cut.as_str().as_bytes().len() > MAX_TEXT_FILTER_BYTES {
                return Err(invalid("timeline_search text must be <= 512 bytes".to_owned()));
            }
            Some(to_lowercase(cut.as_str()))
        },
        None => None,
    };
    assert(early_error(*params) is None);
    let kinds: Vec<TimelineKind> = match &params.kinds {
        Some(names) => match read_kinds(names) {
            Ok(kinds) => kinds,
            Err(e) => {
                return Err(e);
            },
        },
        None => Vec::new(),
    };
    let actor: Option<ActorFilter> = match &params.actor {
        Some(name) => {
            let cut = trim(name.as_str());
            let lowered = to_lowercase(cut.as_str());
            match actor_filter(lowered.as_str()) {
                Ok(actor) => Some(actor),
                Err(e) => {
                    return Err(e);
                },
            }
        },
        None => None,
    };
    let start_key: Vec<u8> = match &params.cursor {
        Some(cursor) => match hex_decode(cursor.as_str()) {
            Some(decoded) => key_after(decoded.as_slice()),
            None => {
                return Err(
                    invalid(
                        "timeline_search cursor is not a valid hex key from a prior response".to_owned(),
                    ),
                );
            },
        },
        None => scan_start,
    };
    let filters = Filters {
        start_ts_ns,
        end_ts_ns,
        apps_lower,
        text_lower,
        kinds,
        actor,
        limit: limit as usize,
        start_key,
    };
    assert(filters@ =~= filters_of(*params, scan_start@));
    Ok(filters)
}

// ---------------------------------------------------------------------------------------------
// Matching
// ---------------------------------------------------------------------------------------------

/// A JSON value with every text in lower case.
pub open spec fn lowered_json(v: JsonView) -> JsonView
    decreases v,
{
    match v {
        JsonView::Text(s) => JsonView::Text(lowercase(s)),
        JsonView::Array(items) => JsonView::Array(
            Seq::new(
                items.len(),
                |i: int|
                    if 0 <= i < items.len() {
                        lowered_json(items[i])
                    } else {
                        JsonView::Null
                    },
            ),
        ),
        JsonView::Object(entries) => JsonView::Object(
            Seq::new(
                entries.len(),
                |i: int|
                    if 0 <= i < entries.len() {
                        (entries[i].0, lowered_json(entries[i].1))
                    } else {
                        (Seq::<char>::empty(), JsonView::Null)
                    },
            ),
        ),
        _ => v,
    }
}

/// Whether a text of a JSON value, at whatever depth, has the needle in it. Keys do not count.
pub open spec fn json_has_text(v: JsonView, needle: Seq<char>) -> bool
    decreases v,
{
    match v {
        JsonView::Text(s) => text_contains(s, needle),
        JsonView::Array(items) => exists|i: int|
            0 <= i < items.len() && json_has_text(#[trigger] items[i], needle),
        JsonView::Object(entries) => exists|i: int|
            0 <= i < entries.len() && json_has_text((#[trigger] entries[i]).1, needle),
        _ => false,
    }
}

/// Lowers every text of a JSON value.
pub fn lower_texts(value: &Json) -> (r: Json)
    ensures
        r@ == lowered_json(value@),
    decreases value,
{
    match value {
        Json::Null => Json::Null,
        Json::Bool(b) => Json::Bool(*b),
        Json::Number(n) => Json::Number(*n),
        Json::Text(text) => Json::Text(to_lowercase(text.as_str())),
        Json::Array(items) => {
            let mut out: Vec<Json> = Vec::new();
            let mut i: usize = 0;
            while i < items.len()
                invariant
                    i <= items@.len(),
                    *value == Json::Array(*items),
                    out@.len() == i,
                    forall|k: int|
                        0 <= k < i ==> json_view(#[trigger] out@[k]) == lowered_json(
                            json_view(items@[k]),
                        ),
                decreases items@.len() - i,
            {
                proof {
                    lemma_item_is_smaller(*value, i as int);
                }
                out.push(lower_texts(&items[i]));
                i += 1;
            }
            let r = Json::Array(out);
            proof {
                assert forall|k: int| 0 <= k < items@.len() implies #[trigger] value@->Array_0[k]
                    == json_view(items@[k]) by {}
                assert(r@->Array_0 =~= lowered_json(value@)->Array_0);
            }
            r
        },
        Json::Object(entries) => {
            let mut out: Vec<JsonEntry> = Vec::new();
            let mut i: usize = 0;
            while i < entries.len()
                invariant
                    i <= entries@.len(),
                    *value == Json::Object(*entries),
                    out@.len() == i,
                    forall|k: int|
                        0 <= k < i ==> json_view((#[trigger] out@[k]).value) == lowered_json(
                            json_view(entries@[k].value),
                        ) && out@[k].key@ == entries@[k].key@,
                decreases entries@.len() - i,
            {
                proof {
                    lemma_value_is_smaller(*value, i as int);
                }
                out.push(
                    JsonEntry {
                        key: entries[i].key.clone(),
                        value: lower_texts(&entries[i].value),
                    },
                );
                i += 1;
            }
            let r = Json::Object(out);
            proof {
                assert forall|k: int| 0 <= k < entries@.len() implies #[trigger] value@->Object_0[k]
                    == (entries@[k].key@, json_view(entries@[k].value)) by {}
                assert(r@->Object_0 =~= lowered_json(value@)->Object_0);
            }
            r
        },
    }
}

/// Whether a text of a JSON value has the needle in it.
pub fn json_contains_text(value: &Json, needle: &str) -> (r: bool)
    ensures
        r == json_has_text(value@, needle@),
    decreases value,
{
    match value {
        Json::Text(text) => contains_text(text.as_str(), needle),
        Json::Array(items) => {
            let mut i: usize = 0;
            while i < items.len()
                invariant
                    i <= items@.len(),
                    *value == Json::Array(*items),
                    forall|k: int| 0 <= k < i ==> !json_has_text(#[trigger] json_view(items@[k]), needle@),
                decreases items@.len() - i,
            {
                proof {
                    lemma_item_is_smaller(*value, i as int);
                }
                if json_contains_text(&items[i], needle) {
                    assert(value@->Array_0[i as int] == json_view(items@[i as int]));
                    return true;
                }
                i += 1;
            }
            assert forall|k: int| 0 <= k < items@.len() implies !json_has_text(
                #[trigger] value@->Array_0[k],
                needle@,
            ) by {
                assert(value@->Array_0[k] == json_view(items@[k]));
            }
            false
        },
        Json::Object(entries) => {
            let mut i: usize = 0;
            while i < entries.len()
                invariant
                    i <= entries@.len(),
                    *value == Json::Object(*entries),
                    forall|k: int|
                        0 <= k < i ==> !json_has_text(
                            #[trigger] json_view(entries@[k].value),
                            needle@,
                        ),
                decreases entries@.len() - i,
            {
                proof {
                    lemma_value_is_smaller(*value, i as int);
                }
                if json_contains_text(&entries[i].value, needle) {
                    assert(value@->Object_0[i as int].1 == json_view(entries@[i as int].value));
                    return true;
                }
                i += 1;
            }
            assert forall|k: int| 0 <= k < entries@.len() implies !json_has_text(
                (#[trigger] value@->Object_0[k]).1,
                needle@,
            ) by {
                assert(value@->Object_0[k].1 == json_view(entries@[k].value));
            }
            false
        },
        _ => false,
    }
}

/// Whether a text of a JSON value has the lower-case needle in it, whatever its case.
pub fn value_contains(value: &Json, needle_lower: &str) -> (r: bool)
    ensures
        r == json_has_text(lowered_json(value@), needle_lower@),
{
    let lowered = lower_texts(value);
    json_contains_text(&lowered, needle_lower)
}

/// Whether a record passes the filters, given its app and its payload in lower case.
pub open spec fn passes(
    ts_ns: u64,
    kind: TimelineKind,
    is_human: bool,
    app_lower: Option<Seq<char>>,
    payload_lower: JsonView,
    filters: FiltersView,
) -> bool {
    &&& filters.start_ts_ns <= ts_ns <= filters.end_ts_ns
    &&& filters.kinds.len() == 0 || filters.kinds.contains(kind)
    &&& filters.actor matches Some(actor) ==> (actor is Human) == is_human
    &&& filters.apps_lower.len() == 0 || (app_lower matches Some(app) && filters.apps_lower.contains(
        app,
    ))
    &&& filters.text_lower matches Some(needle) ==> (app_lower matches Some(app) && text_contains(
        app,
        needle,
    )) || json_has_text(payload_lower, needle)
}

/// The app of a record in lower case.
pub open spec fn app_lowered(record: TimelineRecord) -> Option<Seq<char>> {
    match record.app {
        Some(app) => Some(lowercase(app@)),
        None => None,
    }
}

/// Whether a record passes the filters.
pub open spec fn is_match(record: TimelineRecord, filters: FiltersView) -> bool {
    passes(
        record.ts_ns,
        record.kind,
        record.actor is Human,
        app_lowered(record),
        lowered_json(record.payload@),
        filters,
    )
}

fn kinds_contain(kinds: &Vec<TimelineKind>, kind: TimelineKind) -> (r: bool)
    ensures
        r == kinds@.contains(kind),
{
    let mut i: usize = 0;
    while i < kinds.len()
        invariant
            i <= kinds@.len(),
            forall|k: int| 0 <= k < i ==> kinds@[k] != kind,
        decreases kinds@.len() - i,
    {
        if kinds[i] == kind {
            assert(kinds@[i as int] == kind);
            return true;
        }
        i += 1;
    }
    false
}

fn apps_contain(apps: &Vec<String>, app: &str) -> (r: bool)
    ensures
        r == views(apps@).contains(app@),
{
    let mut i: usize = 0;
    while i < apps.len()
        invariant
            i <= apps@.len(),
            forall|k: int| 0 <= k < i ==> (#[trigger] views(apps@)[k]) != app@,
        decreases apps@.len() - i,
    {
        if text_equal(apps[i].as_str(), app) {
            assert(views(apps@)[i as int] == app@);
            return true;
        }
        i += 1;
    }
    false
}

/// Whether a record passes the filters, given its app and its payload in lower case.
pub fn matches_lowered(
    record: &TimelineRecord,
    app_lower: &Option<String>,
    payload_lower: &Json,
    filters: &Filters,
) -> (r: bool)
    ensures
        r == passes(
            record.ts_ns,
            record.kind,
            record.actor is Human,
            optional_view(*app_lower),
            payload_lower@,
            filters@,
        ),
{
    if record.ts_ns < filters.start_ts_ns || record.ts_ns > filters.end_ts_ns {
        return false;
    }
    if filters.kinds.len() != 0 && !kinds_contain(&filters.kinds, record.kind) {
        return false;
    }
    if let Some(actor) = filters.actor {
        let is_human = matches!(record.actor, TimelineActor::Human);
        if (actor == ActorFilter::Human) != is_human {
            return false;
        }
    }
    if filters.apps_lower.len() != 0 {
        match app_lower {
            Some(app) => {
                if !apps_contain(&filters.apps_lower, app.as_str()) {
                    return false;
                }
            },
            None => {
                return false;
            },
        }
    }
    if let Some(needle) = &filters.text_lower {
        let in_app = match app_lower {
            Some(app) => contains_text(app.as_str(), needle.as_str()),
            None => false,
        };
        if !in_app && !json_contains_text(payload_lower, needle.as_str()) {
            return false;
        }
    }
    true
}

/// Whether a record passes the filters.
pub fn record_matches(record: &TimelineRecord, filters: &Filters) -> (r: bool)
    ensures
        r == is_match(*record, filters@),
{
    let app_lower: Option<String> = match &record.app {
        Some(app) => Some(to_lowercase(app.as_str())),
        None => None,
    };
    let payload_lower = lower_texts(&record.payload);
    matches_lowered(record, &app_lower, &payload_lower, filters)
}

/// One match of a search.
#[derive(Debug, PartialEq, Eq)]
pub struct TimelineSearchMatch {
    /// The storage key in hexadecimal form.
    pub key_hex: String,
    pub ts_ns: u64,
    /// The sequence number of the key, where the key has one.
    pub seq: Option<u32>,
    pub kind: String,
    /// `human` or `agent:<session_id>`.
    pub actor: String,
    pub app: Option<String>,
    pub payload: Json,
}

/// A match with texts as sequences of characters.
#[verifier::ext_equal]
pub struct MatchView {
    pub key_hex: Seq<char>,
    pub ts_ns: u64,
    pub seq: Option<u32>,
    pub kind: Seq<char>,
    pub actor: Seq<char>,
    pub app: Option<Seq<char>>,
    pub payload: JsonView,
}

impl View for TimelineSearchMatch {
    type V = MatchView;

    open spec fn view(&self) -> MatchView {
        MatchView {
            key_hex: self.key_hex@,
            ts_ns: self.ts_ns,
            seq: self.seq,
            kind: self.kind@,
            actor: self.actor@,
            app: optional_view(self.app),
            payload: self.payload@,
        }
    }
}

/// A record as a match reports it.
pub open spec fn match_of(key: Seq<u8>, seq: Option<u32>, record: TimelineRecord) -> MatchView {
    MatchView {
        key_hex: hex_of(key),
        ts_ns: record.ts_ns,
        seq,
        kind: kind_text(record.kind),
        actor: actor_text(record.actor),
        app: optional_view(record.app),
        payload: record.payload@,
    }
}

/// Reports a record as a match.
pub fn to_match(key: &[u8], seq: Option<u32>, record: &TimelineRecord) -> (r: TimelineSearchMatch)
    ensures
        r@ == match_of(key@, seq, *record),
{
    TimelineSearchMatch {
        key_hex: hex_encode(key),
        ts_ns: record.ts_ns,
        seq,
        kind: kind_name(record.kind),
        actor: match &record.actor {
            TimelineActor::Human => "human".to_owned(),
            TimelineActor::Agent { session_id } => cat2("agent:", session_id.as_str()),
        },
        app: clone_optional(&record.app),
        payload: json_copy(&record.payload),
    }
}

// ---------------------------------------------------------------------------------------------
// The search
// ---------------------------------------------------------------------------------------------

/// One stored row of the timeline.
#[derive(Debug)]
pub struct TimelineRow {
    pub key: Vec<u8>,
    /// The instant and the sequence number of the key, where the key has them.
    pub codec: Option<(u64, u32)>,
    /// The record, or why it could not be decoded.
    pub record: Result<TimelineRecord, String>,
}

/// One bounded read of the timeline and whether rows follow it.
#[derive(Debug)]
pub struct TimelineChunk {
    pub rows: Vec<TimelineRow>,
    pub more: bool,
}

/// Why a search stopped.
#[derive(Clone, Copy, Debug, PartialEq, Eq, Structural)]
pub enum StopReason {
    LimitReached,
    ScanBudgetExhausted,
    EndTsReached,
    EndOfTimeline,
}

/// The name of a reason in the response.
pub open spec fn stop_text(reason: StopReason) -> Seq<char> {
    match reason {
        StopReason::LimitReached => "limit_reached"@,
        StopReason::ScanBudgetExhausted => "scan_budget_exhausted"@,
        StopReason::EndTsReached => "end_ts_reached"@,
        StopReason::EndOfTimeline => "end_of_timeline"@,
    }
}

/// The name of a reason in the response.
pub fn stop_name(reason: StopReason) -> (r: String)
    ensures
        r@ == stop_text(reason),
{
    match reason {
        StopReason::LimitReached => "limit_reached".to_owned(),
        StopReason::ScanBudgetExhausted => "scan_budget_exhausted".to_owned(),
        StopReason::EndTsReached => "end_ts_reached".to_owned(),
        StopReason::EndOfTimeline => "end_of_timeline".to_owned(),
    }
}

/// What a search reports.
#[derive(Debug, PartialEq, Eq)]
pub struct TimelineSearchResponse {
    pub matches: Vec<TimelineSearchMatch>,
    /// Rows examined by this call.
    pub scanned_rows: u64,
    /// Rows that could not be decoded.
    pub invalid_rows: u64,
    /// Present where more rows may match; pass it back as the cursor to go on.
    pub next_cursor: Option<String>,
    /// Why the call stopped.
    pub stopped_because: String,
}

/// A search under way.
#[derive(Debug)]
pub struct TimelineScan {
    pub matches: Vec<TimelineSearchMatch>,
    pub scanned_rows: u64,
    pub invalid_rows: u64,
    pub last_key: Option<Vec<u8>>,
    /// The key at which the next read starts.
    pub next_start: Vec<u8>,
}

/// A search under way, with texts and keys as sequences, and whether it has stopped.
#[verifier::ext_equal]
pub struct ScanView {
    pub matches: Seq<MatchView>,
    pub scanned: nat,
    pub invalid: nat,
    pub last_key: Option<Seq<u8>>,
    pub stop: Option<StopReason>,
}

/// The matches of a list, with texts as sequences of characters.
pub open spec fn match_views(s: Seq<TimelineSearchMatch>) -> Seq<MatchView> {
    s.map_values(|m: TimelineSearchMatch| m@)
}

/// The bytes of an optional key.
pub open spec fn key_view(key: Option<Vec<u8>>) -> Option<Seq<u8>> {
    match key {
        Some(bytes) => Some(bytes@),
        None => None,
    }
}

impl View for TimelineScan {
    type V = ScanView;

    open spec fn view(&self) -> ScanView {
        ScanView {
            matches: match_views(self.matches@),
            scanned: self.scanned_rows as nat,
            invalid: self.invalid_rows as nat,
            last_key: key_view(self.last_key),
            stop: None,
        }
    }
}

/// What a search does next.
#[derive(Debug)]
pub enum TimelineStep {
    /// Read the next chunk from the scan's next start.
    Read(TimelineScan),
    /// The search is over.
    Done(TimelineSearchResponse),
}

/// Whether the key of a row proves that no later row can match.
pub open spec fn is_past_end(row: TimelineRow, filters: FiltersView) -> bool {
    row.codec matches Some(codec) && codec.0 > filters.end_ts_ns
}

/// The sequence number of a row's key.
pub open spec fn row_seq(row: TimelineRow) -> Option<u32> {
    match row.codec {
        Some(codec) => Some(codec.1),
        None => None,
    }
}

/// A search with one more row examined.
pub open spec fn take_row(state: ScanView, row: TimelineRow, filters: FiltersView) -> ScanView {
    let seen = ScanView {
        scanned: state.scanned + 1,
        last_key: Some(row.key@),
        ..state
    };
    if is_past_end(row, filters) {
        ScanView { stop: Some(StopReason::EndTsReached), ..seen }
    } else {
        match row.record {
            Err(_) => ScanView { invalid: state.invalid + 1, ..seen },
            Ok(record) => if is_match(record, filters) {
                let matches = state.matches.push(match_of(row.key@, row_seq(row), record));
                ScanView {
                    matches,
                    stop: if matches.len() >= filters.limit {
                        Some(StopReason::LimitReached)
                    } else {
                        None
                    },
                    ..seen
                }
            } else {
                seen
            },
        }
    }
}

/// A search with the rows of a chunk examined, up to where it stops.
pub open spec fn take_rows(
    state: ScanView,
    rows: Seq<TimelineRow>,
    filters: FiltersView,
) -> ScanView
    decreases rows.len(),
{
    if rows.len() == 0 || state.stop is Some {
        state
    } else {
        take_rows(take_row(state, rows[0], filters), rows.drop_first(), filters)
    }
}

/// Why a search stops after a chunk, if it does.
pub open spec fn stop_after(state: ScanView, rows: Seq<TimelineRow>, more: bool) -> Option<StopReason> {
    if state.stop is Some {
        state.stop
    } else if rows.len() == 0 || !more {
        Some(StopReason::EndOfTimeline)
    } else if state.scanned >= MAX_SCAN_ROWS_PER_CALL {
        Some(StopReason::ScanBudgetExhausted)
    } else {
        None
    }
}

/// The key behind which the next page begins: that of the last row examined, where the limit or
/// the budget stopped the search.
pub open spec fn next_key(state: ScanView, reason: StopReason) -> Option<Seq<u8>> {
    if reason is LimitReached || reason is ScanBudgetExhausted {
        state.last_key
    } else {
        None
    }
}

/// What a stopped search reports: a cursor where the limit or the budget stopped it.
pub open spec fn reports(r: TimelineSearchResponse, state: ScanView, reason: StopReason) -> bool {
    &&& match_views(r.matches@) == state.matches
    &&& r.scanned_rows == state.scanned
    &&& r.invalid_rows == state.invalid
    &&& r.stopped_because@ == stop_text(reason)
    &&& optional_view(r.next_cursor) == (match next_key(state, reason) {
        Some(key) => Some(hex_of(key)),
        None => None,
    })
}

fn finish(scan: TimelineScan, reason: StopReason) -> (r: TimelineSearchResponse)
    ensures
        reports(r, scan@, reason),
{
    let next_cursor: Option<String> = if matches!(
        reason,
        StopReason::LimitReached | StopReason::ScanBudgetExhausted
    ) {
        match &scan.last_key {
            Some(key) => Some(hex_encode(key.as_slice())),
            None => None,
        }
    } else {
        None
    };
    TimelineSearchResponse {
        matches: scan.matches,
        scanned_rows: scan.scanned_rows,
        invalid_rows: scan.invalid_rows,
        next_cursor,
        stopped_because: stop_name(reason),
    }
}

/// How many rows a search reads at a time: a chunk, or what is left of the budget.
pub open spec fn chunk_len(scanned: nat) -> int {
    if MAX_SCAN_ROWS_PER_CALL - scanned < SCAN_CHUNK_ROWS {
        MAX_SCAN_ROWS_PER_CALL - scanned
    } else {
        SCAN_CHUNK_ROWS as int
    }
}

impl TimelineScan {
    /// A search never examines more rows than one call may.
    pub open spec fn within_budget(self) -> bool {
        self.scanned_rows <= MAX_SCAN_ROWS_PER_CALL && self.invalid_rows <= self.scanned_rows
    }

    /// Starts a search.
    pub fn begin(filters: &Filters) -> (r: TimelineScan)
        ensures
            r@ == (ScanView {
                matches: Seq::empty(),
                scanned: 0,
                invalid: 0,
                last_key: None,
                stop: None,
            }),
            r.next_start@ == filters@.start_key,
            r.within_budget(),
    {
        let r = TimelineScan {
            matches: Vec::new(),
            scanned_rows: 0,
            invalid_rows: 0,
            last_key: None,
            next_start: copy_key(filters.start_key.as_slice()),
        };
        assert(match_views(r.matches@) =~= Seq::empty());
        r
    }

    /// How many rows to read next: a chunk, or what is left of the budget.
    pub fn chunk_rows(&self) -> (r: usize)
        requires
            self.within_budget(),
        ensures
            r == chunk_len(self@.scanned),
    {
        let left: usize = MAX_SCAN_ROWS_PER_CALL - self.scanned_rows as usize;
        if left < SCAN_CHUNK_ROWS {
            left
        } else {
            SCAN_CHUNK_ROWS
        }
    }

    /// Takes in a chunk of at most as many rows as were asked for.
    pub fn absorb(self, chunk: &TimelineChunk, filters: &Filters) -> (r: TimelineStep)
        requires
            self.within_budget(),
            chunk.rows@.len() <= MAX_SCAN_ROWS_PER_CALL - self.scanned_rows,
        ensures
            ({
                let after = take_rows(self@, chunk.rows@, filters@);
                match stop_after(after, chunk.rows@, chunk.more) {
                    Some(reason) => r matches TimelineStep::Done(response) && reports(
                        response,
                        after,
                        reason,
                    ),
                    None => r matches TimelineStep::Read(next) && next@ == after
                        && next.within_budget() && next.next_start@
                        == chunk.rows@.last().key@.push(0),
                }
            }),
    {
        let mut scan = self;
        let ghost entry = self@;
        let mut i: usize = 0;
        assert(chunk.rows@.skip(0) =~= chunk.rows@);
        while i < chunk.rows.len()
            invariant
                i <= chunk.rows@.len(),
                entry == self@,
                scan.within_budget(),
                scan.scanned_rows == self.scanned_rows + i,
                chunk.rows@.len() <= MAX_SCAN_ROWS_PER_CALL - self.scanned_rows,
                take_rows(entry, chunk.rows@, filters@) == take_rows(
                    scan@,
                    chunk.rows@.skip(i as int),
                    filters@,
                ),
            decreases chunk.rows@.len() - i,
        {
            let row = &chunk.rows[i];
            let ghost before = scan@;
            proof {
                assert(chunk.rows@.skip(i as int)[0] == *row);
                assert(chunk.rows@.skip(i as int).drop_first() =~= chunk.rows@.skip(i + 1));
                reveal_with_fuel(take_rows, 2);
            }
            let ghost rest = chunk.rows@.skip(i + 1);
            scan.scanned_rows = scan.scanned_rows + 1;
            scan.last_key = Some(copy_key(row.key.as_slice()));
            if let Some((key_ts, _seq)) = row.codec {
                if key_ts > filters.end_ts_ns {
                    let ghost after = take_row(before, *row, filters@);
                    assert(after.stop == Some(StopReason::EndTsReached));
                    assert(take_rows(after, rest, filters@) == after);
                    assert(ScanView { stop: None, ..after } =~= scan@);
                    let response = finish(scan, StopReason::EndTsReached);
                    return TimelineStep::Done(response);
                }
            }
            let seq: Option<u32> = match row.codec {
                Some((_ts, seq)) => Some(seq),
                None => None,
            };
            match &row.record {
                Ok(record) => {
                    if record_matches(record, filters) {
                        let ghost old_matches = scan.matches@;
                        scan.matches.push(to_match(row.key.as_slice(), seq, record));
                        proof {
                            assert(match_views(scan.matches@) =~= match_views(old_matches).push(
                                match_of(row.key@, row_seq(*row), *record),
                            ));
                        }
                        if scan.matches.len() >= filters.limit {
                            let ghost after = take_row(before, *row, filters@);
                            assert(after.stop == Some(StopReason::LimitReached));
                            assert(take_rows(after, rest, filters@) == after);
                            assert(ScanView { stop: None, ..after } =~= scan@);
                            let response = finish(scan, StopReason::LimitReached);
                            return TimelineStep::Done(response);
                        }
                    }
                },
                Err(_) => {
                    scan.invalid_rows = scan.invalid_rows + 1;
                },
            }
            assert(scan@ =~= take_row(before, *row, filters@));
            i += 1;
        }
        assert(chunk.rows@.skip(i as int) =~= Seq::empty());
        assert(take_rows(entry, chunk.rows@, filters@) == scan@);
        if chunk.rows.len() == 0 || !chunk.more {
            let response = finish(scan, StopReason::EndOfTimeline);
            return TimelineStep::Done(response);
        }
        if scan.scanned_rows >= MAX_SCAN_ROWS_PER_CALL as u64 {
            let response = finish(scan, StopReason::ScanBudgetExhausted);
            return TimelineStep::Done(response);
        }
        scan.next_start = key_after(chunk.rows[chunk.rows.len() - 1].key.as_slice());
        TimelineStep::Read(scan)
    }
}

/// Starts a search: checks the parameters and sets out from their first key.
pub fn search_timeline(params: &TimelineSearchParams, scan_start: Vec<u8>) -> (r: Result<
    (Filters, TimelineScan),
    ToolError,
>)
    ensures
        if early_error(*params) is Some {
            r matches Err(e) && early_error(*params) == Some(e@)
        } else if !all_known(entries_of(params.kinds)) {
            r matches Err(e) && exists|at: int| #[trigger]
                unknown_first_at(entries_of(params.kinds), at) && e@ == unknown_kind(
                    entries_of(params.kinds)[at],
                )
        } else if late_error(*params) is Some {
            r matches Err(e) && late_error(*params) == Some(e@)
        } else {
            r matches Ok(started) && started.0@ == filters_of(*params, scan_start@)
                && started.1@ == nothing_seen() && started.1.next_start@ == filters_of(
                *params,
                scan_start@,
            ).start_key && started.1.within_budget()
        },
{
    match validate(params, scan_start) {
        Ok(filters) => {
            let scan = TimelineScan::begin(&filters);
            Ok((filters, scan))
        },
        Err(e) => Err(e),
    }
}

/// A search before its first row.
pub open spec fn nothing_seen() -> ScanView {
    ScanView { matches: Seq::empty(), scanned: 0, invalid: 0, last_key: None, stop: None }
}

// ---------------------------------------------------------------------------------------------
// Laws
// ---------------------------------------------------------------------------------------------

/// The matches of the rows up to the end bound, without a limit.
pub open spec fn all_matches(rows: Seq<TimelineRow>, filters: FiltersView) -> Seq<MatchView>
    decreases rows.len(),
{
    if rows.len() == 0 || is_past_end(rows[0], filters) {
        Seq::empty()
    } else {
        let rest = all_matches(rows.drop_first(), filters);
        match rows[0].record {
            Ok(record) => if is_match(record, filters) {
                seq![match_of(rows[0].key@, row_seq(rows[0]), record)] + rest
            } else {
                rest
            },
            Err(_) => rest,
        }
    }
}

/// A search never collects more matches than its limit.
pub proof fn law_matches_stay_within_limit(
    state: ScanView,
    rows: Seq<TimelineRow>,
    filters: FiltersView,
)
    requires
        state.stop is None,
        state.matches.len() < filters.limit,
    ensures
        take_rows(state, rows, filters).matches.len() <= filters.limit,
        take_rows(state, rows, filters).stop is None ==> take_rows(
            state,
            rows,
            filters,
        ).matches.len() < filters.limit,
    decreases rows.len(),
{
    reveal_with_fuel(take_rows, 2);
    if rows.len() > 0 {
        let next = take_row(state, rows[0], filters);
        if next.stop is None {
            law_matches_stay_within_limit(next, rows.drop_first(), filters);
        }
    }
}

/// A search examines each row at most once, stops at the row that reaches the limit or lies past
/// the end, and otherwise examines all; its last key is that of the last row examined.
pub proof fn law_scan_counts_its_rows(
    state: ScanView,
    rows: Seq<TimelineRow>,
    filters: FiltersView,
)
    requires
        state.stop is None,
    ensures
        ({
            let after = take_rows(state, rows, filters);
            &&& state.scanned <= after.scanned <= state.scanned + rows.len()
            &&& after.stop is None ==> after.scanned == state.scanned + rows.len()
            &&& rows.len() > 0 ==> after.scanned > state.scanned
            &&& after.scanned > state.scanned ==> after.last_key == Some(
                rows[after.scanned - state.scanned - 1].key@,
            )
        }),
    decreases rows.len(),
{
    reveal_with_fuel(take_rows, 2);
    if rows.len() > 0 {
        let next = take_row(state, rows[0], filters);
        let rest = rows.drop_first();
        if next.stop is None {
            law_scan_counts_its_rows(next, rest, filters);
            let after = take_rows(next, rest, filters);
            if after.scanned > next.scanned {
                assert(rest[after.scanned - next.scanned - 1] == rows[after.scanned - state.scanned
                    - 1]);
            }
        } else {
            assert(take_rows(next, rest, filters) == next);
        }
    }
}

/// Pages join up: wherever a search pauses or stops among the rows of a chunk with more rows behind
/// it, what it has collected followed by the matches of the rows that it has not examined are the
/// matches of all rows; past the end bound it has collected them all.
pub proof fn law_pages_join(
    state: ScanView,
    chunk: Seq<TimelineRow>,
    behind: Seq<TimelineRow>,
    filters: FiltersView,
)
    requires
        state.stop is None,
    ensures
        ({
            let after = take_rows(state, chunk, filters);
            let rows = chunk + behind;
            if after.stop == Some(StopReason::EndTsReached) {
                after.matches == state.matches + all_matches(rows, filters)
            } else {
                state.matches + all_matches(rows, filters) == after.matches + all_matches(
                    rows.skip(after.scanned - state.scanned),
                    filters,
                )
            }
        }),
    decreases chunk.len(),
{
    reveal_with_fuel(take_rows, 2);
    law_scan_counts_its_rows(state, chunk, filters);
    let after = take_rows(state, chunk, filters);
    let rows = chunk + behind;
    if chunk.len() == 0 {
        assert(rows.skip(0) =~= rows);
    } else {
        let next = take_row(state, chunk[0], filters);
        let rest = chunk.drop_first();
        assert(rows[0] == chunk[0]);
        assert(rows.drop_first() =~= rest + behind);
        assert(rows.skip(1) =~= rest + behind);
        if is_past_end(chunk[0], filters) {
            assert(take_rows(next, rest, filters) == next);
            assert(after.matches =~= state.matches + all_matches(rows, filters));
        } else {
            assert(state.matches + all_matches(rows, filters) =~= next.matches + all_matches(
                rest + behind,
                filters,
            ));
            if next.stop is Some {
                assert(take_rows(next, rest, filters) == next);
            } else {
                law_pages_join(next, rest, behind, filters);
                law_scan_counts_its_rows(next, rest, filters);
                assert((rest + behind).skip(after.scanned - next.scanned) =~= rows.skip(
                    after.scanned - state.scanned,
                ));
            }
        }
    }
}

/// A search for the same with a cursor made of a key, and with any limit that is allowed, is the
/// same search from right behind that key.
pub proof fn law_cursor_resumes_behind_its_key(
    params: TimelineSearchParams,
    next: TimelineSearchParams,
    key: Seq<u8>,
    scan_start: Seq<u8>,
)
    requires
        key.len() > 0,
        next == (TimelineSearchParams { cursor: next.cursor, limit: next.limit, ..params }),
        0 < limit_of(next) <= MAX_LIMIT,
        next.cursor is Some,
        next.cursor->Some_0@ == hex_of(key),
        early_error(params) is None,
        all_known(entries_of(params.kinds)),
        late_error(params) is None,
    ensures
        early_error(next) is None,
        all_known(entries_of(next.kinds)),
        late_error(next) is None,
        filters_of(next, scan_start) == page_filters(
            filters_of(params, scan_start),
            key.push(0),
            limit_of(next) as usize,
        ),
{
    crate::keys::law_hex_round_trip(key);
}

/// The keys of rows.
pub open spec fn row_keys(rows: Seq<TimelineRow>) -> Seq<Seq<u8>> {
    rows.map_values(|row: TimelineRow| row.key@)
}

/// The rows that a scan reads from a start key on.
pub open spec fn rows_from(rows: Seq<TimelineRow>, start: Seq<u8>) -> Seq<TimelineRow>
    decreases rows.len(),
{
    if rows.len() == 0 || !key_less(rows[0].key@, start) {
        rows
    } else {
        rows_from(rows.drop_first(), start)
    }
}

proof fn lemma_rows_from(rows: Seq<TimelineRow>, start: Seq<u8>) -> (at: int)
    requires
        keys_ascend(row_keys(rows)),
    ensures
        scan_begins_at(row_keys(rows), start, at),
        rows_from(rows, start) == rows.skip(at),
    decreases rows.len(),
{
    let keys = row_keys(rows);
    if rows.len() == 0 {
        assert(rows.skip(0) =~= rows);
        0
    } else if !key_less(rows[0].key@, start) {
        assert(rows.skip(0) =~= rows);
        assert forall|i: int| 0 <= i < keys.len() implies !key_less(#[trigger] keys[i], start) by {
            if i > 0 && key_less(keys[i], start) {
                assert(key_less(keys[0], keys[i]));
                law_key_order_is_transitive(keys[0], keys[i], start);
            }
        }
        0
    } else {
        let rest = rows.drop_first();
        assert(row_keys(rest) =~= keys.drop_first());
        assert forall|i: int, j: int| 0 <= i < j < row_keys(rest).len() implies key_less(
            #[trigger] row_keys(rest)[i],
            #[trigger] row_keys(rest)[j],
        ) by {
            assert(key_less(keys[i + 1], keys[j + 1]));
        }
        let at = lemma_rows_from(rest, start);
        assert(rest.skip(at) =~= rows.skip(at + 1));
        assert forall|i: int| 0 <= i < at + 1 implies key_less(#[trigger] keys[i], start) by {
            if i > 0 {
                assert(row_keys(rest)[i - 1] == keys[i]);
            }
        }
        assert forall|i: int| at + 1 <= i < keys.len() implies !key_less(
            #[trigger] keys[i],
            start,
        ) by {
            assert(row_keys(rest)[i - 1] == keys[i]);
        }
        at + 1
    }
}

proof fn lemma_rows_behind(rows: Seq<TimelineRow>, start: Seq<u8>, taken: int)
    requires
        keys_ascend(row_keys(rows)),
        0 < taken <= rows_from(rows, start).len(),
    ensures
        rows_from(rows, rows_from(rows, start)[taken - 1].key@.push(0)) == rows_from(
            rows,
            start,
        ).skip(taken),
{
    let keys = row_keys(rows);
    let at = lemma_rows_from(rows, start);
    let last = at + taken - 1;
    assert(rows.skip(at)[taken - 1] == rows[last]);
    assert(keys[last] == rows[last].key@);
    let next = keys[last].push(0);
    law_scan_resumes_with_the_next_row(keys, last);
    let found = lemma_rows_from(rows, next);
    assert(found == last + 1) by {
        if found < last + 1 {
            assert(key_less(keys[found], next));
        } else if found > last + 1 {
            assert(!key_less(keys[last + 1], next));
        }
    }
    assert(rows.skip(at).skip(taken) =~= rows.skip(last + 1));
}

/// One search over a store of fixed rows, from a start key to where it stops: it reads chunk after
/// chunk, each from behind the last key of the one before it.
pub open spec fn search_from(
    rows: Seq<TimelineRow>,
    state: ScanView,
    start: Seq<u8>,
    filters: FiltersView,
) -> (ScanView, StopReason)
    decreases rows_from(rows, start).len(),
    when keys_ascend(row_keys(rows)) && state.scanned <= MAX_SCAN_ROWS_PER_CALL
    via search_from_ends
{
    let rest = rows_from(rows, start);
    let more = rest.len() > chunk_len(state.scanned);
    let chunk = if more {
        rest.take(chunk_len(state.scanned))
    } else {
        rest
    };
    let after = take_rows(state, chunk, filters);
    match stop_after(after, chunk, more) {
        Some(reason) => (after, reason),
        None => search_from(rows, after, chunk.last().key@.push(0), filters),
    }
}

#[via_fn]
proof fn search_from_ends(
    rows: Seq<TimelineRow>,
    state: ScanView,
    start: Seq<u8>,
    filters: FiltersView,
) {
    let rest = rows_from(rows, start);
    let taken = chunk_len(state.scanned);
    if rest.len() > taken && taken > 0 {
        assert(rest.take(taken).last() == rest[taken - 1]);
        lemma_rows_behind(rows, start, taken);
    }
}

proof fn lemma_search(
    rows: Seq<TimelineRow>,
    state: ScanView,
    start: Seq<u8>,
    filters: FiltersView,
) -> (taken: int)
    requires
        keys_ascend(row_keys(rows)),
        state.stop is None,
        state.scanned < MAX_SCAN_ROWS_PER_CALL,
        state.matches.len() < filters.limit,
    ensures
        ({
            let rest = rows_from(rows, start);
            let (after, reason) = search_from(rows, state, start, filters);
            &&& 0 <= taken <= rest.len()
            &&& after.scanned == state.scanned + taken
            &&& after.scanned <= MAX_SCAN_ROWS_PER_CALL
            &&& after.matches.len() <= filters.limit
            &&& match next_key(after, reason) {
                Some(key) => taken > 0 && key == rest[taken - 1].key@ && state.matches
                    + all_matches(rest, filters) == after.matches + all_matches(
                    rest.skip(taken),
                    filters,
                ),
                None => after.matches == state.matches + all_matches(rest, filters),
            }
        }),
    decreases rows_from(rows, start).len(),
{
    let rest = rows_from(rows, start);
    let size = chunk_len(state.scanned);
    let more = rest.len() > size;
    let chunk = if more {
        rest.take(size)
    } else {
        rest
    };
    let behind = rest.skip(chunk.len() as int);
    assert(chunk + behind =~= rest);
    let after = take_rows(state, chunk, filters);
    law_scan_counts_its_rows(state, chunk, filters);
    law_pages_join(state, chunk, behind, filters);
    law_matches_stay_within_limit(state, chunk, filters);
    lemma_stops(state, chunk, filters);
    let taken = after.scanned - state.scanned;
    if after.stop is None && more && after.scanned < MAX_SCAN_ROWS_PER_CALL {
        assert(chunk.last() == rest[size - 1]);
        lemma_rows_behind(rows, start, size);
        let further = lemma_search(rows, after, chunk.last().key@.push(0), filters);
        assert(rest.skip(size).skip(further) =~= rest.skip(size + further));
        taken + further
    } else {
        if after.stop is None && !more {
            assert(rest.skip(taken) =~= Seq::empty());
            assert(after.matches + Seq::empty() =~= after.matches);
        }
        taken
    }
}

proof fn lemma_stops(state: ScanView, rows: Seq<TimelineRow>, filters: FiltersView)
    requires
        state.stop is None,
    ensures
        take_rows(state, rows, filters).stop matches Some(reason) ==> reason is EndTsReached
            || reason is LimitReached,
    decreases rows.len(),
{
    reveal_with_fuel(take_rows, 2);
    if rows.len() > 0 {
        let next = take_row(state, rows[0], filters);
        if next.stop is None {
            lemma_stops(next, rows.drop_first(), filters);
        }
    }
}

/// The filters of a page: those of the search, from the page's start key on and up to its limit.
pub open spec fn page_filters(filters: FiltersView, start: Seq<u8>, limit: usize) -> FiltersView {
    FiltersView { start_key: start, limit, ..filters }
}

/// Limits that a search may be called with.
pub open spec fn are_limits(limits: spec_fn(nat) -> usize) -> bool {
    forall|page: nat| #[trigger] limits(page) > 0
}

/// The pages of a search from a start key on: those that come back from searching a store of fixed
/// rows, and then again behind each page's cursor, until a page has none. Each page has a limit of
/// its own.
pub open spec fn pages(
    rows: Seq<TimelineRow>,
    start: Seq<u8>,
    filters: FiltersView,
    limits: spec_fn(nat) -> usize,
    page: nat,
) -> Seq<Seq<MatchView>>
    decreases rows_from(rows, start).len(),
    when keys_ascend(row_keys(rows)) && are_limits(limits)
    via pages_end
{
    let asked = page_filters(filters, start, limits(page));
    let (state, reason) = search_from(rows, nothing_seen(), start, asked);
    match next_key(state, reason) {
        Some(key) => seq![state.matches] + pages(rows, key.push(0), filters, limits, page + 1),
        None => seq![state.matches],
    }
}

#[via_fn]
proof fn pages_end(
    rows: Seq<TimelineRow>,
    start: Seq<u8>,
    filters: FiltersView,
    limits: spec_fn(nat) -> usize,
    page: nat,
) {
    let asked = page_filters(filters, start, limits(page));
    let (state, reason) = search_from(rows, nothing_seen(), start, asked);
    let taken = lemma_search(rows, nothing_seen(), start, asked);
    if next_key(state, reason) is Some {
        lemma_rows_behind(rows, start, taken);
    }
}

proof fn lemma_pages_filter_alike(
    rows: Seq<TimelineRow>,
    filters: FiltersView,
    start: Seq<u8>,
    limit: usize,
)
    ensures
        all_matches(rows, page_filters(filters, start, limit)) == all_matches(rows, filters),
    decreases rows.len(),
{
    if rows.len() > 0 {
        lemma_pages_filter_alike(rows.drop_first(), filters, start, limit);
    }
}

/// Over rows that stay as they are, in the order of their keys, searching again behind each next
/// cursor ends after at most one call more than there are rows, no page is longer than its limit,
/// and the pages joined are the matches of the rows from the start key up to the end bound.
pub proof fn law_joined_pages_are_all_matches(
    rows: Seq<TimelineRow>,
    start: Seq<u8>,
    filters: FiltersView,
    limits: spec_fn(nat) -> usize,
    page: nat,
)
    requires
        keys_ascend(row_keys(rows)),
        are_limits(limits),
    ensures
        ({
            let found = pages(rows, start, filters, limits, page);
            &&& found.len() <= rows_from(rows, start).len() + 1
            &&& forall|i: int|
                0 <= i < found.len() ==> (#[trigger] found[i]).len() <= limits((page + i) as nat)
            &&& found.flatten() == all_matches(rows_from(rows, start), filters)
        }),
    decreases rows_from(rows, start).len(),
{
    let rest = rows_from(rows, start);
    let asked = page_filters(filters, start, limits(page));
    let (state, reason) = search_from(rows, nothing_seen(), start, asked);
    let taken = lemma_search(rows, nothing_seen(), start, asked);
    let found = pages(rows, start, filters, limits, page);
    assert(nothing_seen().matches + all_matches(rest, asked) =~= all_matches(rest, asked));
    lemma_pages_filter_alike(rest, filters, start, limits(page));
    assert(found.first() =~= state.matches);
    match next_key(state, reason) {
        Some(key) => {
            lemma_rows_behind(rows, start, taken);
            law_joined_pages_are_all_matches(rows, key.push(0), filters, limits, page + 1);
            lemma_pages_filter_alike(rest.skip(taken), filters, start, limits(page));
            let later = pages(rows, key.push(0), filters, limits, page + 1);
            assert(found.drop_first() =~= later);
            assert forall|i: int| 0 <= i < found.len() implies (#[trigger] found[i]).len()
                <= limits((page + i) as nat) by {
                if i > 0 {
                    assert(found[i] == later[i - 1]);
                    assert((page + 1 + (i - 1)) as nat == (page + i) as nat);
                }
            }
            assert(found.flatten() =~= state.matches + later.flatten());
        },
        None => {
            assert(found.drop_first() =~= Seq::empty());
            assert(found.flatten() =~= state.matches + Seq::<Seq<MatchView>>::empty().flatten());
            assert(found.flatten() =~= state.matches);
        },
    }
}

/// Whether the record of a row is readable and passes the filters.
pub open spec fn row_matches(row: TimelineRow, filters: FiltersView) -> bool {
    row.record matches Ok(record) && is_match(record, filters)
}

/// The match that a row with a readable record makes.
pub open spec fn row_match(row: TimelineRow) -> MatchView {
    match_of(row.key@, row_seq(row), row.record->Ok_0)
}

/// Rows whose keys tell the times of their records, so that no record is older than the time in
/// the key of its own row or of a row before it.
pub open spec fn in_time_order(rows: Seq<TimelineRow>) -> bool {
    forall|i: int, j: int|
        0 <= i <= j < rows.len() ==> ((#[trigger] rows[i]).codec matches Some(codec) ==> ((
        #[trigger] rows[j]).record matches Ok(record) ==> codec.0 <= record.ts_ns))
}

/// Stopping at the end bound loses nothing: over rows whose keys tell the times of their records,
/// the matches up to the end bound are those of every row that matches, in the order of the rows.
pub proof fn law_matches_are_those_of_the_matching_rows(
    rows: Seq<TimelineRow>,
    filters: FiltersView,
)
    requires
        in_time_order(rows),
    ensures
        all_matches(rows, filters) == rows.filter(
            |row: TimelineRow| row_matches(row, filters),
        ).map_values(|row: TimelineRow| row_match(row)),
    decreases rows.len(),
{
    let wanted = |row: TimelineRow| row_matches(row, filters);
    let shown = |row: TimelineRow| row_match(row);
    reveal(Seq::filter);
    if rows.len() > 0 {
        let first = seq![rows[0]];
        let rest = rows.drop_first();
        assert(rows =~= first + rest);
        Seq::filter_distributes_over_add(first, rest, wanted);
        assert(first.drop_last() =~= Seq::empty());
        first.drop_last().lemma_filter_len(wanted);
        assert(first.drop_last().filter(wanted) =~= Seq::empty());
        assert(first.filter(wanted) =~= if wanted(rows[0]) {
            first
        } else {
            Seq::empty()
        });
        if is_past_end(rows[0], filters) {
            lemma_nothing_passes(rows, filters);
        } else {
            assert forall|i: int, j: int| 0 <= i <= j < rest.len() implies ((
            #[trigger] rest[i]).codec matches Some(codec) ==> ((
            #[trigger] rest[j]).record matches Ok(record) ==> codec.0 <= record.ts_ns)) by {
                assert(rest[i] == rows[i + 1] && rest[j] == rows[j + 1]);
            }
            law_matches_are_those_of_the_matching_rows(rest, filters);
            assert(rows.filter(wanted).map_values(shown) =~= first.filter(wanted).map_values(shown)
                + rest.filter(wanted).map_values(shown));
        }
    }
}

proof fn lemma_nothing_passes(rows: Seq<TimelineRow>, filters: FiltersView)
    requires
        in_time_order(rows),
        rows.len() > 0,
        is_past_end(rows[0], filters),
    ensures
        rows.filter(|row: TimelineRow| row_matches(row, filters)) == Seq::<TimelineRow>::empty(),
{
    let wanted = |row: TimelineRow| row_matches(row, filters);
    let left = rows.filter(wanted);
    if left.len() > 0 {
        rows.lemma_filter_pred(wanted, 0);
        assert(left.contains(left[0]));
        rows.lemma_filter_contains_rev(wanted, left[0]);
        let at = rows.index_of(left[0]);
        assert(rows[0].codec is Some && rows[at] == left[0]);
    }
}

/// A whole search loses nothing and repeats nothing: over rows that stay as they are, in the order
/// of keys that tell the times of their records, and with a start key that only older rows lie
/// before, the pages joined are the matches of exactly the rows that are readable and pass the
/// filters, each once and in the order of the keys, whatever the limits of the pages.
pub proof fn law_whole_search_gives_each_match_once(
    rows: Seq<TimelineRow>,
    start: Seq<u8>,
    filters: FiltersView,
    limits: spec_fn(nat) -> usize,
)
    requires
        keys_ascend(row_keys(rows)),
        are_limits(limits),
        in_time_order(rows),
        forall|i: int|
            0 <= i < rows.len() && key_less((#[trigger] rows[i]).key@, start)
                && rows[i].record is Ok ==> rows[i].record->Ok_0.ts_ns < filters.start_ts_ns,
    ensures
        pages(rows, start, filters, limits, 0).flatten() == rows.filter(
            |row: TimelineRow| row_matches(row, filters),
        ).map_values(|row: TimelineRow| row_match(row)),
{
    let wanted = |row: TimelineRow| row_matches(row, filters);
    law_joined_pages_are_all_matches(rows, start, filters, limits, 0);
    let at = lemma_rows_from(rows, start);
    let older = rows.take(at);
    let rest = rows.skip(at);
    assert(rows =~= older + rest);
    Seq::filter_distributes_over_add(older, rest, wanted);
    if older.filter(wanted).len() > 0 {
        let left = older.filter(wanted);
        older.lemma_filter_pred(wanted, 0);
        assert(left.contains(left[0]));
        older.lemma_filter_contains_rev(wanted, left[0]);
        let i = older.index_of(left[0]);
        assert(rows[i] == left[0]);
        assert(row_keys(rows)[i] == rows[i].key@);
    }
    assert(rows.filter(wanted) =~= rest.filter(wanted));
    assert forall|i: int, j: int| 0 <= i <= j < rest.len() implies ((
    #[trigger] rest[i]).codec matches Some(codec) ==> ((
    #[trigger] rest[j]).record matches Ok(record) ==> codec.0 <= record.ts_ns)) by {
        assert(rest[i] == rows[at + i] && rest[j] == rows[at + j]);
    }
    law_matches_are_those_of_the_matching_rows(rest, filters);
}

/// The name of every kind reads back as that kind.
pub proof fn law_kind_names_read_back(kind: TimelineKind)
    ensures
        kind_of(kind_text(kind)) == Some(kind),
{
    reveal_strlit("focus_change");
    reveal_strlit("title_change");
    reveal_strlit("idle_start");
    reveal_strlit("idle_end");
    reveal_strlit("session_start");
    reveal_strlit("session_end");
    reveal_strlit("browser_nav");
    reveal_strlit("clipboard");
    assert("focus_change"@[0] == 'f');
    assert("title_change"@[0] == 't');
    assert("browser_nav"@[0] == 'b');
    assert("clipboard"@[0] == 'c');
    assert("idle_start"@.len() != "idle_end"@.len());
    assert("session_start"@.len() != "session_end"@.len());
    assert("idle_start"@[0] == 'i' && "idle_end"@[0] == 'i');
    assert("session_start"@[0] == 's' && "session_end"@[0] == 's');
}

/// Text found in a part of a payload is found in the whole.
pub proof fn law_nested_text_is_found(
    items: Seq<JsonView>,
    entries: Seq<(Seq<char>, JsonView)>,
    i: int,
    needle: Seq<char>,
)
    ensures
        0 <= i < items.len() && json_has_text(items[i], needle) ==> json_has_text(
            JsonView::Array(items),
            needle,
        ),
        0 <= i < entries.len() && json_has_text(entries[i].1, needle) ==> json_has_text(
            JsonView::Object(entries),
            needle,
        ),
{
    if 0 <= i < items.len() && json_has_text(items[i], needle) {
        let whole = JsonView::Array(items);
        assert(whole->Array_0[i] == items[i]);
        assert(json_has_text(whole, needle));
    }
    if 0 <= i < entries.len() && json_has_text(entries[i].1, needle) {
        let whole = JsonView::Object(entries);
        assert(whole->Object_0[i] == entries[i]);
        assert(json_has_text(whole, needle));
    }
}

/// Whether a text is one of the strings of a payload, at whatever depth; names of fields are none.
pub open spec fn holds_string(v: JsonView, s: Seq<char>) -> bool
    decreases v,
{
    match v {
        JsonView::Text(text) => text == s,
        JsonView::Array(items) => exists|i: int|
            0 <= i < items.len() && holds_string(#[trigger] items[i], s),
        JsonView::Object(entries) => exists|i: int|
            0 <= i < entries.len() && holds_string((#[trigger] entries[i]).1, s),
        _ => false,
    }
}

proof fn lemma_string_in_item(items: Seq<JsonView>, i: int, s: Seq<char>)
    requires
        0 <= i < items.len(),
        holds_string(items[i], s),
    ensures
        holds_string(JsonView::Array(items), s),
{
    let whole = JsonView::Array(items);
    assert(whole->Array_0[i] == items[i]);
}

proof fn lemma_string_in_entry(entries: Seq<(Seq<char>, JsonView)>, i: int, s: Seq<char>)
    requires
        0 <= i < entries.len(),
        holds_string(entries[i].1, s),
    ensures
        holds_string(JsonView::Object(entries), s),
{
    let whole = JsonView::Object(entries);
    assert(whole->Object_0[i] == entries[i]);
}

/// A payload holds a text exactly if one of its strings, at whatever depth, holds it.
pub proof fn law_payload_text_is_in_a_string(v: JsonView, needle: Seq<char>)
    ensures
        json_has_text(v, needle) <==> exists|s: Seq<char>| #[trigger]
            holds_string(v, s) && text_contains(s, needle),
    decreases v,
{
    match v {
        JsonView::Text(text) => {
            assert(holds_string(v, text));
        },
        JsonView::Array(items) => {
            if json_has_text(v, needle) {
                let i = choose|i: int|
                    0 <= i < items.len() && json_has_text(#[trigger] items[i], needle);
                law_payload_text_is_in_a_string(items[i], needle);
                let s = choose|s: Seq<char>| #[trigger]
                    holds_string(items[i], s) && text_contains(s, needle);
                lemma_string_in_item(items, i, s);
            }
            if exists|s: Seq<char>| #[trigger] holds_string(v, s) && text_contains(s, needle) {
                let s = choose|s: Seq<char>| #[trigger]
                    holds_string(v, s) && text_contains(s, needle);
                let i = choose|i: int|
                    0 <= i < items.len() && holds_string(#[trigger] items[i], s);
                law_payload_text_is_in_a_string(items[i], needle);
                law_nested_text_is_found(items, Seq::empty(), i, needle);
            }
        },
        JsonView::Object(entries) => {
            if json_has_text(v, needle) {
                let i = choose|i: int|
                    0 <= i < entries.len() && json_has_text((#[trigger] entries[i]).1, needle);
                law_payload_text_is_in_a_string(entries[i].1, needle);
                let s = choose|s: Seq<char>| #[trigger]
                    holds_string(entries[i].1, s) && text_contains(s, needle);
                lemma_string_in_entry(entries, i, s);
            }
            if exists|s: Seq<char>| #[trigger] holds_string(v, s) && text_contains(s, needle) {
                let s = choose|s: Seq<char>| #[trigger]
                    holds_string(v, s) && text_contains(s, needle);
                let i = choose|i: int|
                    0 <= i < entries.len() && holds_string((#[trigger] entries[i]).1, s);
                law_payload_text_is_in_a_string(entries[i].1, needle);
                law_nested_text_is_found(Seq::empty(), entries, i, needle);
            }
        },
        _ => {},
    }
}

/// Lowering a payload lowers each of its strings, and makes and loses none.
pub proof fn law_lowering_reaches_every_string(v: JsonView, t: Seq<char>)
    ensures
        holds_string(lowered_json(v), t) <==> exists|s: Seq<char>| #[trigger]
            holds_string(v, s) && lowercase(s) == t,
    decreases v,
{
    match v {
        JsonView::Text(text) => {
            assert(holds_string(v, text));
        },
        JsonView::Array(items) => {
            let lowered = lowered_json(v)->Array_0;
            assert(lowered.len() == items.len());
            if holds_string(lowered_json(v), t) {
                let i = choose|i: int|
                    0 <= i < lowered.len() && holds_string(#[trigger] lowered[i], t);
                assert(lowered[i] == lowered_json(items[i]));
                law_lowering_reaches_every_string(items[i], t);
                let s = choose|s: Seq<char>| #[trigger]
                    holds_string(items[i], s) && lowercase(s) == t;
                lemma_string_in_item(items, i, s);
            }
            if exists|s: Seq<char>| #[trigger] holds_string(v, s) && lowercase(s) == t {
                let s = choose|s: Seq<char>| #[trigger] holds_string(v, s) && lowercase(s) == t;
                let i = choose|i: int|
                    0 <= i < items.len() && holds_string(#[trigger] items[i], s);
                law_lowering_reaches_every_string(items[i], t);
                assert(lowered[i] == lowered_json(items[i]));
                lemma_string_in_item(lowered, i, t);
            }
        },
        JsonView::Object(entries) => {
            let lowered = lowered_json(v)->Object_0;
            assert(lowered.len() == entries.len());
            if holds_string(lowered_json(v), t) {
                let i = choose|i: int|
                    0 <= i < lowered.len() && holds_string((#[trigger] lowered[i]).1, t);
                assert(lowered[i].1 == lowered_json(entries[i].1));
                law_lowering_reaches_every_string(entries[i].1, t);
                let s = choose|s: Seq<char>| #[trigger]
                    holds_string(entries[i].1, s) && lowercase(s) == t;
                lemma_string_in_entry(entries, i, s);
            }
            if exists|s: Seq<char>| #[trigger] holds_string(v, s) && lowercase(s) == t {
                let s = choose|s: Seq<char>| #[trigger] holds_string(v, s) && lowercase(s) == t;
                let i = choose|i: int|
                    0 <= i < entries.len() && holds_string((#[trigger] entries[i]).1, s);
                law_lowering_reaches_every_string(entries[i].1, t);
                assert(lowered[i].1 == lowered_json(entries[i].1));
                lemma_string_in_entry(lowered, i, t);
            }
        },
        _ => {},
    }
}

/// Which records a search finds: those within the time range, both ends included, that are of one of
/// the kinds, by the actor and of one of the apps asked for, where any are asked for; and, where a text
/// is asked for, whose app in lower case holds it or one of whose payload's strings in lower case
/// does, either of them being enough.
pub proof fn law_records_match_what_is_searched_for(record: TimelineRecord, filters: FiltersView)
    ensures
        ({
            let in_range = record.ts_ns >= filters.start_ts_ns && record.ts_ns
                <= filters.end_ts_ns;
            let of_kind = filters.kinds.len() > 0 ==> exists|i: int|
                0 <= i < filters.kinds.len() && #[trigger] filters.kinds[i] == record.kind;
            let by_actor = match filters.actor {
                None => true,
                Some(ActorFilter::Human) => record.actor is Human,
                Some(ActorFilter::Agent) => record.actor is Agent,
            };
            let of_app = filters.apps_lower.len() > 0 ==> record.app is Some && exists|i: int|
                0 <= i < filters.apps_lower.len() && #[trigger] filters.apps_lower[i] == lowercase(
                    record.app->Some_0@,
                );
            let has_text = match filters.text_lower {
                None => true,
                Some(needle) => (record.app is Some && text_contains(
                    lowercase(record.app->Some_0@),
                    needle,
                )) || exists|s: Seq<char>| #[trigger]
                    holds_string(record.payload@, s) && text_contains(lowercase(s), needle),
            };
            is_match(record, filters) <==> in_range && of_kind && by_actor && of_app && has_text
        }),
{
    if filters.kinds.contains(record.kind) {
        let i = choose|i: int| 0 <= i < filters.kinds.len() && filters.kinds[i] == record.kind;
        assert(filters.kinds[i] == record.kind);
    }
    if record.app is Some && filters.apps_lower.contains(lowercase(record.app->Some_0@)) {
        let i = choose|i: int|
            0 <= i < filters.apps_lower.len() && filters.apps_lower[i] == lowercase(
                record.app->Some_0@,
            );
        assert(filters.apps_lower[i] == lowercase(record.app->Some_0@));
    }
    if let Some(needle) = filters.text_lower {
        let lowered = lowered_json(record.payload@);
        law_payload_text_is_in_a_string(lowered, needle);
        if json_has_text(lowered, needle) {
            let t = choose|t: Seq<char>| #[trigger]
                holds_string(lowered, t) && text_contains(t, needle);
            law_lowering_reaches_every_string(record.payload@, t);
        }
        if exists|s: Seq<char>| #[trigger]
            holds_string(record.payload@, s) && text_contains(lowercase(s), needle) {
            let s = choose|s: Seq<char>| #[trigger]
                holds_string(record.payload@, s) && text_contains(lowercase(s), needle);
            law_lowering_reaches_every_string(record.payload@, lowercase(s));
            assert(holds_string(lowered, lowercase(s)));
        }
    }
}

/// Filters that are all left out find every record, and narrowing any of them finds no more: what
/// passes with a text asked for passes without, and so on for each.
pub proof fn law_filters_only_narrow(record: TimelineRecord, filters: FiltersView)
    ensures
        is_match(record, filters) ==> {
            &&& is_match(record, FiltersView { text_lower: None, ..filters })
            &&& is_match(record, FiltersView { actor: None, ..filters })
            &&& is_match(record, FiltersView { kinds: Seq::empty(), ..filters })
            &&& is_match(record, FiltersView { apps_lower: Seq::empty(), ..filters })
            &&& is_match(record, FiltersView { start_ts_ns: 0, ..filters })
            &&& is_match(record, FiltersView { end_ts_ns: u64::MAX, ..filters })
        },
        is_match(
            record,
            FiltersView {
                start_ts_ns: 0,
                end_ts_ns: u64::MAX,
                apps_lower: Seq::empty(),
                text_lower: None,
                kinds: Seq::empty(),
                actor: None,
                ..filters
            },
        ),
{
}

/// What the parameters of a search ask for: the whole of time where no bound is given, a hundred matches
/// where no limit is, every app and text in lower case and without white space around it, each kind by
/// its name, and the actor by its name in any case.
pub proof fn law_parameters_become_filters(
    params: TimelineSearchParams,
    scan_start: Seq<u8>,
    i: int,
)
    ensures
        ({
            let f = filters_of(params, scan_start);
            &&& f.start_ts_ns == params.start_ts_ns.unwrap_or(0)
            &&& f.end_ts_ns == params.end_ts_ns.unwrap_or(0xffff_ffff_ffff_ffff)
            &&& params.limit is None ==> f.limit == 100
            &&& params.limit matches Some(n) ==> f.limit == n
            &&& params.apps is None ==> f.apps_lower.len() == 0
            &&& params.apps matches Some(apps) ==> f.apps_lower.len() == apps@.len() && (0 <= i
                < apps@.len() ==> f.apps_lower[i] == lowercase(trimmed(apps@[i]@)))
            &&& params.text is None ==> f.text_lower is None
            &&& params.text matches Some(text) ==> f.text_lower == Some(lowercase(trimmed(text@)))
            &&& params.kinds is None ==> f.kinds.len() == 0
            &&& params.kinds matches Some(kinds) ==> f.kinds.len() == kinds@.len() && (0 <= i
                < kinds@.len() && kind_of(trimmed(kinds@[i]@)) is Some ==> kind_text(f.kinds[i])
                == trimmed(kinds@[i]@))
            &&& params.actor is None ==> f.actor is None
            &&& params.actor matches Some(actor) ==> {
                &&& lowercase(trimmed(actor@)) == "human"@ ==> f.actor == Some(ActorFilter::Human)
                &&& lowercase(trimmed(actor@)) == "agent"@ ==> f.actor == Some(ActorFilter::Agent)
            }
            &&& params.cursor is None ==> f.start_key == scan_start
        }),
{
    reveal_strlit("human");
    reveal_strlit("agent");
    assert("human"@[0] == 'h' && "agent"@[0] == 'a');
}

/// Which parameters are refused: a range that ends before it begins, a limit of none or of more than
/// five hundred, a blank app or text, a text of more than 512 bytes, a kind or an actor without a
/// meaning, and a cursor that is no hexadecimal key. All others are taken.
pub proof fn law_searches_are_refused_for_a_reason(params: TimelineSearchParams)
    ensures
        early_error(params) is None <==> {
            &&& params.start_ts_ns.unwrap_or(0) <= params.end_ts_ns.unwrap_or(0xffff_ffff_ffff_ffff)
            &&& params.limit matches Some(n) ==> 1 <= n <= 500
            &&& params.apps matches Some(apps) ==> forall|i: int|
                0 <= i < apps@.len() ==> trimmed((#[trigger] apps@[i])@).len() > 0
            &&& params.text matches Some(text) ==> trimmed(text@).len() > 0
                && vstd::utf8::encode_utf8(trimmed(text@)).len() <= 512
        },
        all_known(entries_of(params.kinds)) <==> (params.kinds matches Some(kinds) ==> forall|
            i: int,
        |
            0 <= i < kinds@.len() ==> kind_of(trimmed((#[trigger] kinds@[i])@)) is Some),
        late_error(params) is None <==> {
            &&& params.actor matches Some(actor) ==> lowercase(trimmed(actor@)) == "human"@
                || lowercase(trimmed(actor@)) == "agent"@
            &&& params.cursor matches Some(cursor) ==> hex_decoded(cursor@) is Some
        },
{
    if let Some(apps) = params.apps {
        let entries = entries_of(params.apps);
        if none_blank(entries) {
            assert forall|i: int| 0 <= i < apps@.len() implies trimmed(
                (#[trigger] apps@[i])@,
            ).len() > 0 by {
                assert(entries[i] == apps@[i]@);
            }
        }
    }
    if let Some(kinds) = params.kinds {
        let entries = entries_of(params.kinds);
        if all_known(entries) {
            assert forall|i: int| 0 <= i < kinds@.len() implies kind_of(
                trimmed((#[trigger] kinds@[i])@),
            ) is Some by {
                assert(entries[i] == kinds@[i]@);
            }
        }
    }
}

/// What a match tells of its row: the key in hexadecimal, the number in the key, and the instant, kind,
/// actor, app and payload of the record.
pub proof fn law_matches_tell_of_their_row(row: TimelineRow, record: TimelineRecord)
    requires
        row.record == Ok::<TimelineRecord, String>(record),
        row.key@.len() > 0,
    ensures
        ({
            let m = row_match(row);
            &&& hex_decoded(m.key_hex) == Some(row.key@)
            &&& m.ts_ns == record.ts_ns
            &&& m.seq == match row.codec {
                Some((_, seq)) => Some(seq),
                None => None,
            }
            &&& kind_of(m.kind) == Some(record.kind)
            &&& record.actor is Human ==> m.actor == "human"@
            &&& record.actor matches TimelineActor::Agent { session_id } ==> m.actor == "agent:"@
                + session_id@
            &&& m.app == match record.app {
                Some(app) => Some(app@),
                None => None,
            }
            &&& m.payload == record.payload@
        }),
{
    crate::keys::law_hex_round_trip(row.key@);
    law_kind_names_read_back(record.kind);
}

/// A search counts each examined row whose record could not be read, and no other.
pub proof fn law_unreadable_rows_are_counted(
    state: ScanView,
    rows: Seq<TimelineRow>,
    filters: FiltersView,
)
    requires
        state.stop is None,
    ensures
        ({
            let after = take_rows(state, rows, filters);
            let examined = rows.take(after.scanned - state.scanned);
            after.stop != Some(StopReason::EndTsReached) ==> after.invalid - state.invalid
                == examined.filter(|row: TimelineRow| row.record is Err).len()
        }),
    decreases rows.len(),
{
    reveal(Seq::filter);
    reveal_with_fuel(take_rows, 2);
    law_scan_counts_its_rows(state, rows, filters);
    let bad = |row: TimelineRow| row.record is Err;
    if rows.len() == 0 {
        assert(rows.take(0) =~= Seq::empty());
    } else {
        let next = take_row(state, rows[0], filters);
        let rest = rows.drop_first();
        let after = take_rows(state, rows, filters);
        let examined = rows.take(after.scanned - state.scanned);
        let first = seq![rows[0]];
        assert(first.drop_last() =~= Seq::empty());
        assert(first.filter(bad).len() == if rows[0].record is Err {
            1nat
        } else {
            0nat
        }) by {
            first.drop_last().lemma_filter_len(bad);
            assert(first.drop_last().filter(bad) =~= Seq::empty());
        }
        if next.stop is None {
            law_unreadable_rows_are_counted(next, rest, filters);
            law_scan_counts_its_rows(next, rest, filters);
            assert(examined =~= first + rest.take(after.scanned - next.scanned));
            Seq::filter_distributes_over_add(first, rest.take(after.scanned - next.scanned), bad);
        } else {
            assert(take_rows(next, rest, filters) == next);
            assert(examined =~= first);
        }
    }
}

/// Why a search stops: at the limit as soon as it has collected so many, past the end bound at the first
/// key behind it, where there is nothing more to read, or after a hundred thousand rows; a cursor comes
/// with the first and the last of these alone.
pub proof fn law_searches_stop_for_a_reason(
    state: ScanView,
    row: TimelineRow,
    filters: FiltersView,
    rows: Seq<TimelineRow>,
    more: bool,
)
    requires
        state.stop is None,
    ensures
        take_row(state, row, filters).stop == Some(StopReason::EndTsReached) <==> row.codec is Some
            && row.codec->Some_0.0 > filters.end_ts_ns,
        take_row(state, row, filters).stop == Some(StopReason::LimitReached) <==> !(row.codec is Some
            && row.codec->Some_0.0 > filters.end_ts_ns) && row_matches(row, filters)
            && state.matches.len() + 1 >= filters.limit,
        take_row(state, row, filters).last_key == Some(row.key@),
        stop_after(state, rows, more) == Some(StopReason::EndOfTimeline) <==> rows.len() == 0
            || !more,
        stop_after(state, rows, more) == Some(StopReason::ScanBudgetExhausted) <==> rows.len() > 0
            && more && state.scanned >= 100_000,
        stop_after(state, rows, more) is None <==> rows.len() > 0 && more && state.scanned < 100_000,
        next_key(state, StopReason::LimitReached) == state.last_key,
        next_key(state, StopReason::ScanBudgetExhausted) == state.last_key,
        next_key(state, StopReason::EndTsReached) is None,
        next_key(state, StopReason::EndOfTimeline) is None,
        state.scanned <= 100_000 ==> 0 <= chunk_len(state.scanned) <= 4_096 && state.scanned
            + chunk_len(state.scanned) <= 100_000,
        state.scanned < 100_000 ==> chunk_len(state.scanned) > 0,
        state.scanned + 4_096 <= 100_000 ==> chunk_len(state.scanned) == 4_096,
{
}

/// What a search matches: a record within the time range, of one of the kinds, by the actor and of one of
/// the apps asked for, where any are; and, where a text is asked for, one whose app in lower case holds
/// it, whatever its payload, or whose payload has a string that in lower case does, whatever its app.
pub proof fn law_searches_match_by_app_or_payload(
    record: &TimelineRecord,
    filters: &Filters,
    r: bool,
)
    requires
        call_ensures(record_matches, (record, filters), r),
    ensures
        ({
            let f = filters@;
            let in_app = |needle: Seq<char>|
                record.app is Some && text_contains(lowercase(record.app->Some_0@), needle);
            let in_payload = |needle: Seq<char>|
                exists|s: Seq<char>| #[trigger]
                    holds_string(record.payload@, s) && text_contains(lowercase(s), needle);
            &&& (r <==> {
                &&& f.start_ts_ns <= record.ts_ns <= f.end_ts_ns
                &&& (f.kinds.len() > 0 ==> f.kinds.contains(record.kind))
                &&& (f.actor == Some(ActorFilter::Human) ==> record.actor is Human)
                &&& (f.actor == Some(ActorFilter::Agent) ==> record.actor is Agent)
                &&& (f.apps_lower.len() > 0 ==> record.app is Some && f.apps_lower.contains(
                    lowercase(record.app->Some_0@),
                ))
                &&& (f.text_lower is Some ==> in_app(f.text_lower->Some_0) || in_payload(
                    f.text_lower->Some_0,
                ))
            })
        }),
{
    law_records_match_what_is_searched_for(*record, filters@);
    let f = filters@;
    if f.kinds.contains(record.kind) {
        let i = choose|i: int| 0 <= i < f.kinds.len() && f.kinds[i] == record.kind;
        assert(f.kinds[i] == record.kind);
    }
    if record.app is Some && f.apps_lower.contains(lowercase(record.app->Some_0@)) {
        let i = choose|i: int|
            0 <= i < f.apps_lower.len() && f.apps_lower[i] == lowercase(record.app->Some_0@);
        assert(f.apps_lower[i] == lowercase(record.app->Some_0@));
    }
}

/// A record whose app and payload are in lower case is matched as it stands: its text in the app or in a
/// string of the payload.
pub proof fn law_lowered_records_match_by_app_or_payload(
    record: &TimelineRecord,
    app_lower: &Option<String>,
    payload_lower: &Json,
    filters: &Filters,
    r: bool,
)
    requires
        call_ensures(matches_lowered, (record, app_lower, payload_lower, filters), r),
    ensures
        r <==> {
            let f = filters@;
            &&& f.start_ts_ns <= record.ts_ns <= f.end_ts_ns
            &&& (f.kinds.len() > 0 ==> f.kinds.contains(record.kind))
            &&& (f.actor == Some(ActorFilter::Human) ==> record.actor is Human)
            &&& (f.actor == Some(ActorFilter::Agent) ==> record.actor is Agent)
            &&& (f.apps_lower.len() > 0 ==> *app_lower is Some && f.apps_lower.contains(
                (*app_lower)->Some_0@,
            ))
            &&& (f.text_lower is Some ==> (*app_lower is Some && text_contains(
                (*app_lower)->Some_0@,
                f.text_lower->Some_0,
            )) || exists|s: Seq<char>| #[trigger]
                holds_string(payload_lower@, s) && text_contains(s, f.text_lower->Some_0))
        },
{
    if filters@.text_lower is Some {
        law_payload_text_is_in_a_string(payload_lower@, filters@.text_lower->Some_0);
    }
}

/// A payload contains a text where one of its strings, in lower case, does.
pub proof fn law_payloads_contain_by_their_strings(value: &Json, needle: &str, plain: bool, r: bool)
    requires
        call_ensures(json_contains_text, (value, needle), plain),
        call_ensures(value_contains, (value, needle), r),
    ensures
        plain <==> exists|s: Seq<char>| #[trigger]
            holds_string(value@, s) && text_contains(s, needle@),
        r <==> exists|s: Seq<char>| #[trigger]
            holds_string(value@, s) && text_contains(lowercase(s), needle@),
{
    law_payload_text_is_in_a_string(value@, needle@);
    let lowered = lowered_json(value@);
    law_payload_text_is_in_a_string(lowered, needle@);
    if json_has_text(lowered, needle@) {
        let t = choose|t: Seq<char>| #[trigger]
            holds_string(lowered, t) && text_contains(t, needle@);
        law_lowering_reaches_every_string(value@, t);
    }
    if exists|s: Seq<char>| #[trigger]
        holds_string(value@, s) && text_contains(lowercase(s), needle@) {
        let s = choose|s: Seq<char>| #[trigger]
            holds_string(value@, s) && text_contains(lowercase(s), needle@);
        law_lowering_reaches_every_string(value@, lowercase(s));
        assert(holds_string(lowered, lowercase(s)));
    }
}

/// A search begins with what its parameters ask for, or is refused for one of its reasons; it has then
/// seen nothing, and begins behind its cursor's key or at the beginning of its range.
pub proof fn law_searches_begin_as_asked(
    params: &TimelineSearchParams,
    scan_start: Vec<u8>,
    checked: Result<Filters, ToolError>,
    r: Result<(Filters, TimelineScan), ToolError>,
    i: int,
)
    requires
        call_ensures(validate, (params, scan_start), checked),
        call_ensures(search_timeline, (params, scan_start), r),
    ensures
        checked is Ok <==> r is Ok,
        r is Ok <==> {
            &&& params.start_ts_ns.unwrap_or(0) <= params.end_ts_ns.unwrap_or(0xffff_ffff_ffff_ffff)
            &&& (params.limit matches Some(n) ==> 1 <= n <= 500)
            &&& (params.apps matches Some(apps) ==> forall|k: int|
                0 <= k < apps@.len() ==> trimmed((#[trigger] apps@[k])@).len() > 0)
            &&& (params.text matches Some(text) ==> trimmed(text@).len() > 0
                && vstd::utf8::encode_utf8(trimmed(text@)).len() <= 512)
            &&& (params.kinds matches Some(kinds) ==> forall|k: int|
                0 <= k < kinds@.len() ==> kind_of(trimmed((#[trigger] kinds@[k])@)) is Some)
            &&& (params.actor matches Some(actor) ==> lowercase(trimmed(actor@)) == "human"@
                || lowercase(trimmed(actor@)) == "agent"@)
            &&& (params.cursor matches Some(cursor) ==> hex_decoded(cursor@) is Some)
        },
        r is Ok ==> {
            let f = (r->Ok_0).0@;
            let scan = (r->Ok_0).1;
            &&& f.start_ts_ns == params.start_ts_ns.unwrap_or(0)
            &&& f.end_ts_ns == params.end_ts_ns.unwrap_or(0xffff_ffff_ffff_ffff)
            &&& (params.limit is None ==> f.limit == 100)
            &&& (params.limit matches Some(n) ==> f.limit == n)
            &&& (params.text is None ==> f.text_lower is None)
            &&& (params.text matches Some(text) ==> f.text_lower == Some(
                lowercase(trimmed(text@)),
            ))
            &&& (params.apps is None ==> f.apps_lower.len() == 0)
            &&& (params.apps matches Some(apps) ==> f.apps_lower.len() == apps@.len() && (0 <= i
                < apps@.len() ==> f.apps_lower[i] == lowercase(trimmed(apps@[i]@))))
            &&& (params.kinds is None ==> f.kinds.len() == 0)
            &&& (params.kinds matches Some(kinds) ==> f.kinds.len() == kinds@.len() && (0 <= i
                < kinds@.len() ==> kind_of(trimmed(kinds@[i]@)) == Some(f.kinds[i])))
            &&& (params.actor is None <==> f.actor is None)
            &&& (params.cursor is None ==> f.start_key == scan_start@)
            &&& (params.cursor matches Some(cursor) ==> f.start_key == hex_decoded(
                cursor@,
            )->Some_0.push(0))
            &&& scan@.matches.len() == 0 && scan@.scanned == 0 && scan@.invalid == 0
            &&& scan.next_start@ == f.start_key
        },
{
    law_searches_are_refused_for_a_reason(*params);
    law_parameters_become_filters(*params, scan_start@, i);
    if let Some(kinds) = params.kinds {
        let entries = entries_of(params.kinds);
        if 0 <= i < kinds@.len() && r is Ok {
            assert(entries[i] == kinds@[i]@);
        }
    }
}

/// The kinds of the timeline are read by their names, without the blanks round them, and written by
/// them; an actor is a human or an agent.
pub proof fn law_kinds_and_actors_are_read_by_name(
    raw: &str,
    lowered: &str,
    kind: TimelineKind,
    name: String,
    parsed: Result<TimelineKind, ToolError>,
    actor: Result<ActorFilter, ToolError>,
)
    requires
        call_ensures(kind_name, (kind,), name),
        call_ensures(parse_kind, (raw,), parsed),
        call_ensures(actor_filter, (lowered,), actor),
    ensures
        trimmed(raw@) == name@ ==> parsed == Ok::<TimelineKind, ToolError>(kind),
        parsed == Ok::<TimelineKind, ToolError>(kind) ==> trimmed(raw@) == name@,
        lowered@ == "human"@ ==> actor == Ok::<ActorFilter, ToolError>(ActorFilter::Human),
        lowered@ == "agent"@ ==> actor == Ok::<ActorFilter, ToolError>(ActorFilter::Agent),
        lowered@ != "human"@ && lowered@ != "agent"@ ==> actor is Err,
{
    law_kind_names_read_back(kind);
    reveal_strlit("human");
    reveal_strlit("agent");
    assert("human"@[0] == 'h' && "agent"@[0] == 'a');
}

/// A match tells its key in hexadecimal, its number, and all of its record.
pub proof fn law_matches_tell_of_their_record(
    key: &[u8],
    seq: Option<u32>,
    record: &TimelineRecord,
    r: TimelineSearchMatch,
)
    requires
        call_ensures(to_match, (key, seq, record), r),
    ensures
        r@.key_hex == crate::keys::hex_of(key@),
        r@.seq == seq,
        r@.ts_ns == record.ts_ns,
        kind_of(r@.kind) == Some(record.kind),
        record.actor is Human ==> r@.actor == "human"@,
        record.actor matches TimelineActor::Agent { session_id } ==> r@.actor == "agent:"@
            + session_id@,
        record.app is Some <==> r@.app is Some,
        record.app matches Some(app) ==> r@.app == Some(app@),
        r@.payload == record.payload@,
{
    law_kind_names_read_back(record.kind);
}

/// The names of the kinds and of the reasons to stop.
pub proof fn law_names_of_kinds_and_reasons(
    kind: TimelineKind,
    reason: StopReason,
    name: String,
    why: String,
)
    requires
        call_ensures(kind_name, (kind,), name),
        call_ensures(stop_name, (reason,), why),
    ensures
        kind is FocusChange ==> name@ == "focus_change"@,
        kind is TitleChange ==> name@ == "title_change"@,
        kind is IdleStart ==> name@ == "idle_start"@,
        kind is IdleEnd ==> name@ == "idle_end"@,
        kind is SessionStart ==> name@ == "session_start"@,
        kind is SessionEnd ==> name@ == "session_end"@,
        kind is BrowserNav ==> name@ == "browser_nav"@,
        kind is Clipboard ==> name@ == "clipboard"@,
        reason is LimitReached ==> why@ == "limit_reached"@,
        reason is ScanBudgetExhausted ==> why@ == "scan_budget_exhausted"@,
        reason is EndTsReached ==> why@ == "end_ts_reached"@,
        reason is EndOfTimeline ==> why@ == "end_of_timeline"@,
{
}

/// What one row does to a search: past the end of the range it stops it without a cursor; otherwise it is
/// counted, as invalid where it cannot be read, and collected exactly where it matches. The search then
/// stops where it has as many as it is limited to, with a cursor behind that row, or where nothing is
/// left, and otherwise goes on behind the row.
pub proof fn law_rows_are_searched_one_by_one(
    scan: TimelineScan,
    chunk: &TimelineChunk,
    filters: &Filters,
    matched: bool,
    r: TimelineStep,
)
    requires
        scan.within_budget(),
        scan.scanned_rows < 99_999,
        chunk.rows@.len() == 1,
        call_ensures(TimelineScan::absorb, (scan, chunk, filters), r),
        chunk.rows@[0].record matches Ok(record) ==> call_ensures(
            record_matches,
            (&record, filters),
            matched,
        ),
    ensures
        ({
            let row = chunk.rows@[0];
            let past = row.codec is Some && row.codec->Some_0.0 > filters@.end_ts_ns;
            let hit = !past && row.record is Ok && matched;
            let n = scan.matches@.len() + if hit {
                1int
            } else {
                0
            };
            let full = hit && n >= filters@.limit;
            &&& (r is Done <==> past || full || !chunk.more)
            &&& (r matches TimelineStep::Done(done) ==> {
                &&& done.matches@.len() == n
                &&& done.scanned_rows == scan.scanned_rows + 1
                &&& (done.invalid_rows == scan.invalid_rows + 1 <==> !past && row.record is Err)
                &&& (done.invalid_rows == scan.invalid_rows <==> past || row.record is Ok)
                &&& (done.next_cursor is Some <==> full)
                &&& (full ==> done.next_cursor->Some_0@ == crate::keys::hex_of(row.key@))
                &&& done.stopped_because@ == (if past {
                    "end_ts_reached"@
                } else if full {
                    "limit_reached"@
                } else {
                    "end_of_timeline"@
                })
            })
            &&& (r matches TimelineStep::Read(next) ==> {
                &&& next.matches@.len() == n
                &&& next.scanned_rows == scan.scanned_rows + 1
                &&& (next.invalid_rows == scan.invalid_rows + 1 <==> row.record is Err)
                &&& next.next_start@ == row.key@.push(0)
            })
        }),
{
    let row = chunk.rows@[0];
    reveal_with_fuel(take_rows, 2);
    assert(chunk.rows@.drop_first() =~= Seq::empty());
    let after = take_row(scan@, row, filters@);
    assert(take_rows(scan@, chunk.rows@, filters@) == after);
    assert(match_views(scan.matches@).len() == scan.matches@.len());
    if let TimelineStep::Done(done) = r {
        assert(match_views(done.matches@).len() == done.matches@.len());
    }
    if let TimelineStep::Read(next) = r {
        assert(next@.matches == match_views(next.matches@));
        assert(match_views(next.matches@).len() == next.matches@.len());
        assert(next@.scanned == next.scanned_rows);
        assert(next@.invalid == next.invalid_rows);
    }
}

/// A search that names an unknown kind is refused for the first of them.
pub proof fn law_first_unknown_kind_is_told(
    params: &TimelineSearchParams,
    scan_start: Vec<u8>,
    r: Result<Filters, ToolError>,
    kinds: Vec<String>,
    at: int,
)
    requires
        call_ensures(validate, (params, scan_start), r),
        early_error(*params) is None,
        params.kinds == Some(kinds),
        0 <= at < kinds@.len(),
        kind_of(trimmed(kinds@[at]@)) is None,
        forall|i: int| 0 <= i < at ==> kind_of(trimmed((#[trigger] kinds@[i])@)) is Some,
    ensures
        r is Err,
        (r->Err_0)@ == unknown_kind(kinds@[at]@),
{
    let names = entries_of(params.kinds);
    assert(names[at] == kinds@[at]@);
    let p = choose|p: int| #[trigger]
        unknown_first_at(names, p) && (r->Err_0)@ == unknown_kind(names[p]);
    if p < at {
        assert(names[p] == kinds@[p]@);
    }
    if at < p {
        assert(kind_of(trimmed(names[at])) is Some);
    }
}

} // verus!
