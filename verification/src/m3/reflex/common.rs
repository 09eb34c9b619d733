//! What the reflex tools share.
//!
//! A reflex waits for an event and then acts. Here the call's description of the event becomes a
//! filter, and its description of what to do becomes actions.

use vstd::prelude::*;

use crate::json::{json_copy, json_int, json_text, json_u64, Json, JsonView};
use crate::m2::action::{Backend, Key};
use crate::m2::stroke::MouseButton;
use crate::m3::a11y_events::{event_filter_requires_a11y_bridge, needs_interface, normal_kind,
    normalize_kind};
use crate::m3::events::{DataPredicate, EventFilter, EventSource, FilterView,
    PredicateView};
use crate::numerals::{decimal, decimal_text};
use crate::text::{ascii_lower, cat2, cat3, cat4, cat5, chars_of, debug_quoted,
    equal_ignoring_ascii_case, is_blank, quoted, split_on, split_text, text_equal,
    text_starts_with, to_ascii_lower, trim, trimmed, views};

verus! {

/// Why a reflex is refused.
#[derive(Debug, PartialEq, Eq)]
pub enum ReflexError {
    ParamsInvalid { detail: String },
}

impl ReflexError {
    /// The detail.
    pub open spec fn text(self) -> Seq<char> {
        match self {
            ReflexError::ParamsInvalid { detail } => detail@,
        }
    }
}

fn refuse(detail: String) -> (r: ReflexError)
    ensures
        r.text() == detail@,
{
    ReflexError::ParamsInvalid { detail }
}

// ---------------------------------------------------------------------------------------------
// Waiting for lines of a file
// ---------------------------------------------------------------------------------------------

/// The kind of the events that say that lines were added to a file.
pub const FILE_JSONL_TAIL_EVENT_KIND: &'static str = "file_jsonl_tail";

/// Time, in milliseconds, between two looks at a file where a call names none.
pub const DEFAULT_FILE_JSONL_TAIL_POLL_INTERVAL_MS: u64 = 1000;

/// Least time, in milliseconds, between two looks at a file.
pub const MIN_FILE_JSONL_TAIL_POLL_INTERVAL_MS: u64 = 50;

/// Greatest time, in milliseconds, between two looks at a file.
pub const MAX_FILE_JSONL_TAIL_POLL_INTERVAL_MS: u64 = 600_000;

/// Waiting for lines of a file.
#[derive(Debug)]
pub struct FileJsonlTailWhen {
    pub kind: FileJsonlTailKind,
    pub host: String,
    pub path: String,
    pub predicate: FileJsonlTailPredicate,
    pub min_lines: u64,
    pub poll_interval_ms: u64,
}

/// The kind of waiting.
#[derive(Clone, Copy, Debug, PartialEq, Eq, Structural)]
pub enum FileJsonlTailKind {
    FileJsonlTail,
}

/// What must hold of the last line.
#[derive(Debug)]
pub struct FileJsonlTailPredicate {
    pub json_path: String,
    pub equals: Json,
}

/// Waiting for lines of a file, once it was checked.
#[derive(Debug)]
pub struct ValidatedFileJsonlTailWhen {
    pub host: String,
    pub path: String,
    pub json_path: String,
    pub json_pointer: String,
    pub event_data_pointer: String,
    pub equals: Json,
    pub min_lines: u64,
    pub poll_interval_ms: u64,
    pub local_host: bool,
}

/// The time between two looks at a file where a call names none.
pub fn default_file_jsonl_tail_poll_interval_ms() -> (r: u64)
    ensures
        r == DEFAULT_FILE_JSONL_TAIL_POLL_INTERVAL_MS,
{
    DEFAULT_FILE_JSONL_TAIL_POLL_INTERVAL_MS
}

/// Whether a character is an ASCII control character.
pub open spec fn is_control(c: char) -> bool {
    c <= '\u{1f}' || c == '\u{7f}'
}

/// Whether a character could mean something to a shell, or ends a host's name.
pub open spec fn is_shell_char(c: char) -> bool {
    ||| is_control(c)
    ||| c == ' '
    ||| c == '\''
    ||| c == '"'
    ||| c == '`'
    ||| c == '$'
    ||| c == ';'
    ||| c == '|'
    ||| c == '&'
    ||| c == '<'
    ||| c == '>'
    ||| c == '\\'
    ||| c == '/'
}

/// Whether a character is an ASCII letter or digit.
pub open spec fn is_alphanumeric(c: char) -> bool {
    'a' <= c <= 'z' || 'A' <= c <= 'Z' || '0' <= c <= '9'
}

/// Whether a character can stand in a host's name.
pub open spec fn is_host_char(c: char) -> bool {
    is_alphanumeric(c) || c == '.' || c == '_' || c == '-'
}

fn control(c: char) -> (r: bool)
    ensures
        r == is_control(c),
{
    c <= '\u{1f}' || c == '\u{7f}'
}

fn shell_char(c: char) -> (r: bool)
    ensures
        r == is_shell_char(c),
{
    control(c) || c == ' ' || c == '\'' || c == '"' || c == '`' || c == '$' || c == ';' || c == '|'
        || c == '&' || c == '<' || c == '>' || c == '\\' || c == '/'
}

fn alphanumeric(c: char) -> (r: bool)
    ensures
        r == is_alphanumeric(c),
{
    ('a' <= c && c <= 'z') || ('A' <= c && c <= 'Z') || ('0' <= c && c <= '9')
}

fn host_char(c: char) -> (r: bool)
    ensures
        r == is_host_char(c),
{
    alphanumeric(c) || c == '.' || c == '_' || c == '-'
}

/// Why a host is refused, if it is.
pub open spec fn host_refusal(raw: Seq<char>) -> Option<Seq<char>> {
    let host = trimmed(raw);
    if host.len() == 0 {
        Some("file_jsonl_tail host must not be empty"@)
    } else if exists|i: int| 0 <= i < host.len() && is_shell_char(#[trigger] host[i]) {
        Some("file_jsonl_tail host contains unsupported characters"@)
    } else if exists|i: int| 0 <= i < host.len() && !is_host_char(#[trigger] host[i]) {
        Some("file_jsonl_tail host must contain only letters, digits, '.', '_' or '-'"@)
    } else {
        None
    }
}

/// Checks a host.
pub fn validate_file_jsonl_tail_host(raw: &str) -> (r: Result<String, ReflexError>)
    ensures
        match host_refusal(raw@) {
            Some(detail) => r matches Err(e) && e.text() == detail,
            None => r matches Ok(host) && host@ == trimmed(raw@),
        },
{
    let host = trim(raw);
    let chars = chars_of(host.as_str());
    if chars.len() == 0 {
        return Err(refuse("file_jsonl_tail host must not be empty".to_owned()));
    }
    let mut strange: bool = false;
    let mut i: usize = 0;
    while i < chars.len()
        invariant
            i <= chars@.len(),
            chars@ == trimmed(raw@),
            forall|k: int| 0 <= k < i ==> !is_shell_char(#[trigger] chars@[k]),
            strange == exists|k: int| 0 <= k < i && !is_host_char(#[trigger] chars@[k]),
        decreases chars@.len() - i,
    {
        if shell_char(chars[i]) {
            assert(is_shell_char(trimmed(raw@)[i as int]));
            return Err(refuse("file_jsonl_tail host contains unsupported characters".to_owned()));
        }
        if !host_char(chars[i]) {
            strange = true;
            assert(!is_host_char(chars@[i as int]));
        }
        i += 1;
    }
    if strange {
        return Err(
            refuse(
                "file_jsonl_tail host must contain only letters, digits, '.', '_' or '-'".to_owned(),
            ),
        );
    }
    Ok(host)
}

/// The name of this machine, where the environment gives one.
pub fn machine_name<'a>(computer_name: Option<&'a str>, host_name: Option<&'a str>) -> (r: Option<
    &'a str,
>)
    ensures
        r == (if computer_name is Some {
            computer_name
        } else {
            host_name
        }),
{
    match computer_name {
        Some(name) => Some(name),
        None => host_name,
    }
}

/// Whether a host is this machine, whose name `machine` is.
pub open spec fn is_local_host(host: Seq<char>, machine: Option<&str>) -> bool {
    let name = ascii_lower(trimmed(host));
    ||| name == "localhost"@
    ||| name == "127.0.0.1"@
    ||| machine matches Some(own) && ascii_lower(own@) == ascii_lower(name)
}

/// Says whether a host is this machine.
pub fn is_local_file_jsonl_tail_host(host: &str, machine: Option<&str>) -> (r: bool)
    ensures
        r == is_local_host(host@, machine),
{
    let bare = trim(host);
    let name = to_ascii_lower(bare.as_str());
    if text_equal(name.as_str(), "localhost") || text_equal(name.as_str(), "127.0.0.1") {
        return true;
    }
    match machine {
        Some(own) => equal_ignoring_ascii_case(own, name.as_str()),
        None => false,
    }
}

/// Whether a path is absolute as Windows writes paths: a drive, or a share.
pub open spec fn is_windows_path(path: Seq<char>) -> bool {
    ||| {
        &&& path.len() >= 3
        &&& ('a' <= path[0] <= 'z' || 'A' <= path[0] <= 'Z')
        &&& path[1] == ':'
        &&& (path[2] == '\\' || path[2] == '/')
    }
    ||| path.len() >= 2 && path[0] == '\\' && path[1] == '\\'
}

/// Says whether a path is absolute as Windows writes paths.
pub fn is_windows_absolute_path(path: &str) -> (r: bool)
    ensures
        r == is_windows_path(path@),
{
    let chars = chars_of(path);
    if chars.len() >= 3 {
        let drive: char = chars[0];
        if (('a' <= drive && drive <= 'z') || ('A' <= drive && drive <= 'Z')) && chars[1] == ':' && (
        chars[2] == '\\' || chars[2] == '/') {
            return true;
        }
    }
    chars.len() >= 2 && chars[0] == '\\' && chars[1] == '\\'
}

/// Why a path is refused, if it is. `absolute` says whether the platform takes it for absolute.
pub open spec fn path_refusal(raw: Seq<char>, local_host: bool, absolute: bool) -> Option<Seq<char>> {
    let path = trimmed(raw);
    if path.len() == 0 {
        Some("file_jsonl_tail path must not be empty"@)
    } else if exists|i: int| 0 <= i < path.len() && is_control(#[trigger] path[i]) {
        Some("file_jsonl_tail path contains unsupported control characters"@)
    } else if local_host && !(path[0] == '/' || absolute || is_windows_path(path)) {
        Some("file_jsonl_tail local path must be absolute"@)
    } else if !local_host && path[0] != '/' {
        Some("file_jsonl_tail remote path must be POSIX absolute"@)
    } else {
        None
    }
}

/// Checks a path. `absolute` says whether the platform takes it for absolute.
pub fn validate_file_jsonl_tail_path(raw: &str, local_host: bool, absolute: bool) -> (r: Result<
    String,
    ReflexError,
>)
    ensures
        match path_refusal(raw@, local_host, absolute) {
            Some(detail) => r matches Err(e) && e.text() == detail,
            None => r matches Ok(path) && path@ == trimmed(raw@),
        },
{
    let path = trim(raw);
    let chars = chars_of(path.as_str());
    if chars.len() == 0 {
        return Err(refuse("file_jsonl_tail path must not be empty".to_owned()));
    }
    let mut i: usize = 0;
    while i < chars.len()
        invariant
            i <= chars@.len(),
            chars@ == trimmed(raw@),
            forall|k: int| 0 <= k < i ==> !is_control(#[trigger] chars@[k]),
        decreases chars@.len() - i,
    {
        if control(chars[i]) {
            assert(is_control(trimmed(raw@)[i as int]));
            return Err(
                refuse("file_jsonl_tail path contains unsupported control characters".to_owned()),
            );
        }
        i += 1;
    }
    let rooted: bool = chars[0] == '/';
    if local_host {
        if rooted || absolute || is_windows_absolute_path(path.as_str()) {
            return Ok(path);
        }
        return Err(refuse("file_jsonl_tail local path must be absolute".to_owned()));
    }
    if rooted {
        return Ok(path);
    }
    Err(refuse("file_jsonl_tail remote path must be POSIX absolute".to_owned()))
}

/// Whether a character can stand in the name of a field.
pub open spec fn is_field_char(c: char) -> bool {
    is_alphanumeric(c) || c == '_' || c == '-'
}

/// What is wrong with one field of a path, if anything is.
pub open spec fn segment_fault(segment: Seq<char>) -> Option<Seq<char>> {
    if segment.len() == 0 {
        Some("file_jsonl_tail predicate.json_path has an empty segment"@)
    } else if exists|i: int| 0 <= i < segment.len() && !is_field_char(#[trigger] segment[i]) {
        Some("file_jsonl_tail predicate.json_path supports only simple object fields"@)
    } else {
        None
    }
}

/// What is wrong with the fields of a path: the first fault, if there is any.
pub open spec fn first_fault(segments: Seq<Seq<char>>) -> Option<Seq<char>>
    decreases segments.len(),
{
    if segments.len() == 0 {
        None
    } else if first_fault(segments.drop_last()) is Some {
        first_fault(segments.drop_last())
    } else {
        segment_fault(segments.last())
    }
}

/// The pointer to a field: the fields on the way to it, each behind a slash.
pub open spec fn pointer_text(segments: Seq<Seq<char>>) -> Seq<char>
    decreases segments.len(),
{
    if segments.len() == 0 {
        Seq::empty()
    } else {
        pointer_text(segments.drop_last()) + "/"@ + segments.last()
    }
}

/// Why a path to a field is refused, if it is.
pub open spec fn pointer_refusal(json_path: Seq<char>) -> Option<Seq<char>> {
    if json_path == "$"@ {
        None
    } else if !("$."@.is_prefix_of(json_path)) {
        Some(
            "file_jsonl_tail predicate.json_path must be '$' or a simple '$.field[.field]' path"@,
        )
    } else if json_path.len() == 2 {
        Some("file_jsonl_tail predicate.json_path must not end at '$.'"@)
    } else {
        first_fault(split_on(json_path.skip(2), '.'))
    }
}

/// The pointer that a path to a field stands for.
pub open spec fn pointer_of(json_path: Seq<char>) -> Seq<char> {
    if json_path == "$"@ {
        Seq::empty()
    } else {
        pointer_text(split_on(json_path.skip(2), '.'))
    }
}

proof fn lemma_fault_stays_first(segments: Seq<Seq<char>>, k: int)
    requires
        0 <= k <= segments.len(),
        first_fault(segments.subrange(0, k)) is Some,
    ensures
        first_fault(segments) == first_fault(segments.subrange(0, k)),
    decreases segments.len() - k,
{
    if k < segments.len() {
        assert(segments.subrange(0, k + 1).drop_last() =~= segments.subrange(0, k));
        lemma_fault_stays_first(segments, k + 1);
    } else {
        assert(segments.subrange(0, k) =~= segments);
    }
}

fn simple_field(segment: &str) -> (r: bool)
    ensures
        r == !(exists|i: int| 0 <= i < segment@.len() && !is_field_char(#[trigger] segment@[i])),
{
    let chars = chars_of(segment);
    let mut i: usize = 0;
    while i < chars.len()
        invariant
            i <= chars@.len(),
            chars@ == segment@,
            forall|k: int| 0 <= k < i ==> is_field_char(#[trigger] chars@[k]),
        decreases chars@.len() - i,
    {
        if !(alphanumeric(chars[i]) || chars[i] == '_' || chars[i] == '-') {
            assert(!is_field_char(segment@[i as int]));
            return false;
        }
        i += 1;
    }
    true
}

/// Turns a path to a field into a pointer.
pub fn json_path_to_pointer(json_path: &str) -> (r: Result<String, ReflexError>)
    ensures
        match pointer_refusal(json_path@) {
            Some(detail) => r matches Err(e) && e.text() == detail,
            None => r matches Ok(pointer) && pointer@ == pointer_of(json_path@),
        },
{
    if text_equal(json_path, "$") {
        let empty = String::new();
        assert(empty@ =~= pointer_of(json_path@));
        return Ok(empty);
    }
    if !text_starts_with(json_path, "$.") {
        return Err(
            refuse(
                "file_jsonl_tail predicate.json_path must be '$' or a simple '$.field[.field]' path".to_owned(),
            ),
        );
    }
    proof {
        reveal_strlit("$.");
    }
    let length: usize = json_path.unicode_len();
    if length == 2 {
        return Err(
            refuse("file_jsonl_tail predicate.json_path must not end at '$.'".to_owned()),
        );
    }
    let chars = chars_of(json_path);
    let rest = crate::text::text_of(vstd::slice::slice_subrange(chars.as_slice(), 2, chars.len()));
    assert(rest@ =~= json_path@.skip(2));
    let segments = split_text(rest.as_str(), '.');
    let ghost all = views(segments@);
    let mut pointer = String::new();
    let mut i: usize = 0;
    assert(pointer@ =~= pointer_text(all.subrange(0, 0)));
    while i < segments.len()
        invariant
            i <= segments@.len(),
            all == views(segments@),
            all == split_on(json_path@.skip(2), '.'),
            first_fault(all.subrange(0, i as int)) is None,
            pointer@ == pointer_text(all.subrange(0, i as int)),
            json_path@ != "$"@,
            "$."@.is_prefix_of(json_path@),
            json_path@.len() != 2,
        decreases segments@.len() - i,
    {
        proof {
            assert(all.subrange(0, i + 1).drop_last() =~= all.subrange(0, i as int));
            assert(all.subrange(0, i + 1).last() == segments@[i as int]@);
            if segment_fault(segments@[i as int]@) is Some {
                lemma_fault_stays_first(all, i + 1);
            }
        }
        if segments[i].as_str().unicode_len() == 0 {
            return Err(
                refuse("file_jsonl_tail predicate.json_path has an empty segment".to_owned()),
            );
        }
        if !simple_field(segments[i].as_str()) {
            return Err(
                refuse(
                    "file_jsonl_tail predicate.json_path supports only simple object fields".to_owned(),
                ),
            );
        }
        pointer = cat3(pointer.as_str(), "/", segments[i].as_str());
        i += 1;
    }
    assert(all.subrange(0, all.len() as int) =~= all);
    Ok(pointer)
}

/// Why waiting for lines of a file is refused, if it is.
pub open spec fn tail_refusal(
    when: FileJsonlTailWhen,
    machine: Option<&str>,
    absolute: bool,
) -> Option<Seq<char>> {
    let local = is_local_host(trimmed(when.host@), machine);
    if host_refusal(when.host@) is Some {
        host_refusal(when.host@)
    } else if path_refusal(when.path@, local, absolute) is Some {
        path_refusal(when.path@, local, absolute)
    } else if when.min_lines == 0 {
        Some("file_jsonl_tail min_lines must be at least 1"@)
    } else if !(50 <= when.poll_interval_ms <= 600_000) {
        Some("file_jsonl_tail poll_interval_ms must be between 50 and 600000"@)
    } else {
        pointer_refusal(trimmed(when.predicate.json_path@))
    }
}

/// Waiting for lines of a file, once it was checked.
pub open spec fn is_validated(
    v: ValidatedFileJsonlTailWhen,
    when: FileJsonlTailWhen,
    machine: Option<&str>,
) -> bool {
    &&& v.host@ == trimmed(when.host@)
    &&& v.path@ == trimmed(when.path@)
    &&& v.json_path@ == trimmed(when.predicate.json_path@)
    &&& v.json_pointer@ == pointer_of(trimmed(when.predicate.json_path@))
    &&& v.event_data_pointer@ == "/last_json"@ + pointer_of(trimmed(when.predicate.json_path@))
    &&& v.equals@ == when.predicate.equals@
    &&& v.min_lines == when.min_lines
    &&& v.poll_interval_ms == when.poll_interval_ms
    &&& v.local_host == is_local_host(trimmed(when.host@), machine)
}

/// The filter for lines of a file.
pub open spec fn tail_filter<U, Q>(when: FileJsonlTailWhen) -> FilterView<U, Q> {
    FilterView::And(
        seq![
            FilterView::Source(EventSource::Filesystem),
            FilterView::Kind(FILE_JSONL_TAIL_EVENT_KIND@),
            FilterView::Data("/host"@, PredicateView::Eq(JsonView::Text(trimmed(when.host@)))),
            FilterView::Data("/path"@, PredicateView::Eq(JsonView::Text(trimmed(when.path@)))),
            FilterView::Data(
                "/line_count"@,
                PredicateView::Ge(json_int(when.min_lines as int)),
            ),
            FilterView::Data(
                "/last_json"@ + pointer_of(trimmed(when.predicate.json_path@)),
                PredicateView::Eq(when.predicate.equals@),
            ),
        ],
    )
}

fn equals_filter<U, Q>(path: &str, value: Json) -> (r: EventFilter<U, Q>)
    ensures
        r@ == FilterView::<U, Q>::Data(path@, PredicateView::Eq(value@)),
{
    EventFilter::Data { path: path.to_owned(), predicate: DataPredicate::Eq { value } }
}

fn conjunction<U, Q>(args: Vec<EventFilter<U, Q>>) -> (r: EventFilter<U, Q>)
    ensures
        r@ is And,
        r@->And_0.len() == args@.len(),
        forall|i: int| 0 <= i < args@.len() ==> #[trigger] r@->And_0[i] == args@[i]@,
{
    EventFilter::And { args }
}

impl FileJsonlTailWhen {
    /// Checks waiting for lines of a file. `machine` is the name of this machine, `absolute` says
    /// whether the platform takes the path for absolute.
    pub fn validate(&self, machine: Option<&str>, absolute: bool) -> (r: Result<
        ValidatedFileJsonlTailWhen,
        ReflexError,
    >)
        ensures
            match tail_refusal(*self, machine, absolute) {
                Some(detail) => r matches Err(e) && e.text() == detail,
                None => r matches Ok(v) && is_validated(v, *self, machine),
            },
    {
        let host = match validate_file_jsonl_tail_host(self.host.as_str()) {
            Ok(host) => host,
            Err(e) => {
                return Err(e);
            },
        };
        let local_host: bool = is_local_file_jsonl_tail_host(host.as_str(), machine);
        let path = match validate_file_jsonl_tail_path(self.path.as_str(), local_host, absolute) {
            Ok(path) => path,
            Err(e) => {
                return Err(e);
            },
        };
        if self.min_lines == 0 {
            return Err(refuse("file_jsonl_tail min_lines must be at least 1".to_owned()));
        }
        if self.poll_interval_ms < MIN_FILE_JSONL_TAIL_POLL_INTERVAL_MS || self.poll_interval_ms
            > MAX_FILE_JSONL_TAIL_POLL_INTERVAL_MS {
            return Err(
                refuse(
                    "file_jsonl_tail poll_interval_ms must be between 50 and 600000".to_owned(),
                ),
            );
        }
        let json_path = trim(self.predicate.json_path.as_str());
        let json_pointer = match json_path_to_pointer(json_path.as_str()) {
            Ok(pointer) => pointer,
            Err(e) => {
                return Err(e);
            },
        };
        let event_data_pointer = cat2("/last_json", json_pointer.as_str());
        Ok(
            ValidatedFileJsonlTailWhen {
                host,
                path,
                json_path,
                json_pointer,
                event_data_pointer,
                equals: json_copy(&self.predicate.equals),
                min_lines: self.min_lines,
                poll_interval_ms: self.poll_interval_ms,
                local_host,
            },
        )
    }

    /// The filter for the lines that are waited for.
    pub fn into_event_filter<U, Q>(self, machine: Option<&str>, absolute: bool) -> (r: Result<
        EventFilter<U, Q>,
        ReflexError,
    >)
        ensures
            match tail_refusal(self, machine, absolute) {
                Some(detail) => r matches Err(e) && e.text() == detail,
                None => r matches Ok(filter) && filter@ == tail_filter::<U, Q>(self),
            },
    {
        let validated = match self.validate(machine, absolute) {
            Ok(validated) => validated,
            Err(e) => {
                return Err(e);
            },
        };
        let mut args: Vec<EventFilter<U, Q>> = Vec::new();
        args.push(EventFilter::Source { source: EventSource::Filesystem });
        args.push(EventFilter::Kind { kind: FILE_JSONL_TAIL_EVENT_KIND.to_owned() });
        args.push(equals_filter("/host", json_text(validated.host.as_str())));
        args.push(equals_filter("/path", json_text(validated.path.as_str())));
        args.push(
            EventFilter::Data {
                path: "/line_count".to_owned(),
                predicate: DataPredicate::Ge { value: json_u64(validated.min_lines) },
            },
        );
        args.push(equals_filter(validated.event_data_pointer.as_str(), validated.equals));
        let filter = conjunction(args);
        proof {
            assert(filter@->And_0[0] == FilterView::<U, Q>::Source(EventSource::Filesystem));
            assert(filter@->And_0 =~= tail_filter::<U, Q>(self)->And_0);
        }
        Ok(filter)
    }
}

// ---------------------------------------------------------------------------------------------
// Waiting for a window
// ---------------------------------------------------------------------------------------------

/// Waiting for an event of a window.
#[derive(Debug)]
pub struct WindowEventWhen {
    pub kind: String,
    pub match_clause: WindowEventMatch,
}

/// Which windows count.
#[derive(Debug)]
pub struct WindowEventMatch {
    pub window_title_regex: Option<String>,
}

impl Default for WindowEventMatch {
    fn default() -> (r: Self)
        ensures
            r.window_title_regex is None,
    {
        WindowEventMatch { window_title_regex: None }
    }
}

/// What `regex::Regex::new` has against a pattern, if it has anything.
pub uninterp spec fn regex_complaint(pattern: Seq<char>) -> Option<Seq<char>>;

/// `regex::Regex::new`: compiles a pattern. It succeeds or fails as the pattern alone decides, and a
/// failure is kept as the text that the error prints.
#[verifier::external_body]
fn compile_regex(pattern: &str) -> (r: Result<(), String>)
    ensures
        regex_complaint(pattern@) == (match r {
            Ok(_) => None,
            Err(error) => Some(error@),
        }),
{
    match regex::Regex::new(pattern) {
        Ok(_) => Ok(()),
        Err(error) => Err(error.to_string()),
    }
}

/// Why a pattern is refused, if it is, given what compiling it gave.
pub open spec fn pattern_refusal(
    pattern: Seq<char>,
    complaint: Option<Seq<char>>,
) -> Option<Seq<char>> {
    if is_blank(pattern) {
        Some("window_title_regex must not be empty"@)
    } else if complaint is Some {
        Some("window_title_regex is invalid: "@ + complaint->Some_0)
    } else {
        None
    }
}

/// Checks a pattern. `compiled` is what compiling it gave.
pub fn check_regex(pattern: &str, compiled: Result<(), String>) -> (r: Result<(), ReflexError>)
    ensures
        match pattern_refusal(
            pattern@,
            match compiled {
                Ok(_) => None,
                Err(error) => Some(error@),
            },
        ) {
            Some(detail) => r matches Err(e) && e.text() == detail,
            None => r is Ok,
        },
{
    if crate::text::blank(pattern) {
        return Err(refuse("window_title_regex must not be empty".to_owned()));
    }
    match compiled {
        Ok(_) => Ok(()),
        Err(error) => Err(refuse(cat2("window_title_regex is invalid: ", error.as_str()))),
    }
}

/// Checks a pattern.
pub fn validate_regex(pattern: &str) -> (r: Result<(), ReflexError>)
    ensures
        match pattern_refusal(pattern@, regex_complaint(pattern@)) {
            Some(detail) => r matches Err(e) && e.text() == detail,
            None => r is Ok,
        },
{
    let compiled = compile_regex(pattern);
    check_regex(pattern, compiled)
}

/// Why a kind of window event is refused, if it is.
pub open spec fn kind_refusal(kind: Seq<char>) -> Option<Seq<char>> {
    if normal_kind(kind).len() == 0 {
        Some("window event kind must not be empty"@)
    } else {
        None
    }
}

/// Brings a kind of window event into its plain form.
pub fn normalize_window_event_kind(raw: &str) -> (r: Result<String, ReflexError>)
    ensures
        match kind_refusal(raw@) {
            Some(detail) => r matches Err(e) && e.text() == detail,
            None => r matches Ok(kind) && kind@ == normal_kind(raw@),
        },
{
    let kind = normalize_kind(raw);
    if kind.as_str().unicode_len() == 0 {
        return Err(refuse("window event kind must not be empty".to_owned()));
    }
    Ok(kind)
}

/// Why waiting for a window is refused, if it is, given what compiling the pattern gave.
pub open spec fn window_refusal(
    when: WindowEventWhen,
    complaint: Option<Seq<char>>,
) -> Option<Seq<char>> {
    if kind_refusal(when.kind@) is Some {
        kind_refusal(when.kind@)
    } else {
        match when.match_clause.window_title_regex {
            Some(pattern) => pattern_refusal(pattern@, complaint),
            None => None,
        }
    }
}

/// The filter for events of a window.
pub open spec fn window_filter<U, Q>(when: WindowEventWhen) -> FilterView<U, Q> {
    let kind = FilterView::Kind(normal_kind(when.kind@));
    match when.match_clause.window_title_regex {
        Some(pattern) => FilterView::And(
            seq![kind, FilterView::Data("/window_title"@, PredicateView::Regex(pattern@))],
        ),
        None => kind,
    }
}

/// What `regex::Regex::new` has against the pattern of a call, if it has one.
pub open spec fn title_complaint(when: WindowEventWhen) -> Option<Seq<char>> {
    match when.match_clause.window_title_regex {
        Some(pattern) => regex_complaint(pattern@),
        None => None,
    }
}

impl WindowEventWhen {
    /// The filter for the events that are waited for. `compiled` is what compiling the pattern gave,
    /// where there is one.
    pub fn checked_event_filter<U, Q>(self, compiled: Result<(), String>) -> (r: Result<
        EventFilter<U, Q>,
        ReflexError,
    >)
        ensures
            match window_refusal(
                self,
                match compiled {
                    Ok(_) => None,
                    Err(error) => Some(error@),
                },
            ) {
                Some(detail) => r matches Err(e) && e.text() == detail,
                None => r matches Ok(filter) && filter@ == window_filter::<U, Q>(self),
            },
    {
        let kind = match normalize_window_event_kind(self.kind.as_str()) {
            Ok(kind) => kind,
            Err(e) => {
                return Err(e);
            },
        };
        match self.match_clause.window_title_regex {
            None => Ok(EventFilter::Kind { kind }),
            Some(pattern) => {
                if let Err(e) = check_regex(pattern.as_str(), compiled) {
                    return Err(e);
                }
                let mut args: Vec<EventFilter<U, Q>> = Vec::new();
                args.push(EventFilter::Kind { kind });
                args.push(
                    EventFilter::Data {
                        path: "/window_title".to_owned(),
                        predicate: DataPredicate::Regex { pattern },
                    },
                );
                let filter = conjunction(args);
                assert(filter@->And_0 =~= window_filter::<U, Q>(self)->And_0);
                Ok(filter)
            },
        }
    }

    /// The filter for the events that are waited for.
    pub fn into_event_filter<U, Q>(self) -> (r: Result<EventFilter<U, Q>, ReflexError>)
        ensures
            match window_refusal(self, title_complaint(self)) {
                Some(detail) => r matches Err(e) && e.text() == detail,
                None => r matches Ok(filter) && filter@ == window_filter::<U, Q>(self),
            },
    {
        let compiled: Result<(), String> = match &self.match_clause.window_title_regex {
            Some(pattern) => compile_regex(pattern.as_str()),
            None => Ok(()),
        };
        self.checked_event_filter(compiled)
    }
}

/// What a reflex waits for. What is not looked at of a filter is carried along in it.
#[derive(Debug)]
pub enum ReflexWhenParam<U, Q> {
    FileJsonlTail(FileJsonlTailWhen),
    Filter(EventFilter<U, Q>),
    WindowEvent(WindowEventWhen),
}

impl<U, Q> ReflexWhenParam<U, Q> {
    /// Whether what is waited for takes the accessibility interface.
    pub fn requires_a11y_event_bridge(&self) -> (r: bool)
        ensures
            r == (match *self {
                ReflexWhenParam::FileJsonlTail(_) => false,
                ReflexWhenParam::Filter(filter) => needs_interface(filter),
                ReflexWhenParam::WindowEvent(_) => true,
            }),
    {
        match self {
            ReflexWhenParam::FileJsonlTail(_) => false,
            ReflexWhenParam::Filter(filter) => event_filter_requires_a11y_bridge(filter),
            ReflexWhenParam::WindowEvent(_) => true,
        }
    }

    /// The filter for what is waited for. `machine` is the name of this machine, `absolute` says
    /// whether the platform takes the path of a file for absolute.
    pub fn into_event_filter(self, machine: Option<&str>, absolute: bool) -> (r: Result<
        EventFilter<U, Q>,
        ReflexError,
    >)
        ensures
            match self {
                ReflexWhenParam::Filter(filter) => r == Ok::<EventFilter<U, Q>, ReflexError>(filter),
                ReflexWhenParam::FileJsonlTail(when) => match tail_refusal(
                    when,
                    machine,
                    absolute,
                ) {
                    Some(detail) => r matches Err(e) && e.text() == detail,
                    None => r matches Ok(filter) && filter@ == tail_filter::<U, Q>(when),
                },
                ReflexWhenParam::WindowEvent(when) => match window_refusal(
                    when,
                    title_complaint(when),
                ) {
                    Some(detail) => r matches Err(e) && e.text() == detail,
                    None => r matches Ok(filter) && filter@ == window_filter::<U, Q>(when),
                },
            },
    {
        match self {
            ReflexWhenParam::FileJsonlTail(when) => when.into_event_filter(machine, absolute),
            ReflexWhenParam::Filter(filter) => Ok(filter),
            ReflexWhenParam::WindowEvent(when) => when.into_event_filter(),
        }
    }

    /// The file that is waited for, where one is.
    pub fn file_jsonl_tail(&self) -> (r: Option<&FileJsonlTailWhen>)
        ensures
            match *self {
                ReflexWhenParam::FileJsonlTail(when) => r == Some(&when),
                _ => r is None,
            },
    {
        match self {
            ReflexWhenParam::FileJsonlTail(when) => Some(when),
            _ => None,
        }
    }
}

// ---------------------------------------------------------------------------------------------
// Acting
// ---------------------------------------------------------------------------------------------

/// The action that only reads back.
pub const AUDIT_READBACK_ACTION: &'static str = "audit/readback";

/// What a button does.
#[derive(Clone, Copy, Debug, PartialEq, Eq, Structural)]
pub enum ButtonAction {
    Press,
    Down,
    Up,
}

/// An action. What is not looked at here is carried along as a `P`.
#[allow(inconsistent_fields)]
#[derive(Debug, PartialEq, Eq)]
pub enum ReflexAction<P> {
    KeyPress { key: Key, hold_ms: u32, backend: Backend },
    MouseButton { button: MouseButton, action: ButtonAction, hold_ms: u32, backend: Backend },
    MouseMoveRelative { motion: P, backend: Backend },
    Combo { steps: Vec<ComboStep<P>>, backend: Backend },
    /// Any other action that can be left to one of several backends.
    Routed { action: P, backend: Backend },
    PadButton { target: P, action: ButtonAction, hold_ms: u32 },
    /// Any other action.
    Fixed { action: P },
}

/// One step of a combo.
#[derive(Debug, PartialEq, Eq)]
pub struct ComboStep<P> {
    pub at_ms: u32,
    pub input: ComboInput<P>,
}

/// The input of one step of a combo.
#[derive(Debug, PartialEq, Eq)]
pub enum ComboInput<P> {
    KeyPress { key: Key, hold_ms: u16 },
    MouseButton { button: MouseButton, action: ButtonAction },
    MouseMoveRel { motion: P },
    Other { input: P },
}

/// An action that a step made, with what it prints as.
#[derive(Debug, PartialEq, Eq)]
pub struct MadeAction<P> {
    pub action: ReflexAction<P>,
    pub text: String,
}

/// One step of what to do: the name of a tool, and what its parameters make.
#[derive(Debug, PartialEq, Eq)]
pub struct ReflexThenStep<P> {
    pub action: String,
    /// The action that the tool makes of the parameters, or what it has against them.
    pub made: Result<MadeAction<P>, String>,
}

/// One step of what to do, at its time.
#[derive(Debug, PartialEq, Eq)]
pub struct ReflexTimedThenStep<P> {
    pub at_ms: u32,
    pub step: ReflexThenStep<P>,
}

/// One step of a combo as a call gives it.
#[derive(Debug, PartialEq, Eq)]
pub enum ReflexComboStepParam<P> {
    Core(ComboStep<P>),
    Tool(ReflexTimedThenStep<P>),
}

/// An action that a call asks for by name.
#[derive(Debug, PartialEq, Eq)]
pub struct ReflexThenAuditActionParam {
    pub action: String,
}

/// What to do, as the engine has it.
#[derive(Debug, PartialEq, Eq)]
pub enum ReflexThen<P> {
    Action { action: ReflexAction<P> },
    Actions { actions: Vec<ReflexAction<P>> },
    Combo { steps: Vec<ComboStep<P>>, backend: Backend },
}

/// What to do, as a call gives it.
#[derive(Debug, PartialEq, Eq)]
pub enum ReflexThenParam<P> {
    Core(ReflexThen<P>),
    AuditAction(ReflexThenAuditActionParam),
    Steps { steps: Vec<ReflexThenStep<P>> },
}

/// A button that a reflex holds.
#[derive(Debug, PartialEq, Eq)]
pub enum ReflexButtonTarget<P> {
    Mouse { button: MouseButton },
    Pad { target: P },
}

/// What performs an action where a call names nothing.
pub fn default_backend() -> (r: Backend)
    ensures
        r == Backend::Auto,
{
    Backend::Auto
}

/// The parameters of a step that gives none.
pub fn empty_params() -> (r: Json)
    ensures
        r@ == JsonView::Object(Seq::empty()),
{
    let r = Json::Object(Vec::new());
    assert(r@->Object_0 =~= Seq::empty());
    r
}

/// Insists that a call says what to do.
pub fn required_then<T>(then: Option<T>, kind: &str) -> (r: Result<T, ReflexError>)
    ensures
        match then {
            Some(value) => r == Ok::<T, ReflexError>(value),
            None => r matches Err(e) && e.text() == kind@ + " reflex requires then"@,
        },
{
    match then {
        Some(value) => Ok(value),
        None => Err(refuse(cat2(kind, " reflex requires then"))),
    }
}

/// The action with a backend in the place of `auto`.
pub open spec fn with_default<P>(action: ReflexAction<P>, fallback: Backend) -> ReflexAction<P> {
    match action {
        ReflexAction::KeyPress { key, hold_ms, backend } => ReflexAction::KeyPress {
            key,
            hold_ms,
            backend: chosen(backend, fallback),
        },
        ReflexAction::MouseButton { button, action, hold_ms, backend } => ReflexAction::MouseButton {
            button,
            action,
            hold_ms,
            backend: chosen(backend, fallback),
        },
        ReflexAction::MouseMoveRelative { motion, backend } => ReflexAction::MouseMoveRelative {
            motion,
            backend: chosen(backend, fallback),
        },
        ReflexAction::Combo { steps, backend } => ReflexAction::Combo {
            steps,
            backend: chosen(backend, fallback),
        },
        ReflexAction::Routed { action, backend } => ReflexAction::Routed {
            action,
            backend: chosen(backend, fallback),
        },
        ReflexAction::PadButton { target, action, hold_ms } => ReflexAction::PadButton {
            target,
            action,
            hold_ms,
        },
        ReflexAction::Fixed { action } => ReflexAction::Fixed { action },
    }
}

/// A backend, or the fallback in the place of `auto`.
pub open spec fn chosen(backend: Backend, fallback: Backend) -> Backend {
    if backend is Auto {
        fallback
    } else {
        backend
    }
}

fn choose_backend(backend: Backend, fallback: Backend) -> (r: Backend)
    ensures
        r == chosen(backend, fallback),
{
    if backend == Backend::Auto {
        fallback
    } else {
        backend
    }
}

/// Puts a backend in the place of `auto`.
pub fn apply_backend_default<P>(action: ReflexAction<P>, fallback: Backend) -> (r: ReflexAction<P>)
    ensures
        r == with_default(action, fallback),
{
    match action {
        ReflexAction::KeyPress { key, hold_ms, backend } => ReflexAction::KeyPress {
            key,
            hold_ms,
            backend: choose_backend(backend, fallback),
        },
        ReflexAction::MouseButton { button, action, hold_ms, backend } => ReflexAction::MouseButton {
            button,
            action,
            hold_ms,
            backend: choose_backend(backend, fallback),
        },
        ReflexAction::MouseMoveRelative { motion, backend } => ReflexAction::MouseMoveRelative {
            motion,
            backend: choose_backend(backend, fallback),
        },
        ReflexAction::Combo { steps, backend } => ReflexAction::Combo {
            steps,
            backend: choose_backend(backend, fallback),
        },
        ReflexAction::Routed { action, backend } => ReflexAction::Routed {
            action,
            backend: choose_backend(backend, fallback),
        },
        ReflexAction::PadButton { target, action, hold_ms } => ReflexAction::PadButton {
            target,
            action,
            hold_ms,
        },
        ReflexAction::Fixed { action } => ReflexAction::Fixed { action },
    }
}

/// The action that presses a button and leaves it down.
pub fn button_down_action<P>(button: ReflexButtonTarget<P>, backend: Backend) -> (r: ReflexAction<P>)
    ensures
        r == (match button {
            ReflexButtonTarget::Mouse { button } => ReflexAction::MouseButton {
                button,
                action: ButtonAction::Down,
                hold_ms: 0,
                backend,
            },
            ReflexButtonTarget::Pad { target } => ReflexAction::PadButton {
                target,
                action: ButtonAction::Down,
                hold_ms: 0,
            },
        }),
{
    match button {
        ReflexButtonTarget::Mouse { button } => ReflexAction::MouseButton {
            button,
            action: ButtonAction::Down,
            hold_ms: 0,
            backend,
        },
        ReflexButtonTarget::Pad { target } => ReflexAction::PadButton {
            target,
            action: ButtonAction::Down,
            hold_ms: 0,
        },
    }
}

/// The action of one step, or why there is none.
pub open spec fn demo_action<P>(index: nat, step: ReflexThenStep<P>) -> Result<
    ReflexAction<P>,
    Seq<char>,
> {
    let name = trimmed(step.action@);
    let place = "then.steps["@ + decimal(index);
    if name == "act_type"@ {
        match step.made {
            Ok(made) => Ok(made.action),
            Err(error) => Err(place + "].act_type params invalid: "@ + error@),
        }
    } else if name == "act_press"@ {
        match step.made {
            Ok(made) => Ok(made.action),
            Err(error) => Err(place + "].act_press params invalid: "@ + error@),
        }
    } else {
        Err(
            place + "].action "@ + debug_quoted(name)
                + " is unsupported; supported actions: act_type, act_press"@,
        )
    }
}

/// Takes the action of one step, with what it prints as.
pub fn action_from_demo_step<P>(index: usize, step: ReflexThenStep<P>) -> (r: Result<
    MadeAction<P>,
    ReflexError,
>)
    ensures
        match demo_action(index as nat, step) {
            Ok(action) => r matches Ok(made) && made.action == action && step.made == Ok::<
                MadeAction<P>,
                String,
            >(made),
            Err(detail) => r matches Err(e) && e.text() == detail,
        },
{
    let name = trim(step.action.as_str());
    let number = decimal_text(index as u64);
    if text_equal(name.as_str(), "act_type") {
        match step.made {
            Ok(made) => Ok(made),
            Err(error) => Err(
                refuse(
                    cat4(
                        "then.steps[",
                        number.as_str(),
                        "].act_type params invalid: ",
                        error.as_str(),
                    ),
                ),
            ),
        }
    } else if text_equal(name.as_str(), "act_press") {
        match step.made {
            Ok(made) => Ok(made),
            Err(error) => Err(
                refuse(
                    cat4(
                        "then.steps[",
                        number.as_str(),
                        "].act_press params invalid: ",
                        error.as_str(),
                    ),
                ),
            ),
        }
    } else {
        let shown = quoted(name.as_str());
        Err(
            refuse(
                cat5(
                    "then.steps[",
                    number.as_str(),
                    "].action ",
                    shown.as_str(),
                    " is unsupported; supported actions: act_type, act_press",
                ),
            ),
        )
    }
}

/// Whether a step is the first that has no action.
pub open spec fn fails_first<P>(steps: Seq<ReflexThenStep<P>>, at: int) -> bool {
    &&& 0 <= at < steps.len()
    &&& demo_action(at as nat, steps[at]) is Err
    &&& forall|j: int| 0 <= j < at ==> demo_action(j as nat, #[trigger] steps[j]) is Ok
}

/// The actions of all steps, or why the first that has none has none.
pub open spec fn are_demo_actions<P>(
    steps: Seq<ReflexThenStep<P>>,
    r: Result<Vec<ReflexAction<P>>, ReflexError>,
) -> bool {
    match r {
        Ok(actions) => {
            &&& steps.len() > 0
            &&& actions@.len() == steps.len()
            &&& forall|i: int|
                0 <= i < steps.len() ==> demo_action(i as nat, steps[i]) == Ok::<
                    ReflexAction<P>,
                    Seq<char>,
                >(#[trigger] actions@[i])
        },
        Err(e) => {
            ||| steps.len() == 0 && e.text() == "then.steps must contain at least one action"@
            ||| exists|at: int| #[trigger]
                fails_first(steps, at) && e.text() == demo_action(at as nat, steps[at])->Err_0
        },
    }
}

/// Takes the actions of all steps.
pub fn actions_from_demo_steps<P>(steps: Vec<ReflexThenStep<P>>) -> (r: Result<
    Vec<ReflexAction<P>>,
    ReflexError,
>)
    ensures
        are_demo_actions(steps@, r),
{
    if steps.len() == 0 {
        return Err(refuse("then.steps must contain at least one action".to_owned()));
    }
    let ghost all = steps@;
    let mut actions: Vec<ReflexAction<P>> = Vec::new();
    let mut index: usize = 0;
    let count: usize = steps.len();
    for step in it: steps
        invariant
            it.seq() == all,
            all == steps@,
            all.len() == count,
            index == it.index(),
            actions@.len() == index,
            forall|i: int|
                0 <= i < index ==> demo_action(i as nat, all[i]) == Ok::<
                    ReflexAction<P>,
                    Seq<char>,
                >(#[trigger] actions@[i]),
    {
        let ghost taken = step;
        assert(taken == all[index as int]);
        match action_from_demo_step(index, step) {
            Ok(made) => {
                actions.push(made.action);
            },
            Err(e) => {
                proof {
                    assert forall|j: int| 0 <= j < index implies demo_action(
                        j as nat,
                        #[trigger] all[j],
                    ) is Ok by {
                        assert(demo_action(j as nat, all[j]) == Ok::<ReflexAction<P>, Seq<char>>(
                            actions@[j],
                        ));
                    }
                    assert(fails_first(steps@, index as int));
                }
                return Err(e);
            },
        }
        index += 1;
    }
    Ok(actions)
}

/// The actions of an action that is asked for by name: none, where it only reads back.
pub fn actions_from_audit_action<P>(action: ReflexThenAuditActionParam) -> (r: Result<
    Vec<ReflexAction<P>>,
    ReflexError,
>)
    ensures
        if action.action@ == AUDIT_READBACK_ACTION@ {
            r matches Ok(actions) && actions@.len() == 0
        } else {
            r matches Err(e) && e.text() == audit_refusal(action.action@)
        },
{
    if text_equal(action.action.as_str(), AUDIT_READBACK_ACTION) {
        return Ok(Vec::new());
    }
    let shown = quoted(action.action.as_str());
    Err(
        refuse(
            cat4(
                "then.action ",
                shown.as_str(),
                " is unsupported; supported actions: ",
                AUDIT_READBACK_ACTION,
            ),
        ),
    )
}

/// Why an action that is asked for by name is refused.
pub open spec fn audit_refusal(action: Seq<char>) -> Seq<char> {
    "then.action "@ + debug_quoted(action) + " is unsupported; supported actions: "@
        + AUDIT_READBACK_ACTION@
}

/// The actions with a backend in the place of `auto`.
pub open spec fn with_defaults<P>(
    actions: Seq<ReflexAction<P>>,
    fallback: Backend,
) -> Seq<ReflexAction<P>> {
    Seq::new(actions.len(), |i: int| with_default(actions[i], fallback))
}

/// The actions of what to do, before a backend is put in the place of `auto`.
pub open spec fn are_plain_actions<P>(
    then: ReflexThenParam<P>,
    r: Result<Vec<ReflexAction<P>>, ReflexError>,
) -> bool {
    match then {
        ReflexThenParam::Core(ReflexThen::Action { action }) => r matches Ok(actions) && actions@
            == seq![action],
        ReflexThenParam::Core(ReflexThen::Actions { actions }) => r matches Ok(given) && given@
            == actions@,
        ReflexThenParam::Core(ReflexThen::Combo { steps, backend }) => r matches Ok(actions)
            && actions@ == seq![ReflexAction::Combo { steps, backend }],
        ReflexThenParam::AuditAction(action) => if action.action@ == AUDIT_READBACK_ACTION@ {
            r matches Ok(actions) && actions@.len() == 0
        } else {
            r matches Err(e) && e.text() == audit_refusal(action.action@)
        },
        ReflexThenParam::Steps { steps } => are_demo_actions(steps@, r),
    }
}

fn plain_actions<P>(then: ReflexThenParam<P>) -> (r: Result<Vec<ReflexAction<P>>, ReflexError>)
    ensures
        are_plain_actions(then, r),
{
    match then {
        ReflexThenParam::Core(ReflexThen::Action { action }) => {
            let mut actions: Vec<ReflexAction<P>> = Vec::new();
            actions.push(action);
            assert(actions@ =~= seq![action]);
            Ok(actions)
        },
        ReflexThenParam::Core(ReflexThen::Actions { actions }) => Ok(actions),
        ReflexThenParam::Core(ReflexThen::Combo { steps, backend }) => {
            let mut actions: Vec<ReflexAction<P>> = Vec::new();
            actions.push(ReflexAction::Combo { steps, backend });
            assert(actions@ =~= seq![ReflexAction::Combo { steps, backend }]);
            Ok(actions)
        },
        ReflexThenParam::AuditAction(action) => actions_from_audit_action(action),
        ReflexThenParam::Steps { steps } => actions_from_demo_steps(steps),
    }
}

/// The actions of what to do: where a call leaves the backend open, the given one is taken.
pub fn actions_from_then<P>(then: ReflexThenParam<P>, backend: Backend) -> (r: Result<
    Vec<ReflexAction<P>>,
    ReflexError,
>)
    ensures
        exists|plain: Result<Vec<ReflexAction<P>>, ReflexError>|
            {
                &&& #[trigger] are_plain_actions(then, plain)
                &&& match plain {
                    Ok(actions) => r matches Ok(given) && given@ == with_defaults(
                        actions@,
                        backend,
                    ),
                    Err(e) => r == Err::<Vec<ReflexAction<P>>, ReflexError>(e),
                }
            },
{
    let made = plain_actions(then);
    let ghost plain = made;
    assert(are_plain_actions(then, plain));
    let actions: Vec<ReflexAction<P>> = match made {
        Ok(actions) => actions,
        Err(e) => {
            return Err(e);
        },
    };
    let ghost all = actions@;
    let mut out: Vec<ReflexAction<P>> = Vec::new();
    for action in it: actions
        invariant
            it.seq() == all,
            out@.len() == it.index(),
            forall|i: int|
                0 <= i < it.index() ==> #[trigger] out@[i] == with_default(all[i], backend),
    {
        out.push(apply_backend_default(action, backend));
    }
    assert(out@ =~= with_defaults(all, backend));
    Ok(out)
}

// ---------------------------------------------------------------------------------------------
// Combos
// ---------------------------------------------------------------------------------------------

/// The step of a combo that a step makes at its time, or why it makes none.
pub open spec fn combo_step<P>(index: nat, at_ms: u32, step: ReflexThenStep<P>) -> Result<
    ComboStep<P>,
    Seq<char>,
> {
    match demo_action(index, step) {
        Err(detail) => Err(detail),
        Ok(ReflexAction::KeyPress { key, hold_ms, backend }) => if hold_ms > u16::MAX {
            Err("combo steps["@ + decimal(index) + "] hold_ms exceeds u16::MAX"@)
        } else {
            Ok(ComboStep { at_ms, input: ComboInput::KeyPress { key, hold_ms: hold_ms as u16 } })
        },
        Ok(ReflexAction::MouseButton { button, action, hold_ms, backend }) => Ok(
            ComboStep { at_ms, input: ComboInput::MouseButton { button, action } },
        ),
        Ok(ReflexAction::MouseMoveRelative { motion, backend }) => Ok(
            ComboStep { at_ms, input: ComboInput::MouseMoveRel { motion } },
        ),
        Ok(_) => Err(
            "combo steps["@ + decimal(index) + "] action "@ + (step.made->Ok_0).text@
                + " cannot be used as one timed combo input"@,
        ),
    }
}

/// Takes the step of a combo that a step makes at its time.
pub fn timed_demo_step_to_combo_step<P>(index: usize, at_ms: u32, step: ReflexThenStep<P>) -> (r:
    Result<ComboStep<P>, ReflexError>)
    ensures
        match combo_step(index as nat, at_ms, step) {
            Ok(made) => r == Ok::<ComboStep<P>, ReflexError>(made),
            Err(detail) => r matches Err(e) && e.text() == detail,
        },
{
    let made: MadeAction<P> = match action_from_demo_step(index, step) {
        Ok(made) => made,
        Err(e) => {
            return Err(e);
        },
    };
    let number = decimal_text(index as u64);
    match made.action {
        ReflexAction::KeyPress { key, hold_ms, backend } => {
            if hold_ms > u16::MAX as u32 {
                return Err(
                    refuse(cat3("combo steps[", number.as_str(), "] hold_ms exceeds u16::MAX")),
                );
            }
            Ok(ComboStep { at_ms, input: ComboInput::KeyPress { key, hold_ms: hold_ms as u16 } })
        },
        ReflexAction::MouseButton { button, action, hold_ms, backend } => Ok(
            ComboStep { at_ms, input: ComboInput::MouseButton { button, action } },
        ),
        ReflexAction::MouseMoveRelative { motion, backend } => Ok(
            ComboStep { at_ms, input: ComboInput::MouseMoveRel { motion } },
        ),
        _ => Err(
            refuse(
                cat5(
                    "combo steps[",
                    number.as_str(),
                    "] action ",
                    made.text.as_str(),
                    " cannot be used as one timed combo input",
                ),
            ),
        ),
    }
}

/// The step of a combo that a call gives, or why it gives none.
pub open spec fn given_step<P>(index: nat, step: ReflexComboStepParam<P>) -> Result<
    ComboStep<P>,
    Seq<char>,
> {
    match step {
        ReflexComboStepParam::Core(step) => Ok(step),
        ReflexComboStepParam::Tool(timed) => combo_step(index, timed.at_ms, timed.step),
    }
}

/// Takes the step of a combo that a call gives.
pub fn combo_step_from_param<P>(index: usize, step: ReflexComboStepParam<P>) -> (r: Result<
    ComboStep<P>,
    ReflexError,
>)
    ensures
        match given_step(index as nat, step) {
            Ok(made) => r == Ok::<ComboStep<P>, ReflexError>(made),
            Err(detail) => r matches Err(e) && e.text() == detail,
        },
{
    match step {
        ReflexComboStepParam::Core(step) => Ok(step),
        ReflexComboStepParam::Tool(timed) => timed_demo_step_to_combo_step(
            index,
            timed.at_ms,
            timed.step,
        ),
    }
}

/// What each of some steps makes, or the first that makes nothing: `made` says what each makes.
pub open spec fn are_combo_steps<P>(
    made: Seq<Result<ComboStep<P>, Seq<char>>>,
    r: Result<Vec<ComboStep<P>>, ReflexError>,
) -> bool {
    match r {
        Ok(steps) => {
            &&& steps@.len() == made.len()
            &&& forall|i: int|
                0 <= i < made.len() ==> made[i] == Ok::<ComboStep<P>, Seq<char>>(
                    #[trigger] steps@[i],
                )
        },
        Err(e) => exists|at: int| #[trigger]
            breaks_first(made, at) && e.text() == made[at]->Err_0,
    }
}

/// Whether a step is the first that makes nothing.
pub open spec fn breaks_first<P>(made: Seq<Result<ComboStep<P>, Seq<char>>>, at: int) -> bool {
    &&& 0 <= at < made.len()
    &&& made[at] is Err
    &&& forall|j: int| 0 <= j < at ==> (#[trigger] made[j]) is Ok
}

/// What the steps of a call make.
pub open spec fn given_steps<P>(steps: Seq<ReflexComboStepParam<P>>) -> Seq<
    Result<ComboStep<P>, Seq<char>>,
> {
    Seq::new(steps.len(), |i: int| given_step(i as nat, steps[i]))
}

/// What the steps of what to do make, all at once.
pub open spec fn untimed_steps<P>(steps: Seq<ReflexThenStep<P>>) -> Seq<
    Result<ComboStep<P>, Seq<char>>,
> {
    Seq::new(steps.len(), |i: int| combo_step(i as nat, 0, steps[i]))
}

fn collect_given<P>(steps: Vec<ReflexComboStepParam<P>>) -> (r: Result<
    Vec<ComboStep<P>>,
    ReflexError,
>)
    ensures
        are_combo_steps(given_steps(steps@), r),
{
    let ghost all = steps@;
    let ghost made = given_steps(all);
    let mut out: Vec<ComboStep<P>> = Vec::new();
    let mut index: usize = 0;
    let count: usize = steps.len();
    for step in it: steps
        invariant
            it.seq() == all,
            all == steps@,
            made == given_steps(all),
            all.len() == count,
            index == it.index(),
            out@.len() == index,
            forall|i: int|
                0 <= i < index ==> made[i] == Ok::<ComboStep<P>, Seq<char>>(#[trigger] out@[i]),
    {
        assert(made[index as int] == given_step(index as nat, all[index as int]));
        match combo_step_from_param(index, step) {
            Ok(next) => {
                out.push(next);
            },
            Err(e) => {
                proof {
                    assert forall|j: int| 0 <= j < index implies (#[trigger] made[j]) is Ok by {
                        assert(made[j] == Ok::<ComboStep<P>, Seq<char>>(out@[j]));
                    }
                    assert(breaks_first(given_steps(steps@), index as int));
                }
                return Err(e);
            },
        }
        index += 1;
    }
    Ok(out)
}

fn collect_untimed<P>(steps: Vec<ReflexThenStep<P>>) -> (r: Result<Vec<ComboStep<P>>, ReflexError>)
    ensures
        are_combo_steps(untimed_steps(steps@), r),
{
    let ghost all = steps@;
    let ghost made = untimed_steps(all);
    let mut out: Vec<ComboStep<P>> = Vec::new();
    let mut index: usize = 0;
    let count: usize = steps.len();
    for step in it: steps
        invariant
            it.seq() == all,
            all == steps@,
            made == untimed_steps(all),
            all.len() == count,
            index == it.index(),
            out@.len() == index,
            forall|i: int|
                0 <= i < index ==> made[i] == Ok::<ComboStep<P>, Seq<char>>(#[trigger] out@[i]),
    {
        assert(made[index as int] == combo_step(index as nat, 0, all[index as int]));
        match timed_demo_step_to_combo_step(index, 0, step) {
            Ok(next) => {
                out.push(next);
            },
            Err(e) => {
                proof {
                    assert forall|j: int| 0 <= j < index implies (#[trigger] made[j]) is Ok by {
                        assert(made[j] == Ok::<ComboStep<P>, Seq<char>>(out@[j]));
                    }
                    assert(breaks_first(untimed_steps(steps@), index as int));
                }
                return Err(e);
            },
        }
        index += 1;
    }
    Ok(out)
}

/// The steps of the combo of a call.
pub open spec fn are_call_steps<P>(
    steps: Option<Vec<ReflexComboStepParam<P>>>,
    then: Option<ReflexThenParam<P>>,
    r: Result<Vec<ComboStep<P>>, ReflexError>,
) -> bool {
    match steps {
        Some(steps) => if steps@.len() == 0 {
            r matches Err(e) && e.text() == "combo steps must contain at least one step"@
        } else {
            are_combo_steps(given_steps(steps@), r)
        },
        None => match then {
            Some(ReflexThenParam::Core(ReflexThen::Combo { steps, backend })) => if steps@.len()
                > 0 {
                r == Ok::<Vec<ComboStep<P>>, ReflexError>(steps)
            } else {
                r matches Err(e) && e.text() == "combo steps must contain at least one step"@
            },
            Some(ReflexThenParam::Steps { steps }) => are_combo_steps(untimed_steps(steps@), r),
            Some(ReflexThenParam::AuditAction(_)) => r matches Err(e) && e.text()
                == "combo reflex cannot use then.action=audit/readback"@,
            _ => r matches Err(e) && e.text() == "combo reflex requires steps or then.kind=combo"@,
        },
    }
}

/// Takes the steps of the combo of a call: those it gives as such, or those of what to do.
pub fn combo_steps_from_params<P>(
    steps: Option<Vec<ReflexComboStepParam<P>>>,
    then: Option<ReflexThenParam<P>>,
) -> (r: Result<Vec<ComboStep<P>>, ReflexError>)
    ensures
        are_call_steps(steps, then, r),
{
    if let Some(given) = steps {
        if given.len() == 0 {
            return Err(refuse("combo steps must contain at least one step".to_owned()));
        }
        return collect_given(given);
    }
    match then {
        Some(ReflexThenParam::Core(ReflexThen::Combo { steps, backend })) => if steps.len() > 0 {
            Ok(steps)
        } else {
            Err(refuse("combo steps must contain at least one step".to_owned()))
        },
        Some(ReflexThenParam::Steps { steps }) => collect_untimed(steps),
        Some(ReflexThenParam::AuditAction(_)) => Err(
            refuse("combo reflex cannot use then.action=audit/readback".to_owned()),
        ),
        _ => Err(refuse("combo reflex requires steps or then.kind=combo".to_owned())),
    }
}

// ---------------------------------------------------------------------------------------------
// Laws
// ---------------------------------------------------------------------------------------------

/// The backend that an action is left to, where it can be left to one.
pub open spec fn backend_of<P>(action: ReflexAction<P>) -> Option<Backend> {
    match action {
        ReflexAction::KeyPress { key, hold_ms, backend } => Some(backend),
        ReflexAction::MouseButton { button, action, hold_ms, backend } => Some(backend),
        ReflexAction::MouseMoveRelative { motion, backend } => Some(backend),
        ReflexAction::Combo { steps, backend } => Some(backend),
        ReflexAction::Routed { action, backend } => Some(backend),
        ReflexAction::PadButton { target, action, hold_ms } => None,
        ReflexAction::Fixed { action } => None,
    }
}

/// A backend that a call names is never replaced, `auto` always is, and replacing twice is replacing
/// once. With `auto` as the fallback nothing changes.
pub proof fn law_fallback_replaces_auto_only<P>(action: ReflexAction<P>, fallback: Backend)
    ensures
        backend_of(action) != Some(Backend::Auto) ==> with_default(action, fallback) == action,
        backend_of(action) == Some(Backend::Auto) ==> backend_of(with_default(action, fallback))
            == Some(fallback),
        with_default(action, Backend::Auto) == action,
        with_default(with_default(action, fallback), fallback) == with_default(action, fallback),
{
}

/// A host that is accepted has a name that means nothing to a shell.
pub proof fn law_accepted_hosts_are_plain(raw: Seq<char>, i: int)
    requires
        host_refusal(raw) is None,
        0 <= i < trimmed(raw).len(),
    ensures
        is_host_char(trimmed(raw)[i]),
        !is_shell_char(trimmed(raw)[i]),
{
}

/// A path that is accepted on another machine begins with a slash, and no accepted path holds a
/// control character.
pub proof fn law_accepted_paths_are_absolute(
    raw: Seq<char>,
    local_host: bool,
    absolute: bool,
    i: int,
)
    requires
        path_refusal(raw, local_host, absolute) is None,
        0 <= i < trimmed(raw).len(),
    ensures
        !is_control(trimmed(raw)[i]),
        !local_host ==> trimmed(raw)[0] == '/',
{
}

/// A text with slashes for points.
pub open spec fn slashed(s: Seq<char>) -> Seq<char> {
    s.map_values(
        |c: char|
            if c == '.' {
                '/'
            } else {
                c
            },
    )
}

proof fn lemma_pointer_is_slashed(s: Seq<char>)
    ensures
        split_on(s, '.').len() > 0,
        pointer_text(split_on(s, '.')) == "/"@ + slashed(s),
    decreases s.len(),
{
    reveal_strlit("/");
    reveal_with_fuel(pointer_text, 2);
    let pieces = split_on(s, '.');
    if s.len() == 0 {
        assert(pieces.drop_last() =~= Seq::empty());
        assert(pointer_text(pieces) =~= "/"@ + slashed(s));
    } else {
        let before = split_on(s.drop_last(), '.');
        lemma_pointer_is_slashed(s.drop_last());
        if s.last() == '.' {
            assert(pieces.drop_last() =~= before);
            assert(pointer_text(pieces) =~= "/"@ + slashed(s));
        } else {
            assert(pieces.drop_last() =~= before.drop_last());
            assert(pieces.last() == before.last().push(s.last()));
            assert(pointer_text(pieces) =~= pointer_text(before).push(s.last()));
            assert(pointer_text(pieces) =~= "/"@ + slashed(s));
        }
    }
}

/// Whether all pieces are made of characters that can stand in the name of a field.
pub open spec fn all_fields(pieces: Seq<Seq<char>>) -> bool {
    forall|i: int, j: int|
        #![trigger pieces[i][j]]
        0 <= i < pieces.len() && 0 <= j < pieces[i].len() ==> is_field_char(pieces[i][j])
}

proof fn lemma_faultless_pieces_are_fields(pieces: Seq<Seq<char>>)
    requires
        first_fault(pieces) is None,
    ensures
        all_fields(pieces),
    decreases pieces.len(),
{
    if pieces.len() > 0 {
        lemma_faultless_pieces_are_fields(pieces.drop_last());
        assert forall|i: int, j: int|
            #![trigger pieces[i][j]]
            0 <= i < pieces.len() && 0 <= j < pieces[i].len() implies is_field_char(
            pieces[i][j],
        ) by {
            if i < pieces.len() - 1 {
                assert(pieces.drop_last()[i][j] == pieces[i][j]);
            } else {
                assert(pieces.last()[j] == pieces[i][j]);
            }
        }
    }
}

proof fn lemma_split_characters(s: Seq<char>)
    requires
        all_fields(split_on(s, '.')),
    ensures
        forall|i: int| 0 <= i < s.len() ==> s[i] == '.' || is_field_char(#[trigger] s[i]),
    decreases s.len(),
{
    if s.len() > 0 {
        let pieces = split_on(s, '.');
        let before = split_on(s.drop_last(), '.');
        lemma_pointer_is_slashed(s.drop_last());
        let last = before.len() - 1;
        assert forall|i: int, j: int|
            #![trigger before[i][j]]
            0 <= i < before.len() && 0 <= j < before[i].len() implies is_field_char(
            before[i][j],
        ) by {
            assert(pieces[i][j] == before[i][j]);
        }
        lemma_split_characters(s.drop_last());
        if s.last() != '.' {
            assert(pieces[last][before[last].len() as int] == s.last());
        }
        assert forall|i: int| 0 <= i < s.len() implies s[i] == '.' || is_field_char(
            #[trigger] s[i],
        ) by {
            if i < s.len() - 1 {
                assert(s.drop_last()[i] == s[i]);
            }
        }
    }
}

/// The pointer of a path is the path behind its root, with slashes for points; and accepted paths
/// with the same pointer are the same path.
pub proof fn law_pointers_follow_paths(a: Seq<char>, b: Seq<char>)
    requires
        pointer_refusal(a) is None,
        pointer_refusal(b) is None,
    ensures
        a != "$"@ ==> pointer_of(a) == "/"@ + slashed(a.skip(2)),
        pointer_of(a) == pointer_of(b) ==> a == b,
{
    reveal_strlit("/");
    reveal_strlit("$.");
    lemma_pointer_is_slashed(a.skip(2));
    lemma_pointer_is_slashed(b.skip(2));
    assert(("/"@ + slashed(a.skip(2))).len() > 0);
    assert(("/"@ + slashed(b.skip(2))).len() > 0);
    if a != "$"@ && b != "$"@ && pointer_of(a) == pointer_of(b) {
        let x = a.skip(2);
        let y = b.skip(2);
        lemma_faultless_pieces_are_fields(split_on(x, '.'));
        lemma_faultless_pieces_are_fields(split_on(y, '.'));
        lemma_split_characters(x);
        lemma_split_characters(y);
        assert(slashed(x) =~= pointer_of(a).skip(1));
        assert(slashed(y) =~= pointer_of(b).skip(1));
        assert(x.len() == slashed(x).len() && y.len() == slashed(y).len());
        assert forall|i: int| 0 <= i < x.len() implies x[i] == y[i] by {
            assert(slashed(x)[i] == slashed(y)[i]);
        }
        assert(x =~= y);
        assert forall|i: int| 0 <= i < a.len() implies a[i] == b[i] by {
            if i >= 2 {
                assert(x[i - 2] == y[i - 2]);
            } else {
                assert(a.subrange(0, 2) == "$."@ && b.subrange(0, 2) == "$."@);
                assert(a[i] == a.subrange(0, 2)[i] && b[i] == b.subrange(0, 2)[i]);
            }
        }
        assert(a =~= b);
    }
}

/// A host is accepted exactly if something is left of it without the blanks round it, and that is made of
/// letters, digits, points, underscores and hyphens; it is then taken without those blanks.
pub proof fn law_hosts_are_letters_and_digits(raw: &str, r: Result<String, ReflexError>)
    requires
        call_ensures(validate_file_jsonl_tail_host, (raw,), r),
    ensures
        r is Ok <==> trimmed(raw@).len() > 0 && forall|i: int|
            0 <= i < trimmed(raw@).len() ==> {
                ||| 'a' <= #[trigger] trimmed(raw@)[i] <= 'z'
                ||| 'A' <= trimmed(raw@)[i] <= 'Z'
                ||| '0' <= trimmed(raw@)[i] <= '9'
                ||| trimmed(raw@)[i] == '.'
                ||| trimmed(raw@)[i] == '_'
                ||| trimmed(raw@)[i] == '-'
            },
        r is Ok ==> r->Ok_0@ == trimmed(raw@),
{
    let host = trimmed(raw@);
    if r is Ok {
        assert forall|i: int| 0 <= i < host.len() implies {
            ||| 'a' <= #[trigger] host[i] <= 'z'
            ||| 'A' <= host[i] <= 'Z'
            ||| '0' <= host[i] <= '9'
            ||| host[i] == '.'
            ||| host[i] == '_'
            ||| host[i] == '-'
        } by {
            assert(is_host_char(host[i]));
        }
    }
}

/// A host is this machine where it is `localhost`, `127.0.0.1` or the machine's own name, in any case and
/// with blanks round it or not.
pub proof fn law_own_names_are_local(host: &str, machine: Option<&str>, r: bool)
    requires
        call_ensures(is_local_file_jsonl_tail_host, (host, machine), r),
    ensures
        r <==> ascii_lower(trimmed(host@)) == "localhost"@ || ascii_lower(trimmed(host@))
            == "127.0.0.1"@ || (machine is Some && ascii_lower(machine->Some_0@) == ascii_lower(
            trimmed(host@),
        )),
{
    let name = ascii_lower(trimmed(host@));
    assert(ascii_lower(name) =~= name);
}

/// The machine is known by its computer name, and by its host name where it has none.
pub proof fn law_machines_are_known_by_their_names<'a>(
    computer_name: Option<&'a str>,
    host_name: Option<&'a str>,
    r: Option<&'a str>,
)
    requires
        call_ensures(machine_name, (computer_name, host_name), r),
    ensures
        computer_name is Some ==> r == computer_name,
        computer_name is None ==> r == host_name,
{
}

/// A path of Windows is absolute where it begins with a drive and a slash of either kind, or with two
/// backslashes.
pub proof fn law_windows_paths_begin_with_a_drive_or_a_share(path: &str, r: bool)
    requires
        call_ensures(is_windows_absolute_path, (path,), r),
    ensures
        r <==> (path@.len() >= 3 && (('a' <= path@[0] <= 'z') || ('A' <= path@[0] <= 'Z')) && path@[1]
            == ':' && (path@[2] == '/' || path@[2] == '\\')) || (path@.len() >= 2 && path@[0] == '\\'
            && path@[1] == '\\'),
{
}

/// A path is accepted where something is left of it without the blanks round it, it holds no control
/// character, and it is absolute: on another machine as one of POSIX, on this one in any way. It is
/// then taken without those blanks.
pub proof fn law_paths_are_absolute(
    raw: &str,
    local_host: bool,
    absolute: bool,
    windows: bool,
    path: &str,
    r: Result<String, ReflexError>,
)
    requires
        call_ensures(validate_file_jsonl_tail_path, (raw, local_host, absolute), r),
        path@ == trimmed(raw@),
        call_ensures(is_windows_absolute_path, (path,), windows),
    ensures
        r is Ok <==> path@.len() > 0 && (forall|i: int|
            0 <= i < path@.len() ==> ' ' <= #[trigger] path@[i] && path@[i] != '\u{7f}') && (
        path@[0] == '/' || (local_host && (absolute || windows))),
        r is Ok ==> r->Ok_0@ == path@,
{
    let p = path@;
    if forall|i: int| 0 <= i < p.len() ==> ' ' <= #[trigger] p[i] && p[i] != '\u{7f}' {
        assert forall|i: int| 0 <= i < p.len() implies !is_control(#[trigger] p[i]) by {
            assert(' ' <= p[i]);
        }
    }
    if forall|i: int| 0 <= i < p.len() ==> !is_control(#[trigger] p[i]) {
        assert forall|i: int| 0 <= i < p.len() implies ' ' <= #[trigger] p[i] && p[i]
            != '\u{7f}' by {
            assert(!is_control(p[i]));
        }
    }
}

/// The root is the pointer to the whole; a field behind it is a slash and its name, and fields within
/// fields follow with slashes for points.
pub proof fn law_pointers_are_made_of_fields(json_path: &str, r: Result<String, ReflexError>)
    requires
        call_ensures(json_path_to_pointer, (json_path,), r),
    ensures
        json_path@ == seq!['$'] ==> r is Ok && r->Ok_0@.len() == 0,
        r is Ok && json_path@ != seq!['$'] ==> {
            &&& json_path@.len() > 2 && json_path@[0] == '$' && json_path@[1] == '.'
            &&& r->Ok_0@.len() == json_path@.len() - 1
            &&& r->Ok_0@[0] == '/'
            &&& json_path@.last() != '.'
            &&& forall|i: int|
                2 <= i < json_path@.len() ==> {
                    &&& (#[trigger] json_path@[i] == '.' ==> r->Ok_0@[i - 1] == '/')
                    &&& (json_path@[i] != '.' ==> r->Ok_0@[i - 1] == json_path@[i])
                    &&& {
                        ||| json_path@[i] == '.'
                        ||| 'a' <= json_path@[i] <= 'z'
                        ||| 'A' <= json_path@[i] <= 'Z'
                        ||| '0' <= json_path@[i] <= '9'
                        ||| json_path@[i] == '_'
                        ||| json_path@[i] == '-'
                    }
                }
        },
{
    reveal_strlit("$");
    reveal_strlit("$.");
    reveal_strlit("/");
    let s = json_path@;
    assert("$"@ =~= seq!['$']);
    if r is Ok && s != seq!['$'] {
        let rest = s.skip(2);
        assert(s.subrange(0, 2) == "$."@);
        assert(s[0] == s.subrange(0, 2)[0] && s[1] == s.subrange(0, 2)[1]);
        lemma_pointer_is_slashed(rest);
        lemma_faultless_pieces_are_fields(split_on(rest, '.'));
        lemma_split_characters(rest);
        assert(slashed(rest).len() == rest.len());
        assert(r->Ok_0@ == "/"@ + slashed(rest));
        assert forall|i: int| 2 <= i < s.len() implies {
            &&& (#[trigger] s[i] == '.' ==> r->Ok_0@[i - 1] == '/')
            &&& (s[i] != '.' ==> r->Ok_0@[i - 1] == s[i])
            &&& {
                ||| s[i] == '.'
                ||| 'a' <= s[i] <= 'z'
                ||| 'A' <= s[i] <= 'Z'
                ||| '0' <= s[i] <= '9'
                ||| s[i] == '_'
                ||| s[i] == '-'
            }
        } by {
            assert(rest[i - 2] == s[i]);
            assert(r->Ok_0@[i - 1] == slashed(rest)[i - 2]);
        }
        if s.last() == '.' {
            let pieces = split_on(rest, '.');
            assert(rest.last() == '.');
            assert(pieces.last().len() == 0);
            assert(first_fault(pieces) is Some);
        }
    }
}

/// A single field is accepted whatever it is called, as long as its name is letters, digits, underscores
/// and hyphens.
pub proof fn law_single_fields_are_accepted(json_path: &str, r: Result<String, ReflexError>)
    requires
        call_ensures(json_path_to_pointer, (json_path,), r),
        json_path@.len() > 2,
        json_path@[0] == '$',
        json_path@[1] == '.',
        forall|i: int|
            2 <= i < json_path@.len() ==> {
                ||| 'a' <= #[trigger] json_path@[i] <= 'z'
                ||| 'A' <= json_path@[i] <= 'Z'
                ||| '0' <= json_path@[i] <= '9'
                ||| json_path@[i] == '_'
                ||| json_path@[i] == '-'
            },
    ensures
        r is Ok,
        r->Ok_0@ == seq!['/'] + json_path@.skip(2),
{
    reveal_strlit("$");
    reveal_strlit("$.");
    reveal_strlit("/");
    let s = json_path@;
    let rest = s.skip(2);
    assert(s.subrange(0, 2) =~= "$."@);
    assert(s.len() != "$"@.len());
    assert forall|i: int| 0 <= i < rest.len() implies is_field_char(#[trigger] rest[i]) by {
        assert(rest[i] == s[i + 2]);
    }
    lemma_unsplit(rest);
    assert(split_on(rest, '.').drop_last() =~= Seq::empty());
    assert(split_on(rest, '.').last() == rest);
    reveal_with_fuel(first_fault, 2);
    lemma_pointer_is_slashed(rest);
    assert(slashed(rest) =~= rest);
    assert("/"@ =~= seq!['/']);
}

proof fn lemma_unsplit(s: Seq<char>)
    requires
        forall|i: int| 0 <= i < s.len() ==> is_field_char(#[trigger] s[i]),
    ensures
        split_on(s, '.') == seq![s],
    decreases s.len(),
{
    if s.len() > 0 {
        assert forall|i: int| 0 <= i < s.drop_last().len() implies is_field_char(
            #[trigger] s.drop_last()[i],
        ) by {
            assert(s.drop_last()[i] == s[i]);
        }
        lemma_unsplit(s.drop_last());
        assert(is_field_char(s[s.len() - 1]));
        assert(s.drop_last().push(s.last()) =~= s);
        assert(split_on(s, '.') =~= seq![s]);
    } else {
        assert(s =~= Seq::<char>::empty());
        assert(split_on(s, '.') =~= seq![s]);
    }
}

/// A file is watched where its host, its path and its predicate are sound, at least one line is waited
/// for, and it is looked at every 50 milliseconds to ten minutes. What is watched is then as it was
/// asked for.
pub proof fn law_files_are_watched_as_asked(
    awaited: &FileJsonlTailWhen,
    machine: Option<&str>,
    absolute: bool,
    host_text: &str,
    path_text: &str,
    json_path: &str,
    host: Result<String, ReflexError>,
    local: bool,
    path: Result<String, ReflexError>,
    pointer: Result<String, ReflexError>,
    r: Result<ValidatedFileJsonlTailWhen, ReflexError>,
)
    requires
        call_ensures(FileJsonlTailWhen::validate, (awaited, machine, absolute), r),
        host_text@ == awaited.host@,
        path_text@ == awaited.path@,
        json_path@ == trimmed(awaited.predicate.json_path@),
        call_ensures(validate_file_jsonl_tail_host, (host_text,), host),
        call_ensures(is_local_file_jsonl_tail_host, (host_text, machine), local),
        call_ensures(validate_file_jsonl_tail_path, (path_text, local, absolute), path),
        call_ensures(json_path_to_pointer, (json_path,), pointer),
    ensures
        r is Ok <==> host is Ok && path is Ok && pointer is Ok && awaited.min_lines >= 1 && 50
            <= awaited.poll_interval_ms <= 600_000,
        r is Ok ==> {
            let v = r->Ok_0;
            &&& v.host@ == host->Ok_0@
            &&& v.path@ == path->Ok_0@
            &&& v.json_path@ == json_path@
            &&& v.json_pointer@ == pointer->Ok_0@
            &&& v.event_data_pointer@ == "/last_json"@ + pointer->Ok_0@
            &&& v.equals@ == awaited.predicate.equals@
            &&& v.min_lines == awaited.min_lines
            &&& v.poll_interval_ms == awaited.poll_interval_ms
            &&& v.local_host == local
        },
{
    crate::text::law_trimming_takes_off_white_space(awaited.host@);
    lemma_trimmed_twice(awaited.host@);
}

proof fn lemma_trimmed_twice(s: Seq<char>)
    ensures
        trimmed(trimmed(s)) == trimmed(s),
{
    crate::text::law_trimming_takes_off_white_space(s);
    let t = trimmed(s);
    if t.len() > 0 {
        assert(crate::text::trim_start(t) == t);
        assert(crate::text::trim_end(t) == t);
    }
}

/// The events of a watched file are those of the file system, of its kind, of its host and path, with at
/// least as many lines as are waited for, and with the value that is waited for in the last of them.
pub proof fn law_watched_files_are_told_by_their_events<U, Q>(
    awaited: FileJsonlTailWhen,
    machine: Option<&str>,
    absolute: bool,
    v: ValidatedFileJsonlTailWhen,
    r: Result<EventFilter<U, Q>, ReflexError>,
)
    requires
        call_ensures(
            FileJsonlTailWhen::validate,
            (&awaited, machine, absolute),
            Ok::<ValidatedFileJsonlTailWhen, ReflexError>(v),
        ),
        call_ensures(
            FileJsonlTailWhen::into_event_filter::<U, Q>,
            (awaited, machine, absolute),
            r,
        ),
    ensures
        r is Ok,
        (r->Ok_0)@ is And,
        ({
            let parts = (r->Ok_0)@->And_0;
            &&& parts.len() == 6
            &&& parts[0] == FilterView::<U, Q>::Source(EventSource::Filesystem)
            &&& parts[1] == FilterView::<U, Q>::Kind("file_jsonl_tail"@)
            &&& parts[2] == FilterView::<U, Q>::Data(
                "/host"@,
                PredicateView::Eq(JsonView::Text(v.host@)),
            )
            &&& parts[3] == FilterView::<U, Q>::Data(
                "/path"@,
                PredicateView::Eq(JsonView::Text(v.path@)),
            )
            &&& parts[4] == FilterView::<U, Q>::Data(
                "/line_count"@,
                PredicateView::Ge(json_int(v.min_lines as int)),
            )
            &&& parts[5] == FilterView::<U, Q>::Data(
                v.event_data_pointer@,
                PredicateView::Eq(v.equals@),
            )
        }),
{
}

/// A pattern is accepted where it is not blank and can be compiled; a kind, where something is left of
/// it without the blanks round it.
pub proof fn law_patterns_and_kinds_are_not_blank(
    pattern: &str,
    compiled: Result<(), String>,
    kind: &str,
    normal: String,
    checked: Result<(), ReflexError>,
    valid: Result<(), ReflexError>,
    named: Result<String, ReflexError>,
)
    requires
        call_ensures(check_regex, (pattern, compiled), checked),
        call_ensures(validate_regex, (pattern,), valid),
        call_ensures(normalize_window_event_kind, (kind,), named),
        call_ensures(normalize_kind, (kind,), normal),
    ensures
        checked is Ok <==> !is_blank(pattern@) && compiled is Ok,
        valid is Ok <==> !is_blank(pattern@) && regex_complaint(pattern@) is None,
        named is Ok <==> normal@.len() > 0,
        named is Ok ==> named->Ok_0@ == normal@,
{
}

/// A window's event is waited for by its kind, and where a title is given by that too; it is refused
/// where the kind or the pattern is.
pub proof fn law_window_events_are_waited_for_by_kind_and_title<U, Q>(
    awaited: WindowEventWhen,
    compiled: Result<(), String>,
    kind: &str,
    named: Result<String, ReflexError>,
    r: Result<EventFilter<U, Q>, ReflexError>,
)
    requires
        kind@ == awaited.kind@,
        call_ensures(normalize_window_event_kind, (kind,), named),
        call_ensures(WindowEventWhen::checked_event_filter::<U, Q>, (awaited, compiled), r),
    ensures
        awaited.match_clause.window_title_regex is None ==> (r is Ok <==> named is Ok),
        awaited.match_clause.window_title_regex is None && r is Ok ==> (r->Ok_0)@ == FilterView::<
            U,
            Q,
        >::Kind(named->Ok_0@),
        awaited.match_clause.window_title_regex is Some ==> (r is Ok <==> named is Ok && !is_blank(
            awaited.match_clause.window_title_regex->Some_0@,
        ) && compiled is Ok),
        awaited.match_clause.window_title_regex is Some && r is Ok ==> {
            &&& (r->Ok_0)@ is And
            &&& (r->Ok_0)@->And_0.len() == 2
            &&& (r->Ok_0)@->And_0[0] == FilterView::<U, Q>::Kind(named->Ok_0@)
            &&& (r->Ok_0)@->And_0[1] == FilterView::<U, Q>::Data(
                "/window_title"@,
                PredicateView::Regex(awaited.match_clause.window_title_regex->Some_0@),
            )
        },
{
}

/// Events of a window always need the interface's, those of a file never, and a filter as it says; a
/// filter is taken as it is.
pub proof fn law_events_need_what_they_are_of<U, Q>(
    awaited: &ReflexWhenParam<U, Q>,
    given: EventFilter<U, Q>,
    machine: Option<&str>,
    absolute: bool,
    needs: bool,
    r: bool,
    taken: Result<EventFilter<U, Q>, ReflexError>,
)
    requires
        call_ensures(ReflexWhenParam::<U, Q>::requires_a11y_event_bridge, (awaited,), r),
        call_ensures(event_filter_requires_a11y_bridge::<U, Q>, (&given,), needs),
        call_ensures(
            ReflexWhenParam::<U, Q>::into_event_filter,
            (ReflexWhenParam::Filter(given), machine, absolute),
            taken,
        ),
    ensures
        *awaited is WindowEvent ==> r,
        *awaited is FileJsonlTail ==> !r,
        *awaited == ReflexWhenParam::Filter(given) ==> r == needs,
        taken == Ok::<EventFilter<U, Q>, ReflexError>(given),
{
}

/// What a call leaves to `auto` goes to the fallback; what it names stays, and so does everything else
/// of an action.
pub proof fn law_auto_goes_to_the_fallback<P>(
    action: ReflexAction<P>,
    fallback: Backend,
    r: ReflexAction<P>,
)
    requires
        call_ensures(apply_backend_default::<P>, (action, fallback), r),
    ensures
        action is PadButton || action is Fixed ==> r == action,
        action matches ReflexAction::KeyPress { key, hold_ms, backend } ==> r == (
        ReflexAction::KeyPress::<P> {
            key,
            hold_ms,
            backend: if backend is Auto {
                fallback
            } else {
                backend
            },
        }),
        action matches ReflexAction::MouseButton { button, action: deed, hold_ms, backend } ==> r == (
        ReflexAction::MouseButton::<P> {
            button,
            action: deed,
            hold_ms,
            backend: if backend is Auto {
                fallback
            } else {
                backend
            },
        }),
        action matches ReflexAction::MouseMoveRelative { motion, backend } ==> r == (
        ReflexAction::MouseMoveRelative {
            motion,
            backend: if backend is Auto {
                fallback
            } else {
                backend
            },
        }),
        action matches ReflexAction::Combo { steps, backend } ==> r == (ReflexAction::Combo {
            steps,
            backend: if backend is Auto {
                fallback
            } else {
                backend
            },
        }),
        action matches ReflexAction::Routed { action: deed, backend } ==> r == (
        ReflexAction::Routed {
            action: deed,
            backend: if backend is Auto {
                fallback
            } else {
                backend
            },
        }),
{
}

/// A button is held by going down at once, on the mouse by the backend in question or on the pad.
pub proof fn law_buttons_are_held_by_going_down<P>(
    button: ReflexButtonTarget<P>,
    backend: Backend,
    r: ReflexAction<P>,
)
    requires
        call_ensures(button_down_action::<P>, (button, backend), r),
    ensures
        button matches ReflexButtonTarget::Mouse { button: b } ==> r == (
        ReflexAction::MouseButton::<P> {
            button: b,
            action: ButtonAction::Down,
            hold_ms: 0,
            backend,
        }),
        button matches ReflexButtonTarget::Pad { target } ==> r == (ReflexAction::PadButton {
            target,
            action: ButtonAction::Down,
            hold_ms: 0,
        }),
{
}

/// A step is made by the tool it names, typing or pressing; another tool is refused, and so is a step
/// whose parameters its tool refuses.
pub proof fn law_steps_are_made_by_their_tools<P>(
    index: usize,
    step: ReflexThenStep<P>,
    r: Result<MadeAction<P>, ReflexError>,
)
    requires
        call_ensures(action_from_demo_step::<P>, (index, step), r),
    ensures
        r is Ok <==> (trimmed(step.action@) == "act_type"@ || trimmed(step.action@)
            == "act_press"@) && step.made is Ok,
        r is Ok ==> r->Ok_0 == step.made->Ok_0,
{
}

/// What is to be done is done in full and in order: a single action, several, a combo, or the steps that
/// are named, each with the fallback in place of `auto`; reading back does nothing.
pub proof fn law_all_that_is_named_is_done<P>(
    then: ReflexThenParam<P>,
    backend: Backend,
    r: Result<Vec<ReflexAction<P>>, ReflexError>,
    i: int,
)
    requires
        call_ensures(actions_from_then::<P>, (then, backend), r),
    ensures
        then matches ReflexThenParam::Core(ReflexThen::Action { action }) ==> r is Ok
            && r->Ok_0@.len() == 1 && r->Ok_0@[0] == with_default(action, backend),
        then matches ReflexThenParam::Core(ReflexThen::Actions { actions }) ==> r is Ok
            && r->Ok_0@.len() == actions@.len() && (0 <= i < actions@.len() ==> r->Ok_0@[i]
            == with_default(actions@[i], backend)),
        then matches ReflexThenParam::Core(ReflexThen::Combo { steps, backend: own }) ==> r is Ok
            && r->Ok_0@.len() == 1 && r->Ok_0@[0] == with_default(
            ReflexAction::Combo { steps, backend: own },
            backend,
        ),
        then matches ReflexThenParam::AuditAction(action) ==> (r is Ok <==> action.action@
            == "audit/readback"@) && (r is Ok ==> r->Ok_0@.len() == 0),
        then matches ReflexThenParam::Steps { steps } ==> (steps@.len() == 0 ==> r is Err),
        then matches ReflexThenParam::Steps { steps } ==> (r is Ok ==> r->Ok_0@.len() == steps@.len()
            && (0 <= i < steps@.len() ==> steps@[i].made is Ok && (trimmed(steps@[i].action@)
            == "act_type"@ || trimmed(steps@[i].action@) == "act_press"@) && r->Ok_0@[i]
            == with_default((steps@[i].made->Ok_0).action, backend))),
        then matches ReflexThenParam::Steps { steps } ==> (steps@.len() > 0 && (forall|k: int|
            0 <= k < steps@.len() ==> (#[trigger] steps@[k]).made is Ok && (trimmed(
                steps@[k].action@,
            ) == "act_type"@ || trimmed(steps@[k].action@) == "act_press"@)) ==> r is Ok),
{
    let plain = choose|plain: Result<Vec<ReflexAction<P>>, ReflexError>|
        {
            &&& #[trigger] are_plain_actions(then, plain)
            &&& match plain {
                Ok(actions) => r matches Ok(given) && given@ == with_defaults(actions@, backend),
                Err(e) => r == Err::<Vec<ReflexAction<P>>, ReflexError>(e),
            }
        };
    assert(are_plain_actions(then, plain));
    if let ReflexThenParam::Steps { steps } = then {
        if plain is Ok && 0 <= i < steps@.len() {
            let action = plain->Ok_0@[i];
            assert(demo_action(i as nat, steps@[i]) == Ok::<ReflexAction<P>, Seq<char>>(action));
        }
        if plain is Err && steps@.len() > 0 {
            let at = choose|at: int| #[trigger]
                fails_first(steps@, at) && (plain->Err_0).text() == demo_action(
                    at as nat,
                    steps@[at],
                )->Err_0;
            assert(demo_action(at as nat, steps@[at]) is Err);
            assert(!(steps@[at].made is Ok && (trimmed(steps@[at].action@) == "act_type"@
                || trimmed(steps@[at].action@) == "act_press"@)));
        }
    }
}

/// A timed step is the input that its tool makes, at its time: a key press with its hold, a button or a
/// motion. It is refused where the hold is too long for a combo or where it makes anything else.
pub proof fn law_timed_steps_are_single_inputs<P>(
    index: usize,
    at_ms: u32,
    step: ReflexThenStep<P>,
    made: Result<MadeAction<P>, ReflexError>,
    r: Result<ComboStep<P>, ReflexError>,
)
    requires
        call_ensures(action_from_demo_step::<P>, (index, step), made),
        call_ensures(timed_demo_step_to_combo_step::<P>, (index, at_ms, step), r),
    ensures
        made is Err ==> r is Err,
        r is Ok ==> (r->Ok_0).at_ms == at_ms,
        made is Ok ==> {
            let action = (made->Ok_0).action;
            &&& (r is Ok <==> (action is KeyPress && action->KeyPress_hold_ms <= 65_535) || action
                is MouseButton || action is MouseMoveRelative)
            &&& (action is KeyPress && r is Ok ==> (r->Ok_0).input is KeyPress && (
            r->Ok_0).input->key == action->key && (r->Ok_0).input->KeyPress_hold_ms
                == action->KeyPress_hold_ms)
            &&& (action is MouseButton ==> (r->Ok_0).input is MouseButton && (
            r->Ok_0).input->button == action->button && (r->Ok_0).input->MouseButton_action
                == action->MouseButton_action)
            &&& (action is MouseMoveRelative ==> (r->Ok_0).input is MouseMoveRel && (
            r->Ok_0).input->motion == action->motion)
        },
{
}

/// A step that is given as an input is taken as it is; one that is given as a tool's is made by it, at
/// its own time.
pub proof fn law_steps_are_taken_at_their_time<P>(
    index: usize,
    step: ReflexComboStepParam<P>,
    r: Result<ComboStep<P>, ReflexError>,
    timed: ReflexTimedThenStep<P>,
    made: Result<ComboStep<P>, ReflexError>,
)
    requires
        call_ensures(combo_step_from_param::<P>, (index, step), r),
        call_ensures(timed_demo_step_to_combo_step::<P>, (index, timed.at_ms, timed.step), made),
    ensures
        step matches ReflexComboStepParam::Core(given) ==> r == Ok::<ComboStep<P>, ReflexError>(
            given,
        ),
        step == ReflexComboStepParam::Tool(timed) ==> (r is Ok <==> made is Ok) && (r is Ok
            ==> r->Ok_0 == made->Ok_0),
{
}

/// A combo takes all the steps it is given, in order: those named as its steps, or else those of what is
/// to be done. It needs at least one, and reading back is no step.
pub proof fn law_combos_take_all_their_steps<P>(
    steps: Option<Vec<ReflexComboStepParam<P>>>,
    then: Option<ReflexThenParam<P>>,
    r: Result<Vec<ComboStep<P>>, ReflexError>,
    i: int,
)
    requires
        call_ensures(combo_steps_from_params::<P>, (steps, then), r),
    ensures
        steps is Some && steps->Some_0@.len() == 0 ==> r is Err,
        steps is Some && r is Ok ==> r->Ok_0@.len() == steps->Some_0@.len(),
        steps is Some && r is Ok && 0 <= i < r->Ok_0@.len() && steps->Some_0@[i] is Core ==> r->Ok_0@[i]
            == steps->Some_0@[i]->Core_0,
        steps is Some && r is Ok && 0 <= i < r->Ok_0@.len() && steps->Some_0@[i] is Tool ==> r->Ok_0@[i].at_ms
            == steps->Some_0@[i]->Tool_0.at_ms,
        steps is Some && steps->Some_0@.len() > 0 && (forall|k: int|
            0 <= k < steps->Some_0@.len() ==> #[trigger] steps->Some_0@[k] is Core) ==> r is Ok,
        steps is None && then is None ==> r is Err,
        steps is None ==> (then matches Some(
            ReflexThenParam::Core(ReflexThen::Combo { steps: own, backend }),
        ) ==> (r is Ok <==> own@.len() > 0) && (r is Ok ==> r->Ok_0 == own)),
        steps is None ==> (then matches Some(ReflexThenParam::Steps { steps: own }) ==> (r is Ok
            ==> r->Ok_0@.len() == own@.len() && (0 <= i < own@.len() ==> r->Ok_0@[i].at_ms == 0))),
        steps is None ==> (then matches Some(ReflexThenParam::AuditAction(_)) ==> r is Err),
{
    if steps is Some && r is Ok && 0 <= i < r->Ok_0@.len() {
        let made = given_steps(steps->Some_0@);
        let step = r->Ok_0@[i];
        assert(made[i] == Ok::<ComboStep<P>, Seq<char>>(step));
        assert(made[i] == given_step(i as nat, steps->Some_0@[i]));
    }
    if steps is Some && r is Err && steps->Some_0@.len() > 0 {
        let made = given_steps(steps->Some_0@);
        let at = choose|at: int| #[trigger]
            breaks_first(made, at) && (r->Err_0).text() == made[at]->Err_0;
        assert(made[at] is Err);
        let step = steps->Some_0@[at];
        assert(step !is Core);
    }
    if steps is None && r is Ok {
        if let Some(ReflexThenParam::Steps { steps: own }) = then {
            if 0 <= i < own@.len() {
                let made = untimed_steps(own@);
                let step = r->Ok_0@[i];
                assert(made[i] == Ok::<ComboStep<P>, Seq<char>>(step));
            }
        }
    }
}

/// A reflex is told what to do by its caller, and looks at a file every second and acts by the backend
/// at hand where nothing else is said.
pub proof fn law_reflex_defaults<T>(
    then: Option<T>,
    kind: &str,
    r: Result<T, ReflexError>,
    every: u64,
    backend: Backend,
)
    requires
        call_ensures(required_then::<T>, (then, kind), r),
        call_ensures(default_file_jsonl_tail_poll_interval_ms, (), every),
        call_ensures(default_backend, (), backend),
    ensures
        then is Some ==> r == Ok::<T, ReflexError>(then->Some_0),
        then is None ==> r is Err && (r->Err_0).text() == kind@ + " reflex requires then"@,
        every == 1000,
        backend is Auto,
{
}

} // verus!
