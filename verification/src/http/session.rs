//! Sessions over HTTP.
//!
//! Every request to the endpoint belongs to a session, except the one that opens it. A session that
//! is closed gives back what it held.

use vstd::prelude::*;

use crate::error::HTTP_SESSION_INVALID;
use crate::numerals::{parse_unsigned, parsed_unsigned};
use crate::text::{cat2, cat3, debug_quoted, quoted, text_equal, text_starts_with, trim, trimmed};

verus! {

/// The variable that sets how long a session may idle.
pub const SESSION_IDLE_TIMEOUT_ENV: &'static str = "SYNAPSE_HTTP_SESSION_IDLE_TIMEOUT_SECS";

/// How long a session may idle by default, in seconds.
pub const DEFAULT_SESSION_IDLE_TIMEOUT_SECS: u64 = 300;

/// Most bytes of a request.
pub const MAX_MCP_REQUEST_BYTES: usize = 1_048_576;

/// The header that names the session.
pub const SESSION_ID_HEADER: &'static str = "Mcp-Session-Id";

// ---------------------------------------------------------------------------------------------
// How long a session may idle
// ---------------------------------------------------------------------------------------------

/// Why a timeout is refused.
#[derive(Debug, PartialEq, Eq)]
pub enum IdleTimeoutError {
    /// It is not a number; the text without the blanks around it.
    InvalidInteger { value: String },
    Zero,
}

impl IdleTimeoutError {
    /// The error as text.
    pub open spec fn text(self) -> Seq<char> {
        match self {
            IdleTimeoutError::InvalidInteger { value } => "invalid integer "@ + debug_quoted(
                value@,
            ),
            IdleTimeoutError::Zero => "idle timeout must be greater than zero seconds"@,
        }
    }

    /// The error as text.
    pub fn message(&self) -> (r: String)
        ensures
            r@ == self.text(),
    {
        match self {
            IdleTimeoutError::InvalidInteger { value } => {
                let shown = quoted(value.as_str());
                cat2("invalid integer ", shown.as_str())
            },
            IdleTimeoutError::Zero => "idle timeout must be greater than zero seconds".to_owned(),
        }
    }
}

/// Reads a timeout: a number of seconds above zero, with blanks around it allowed.
pub fn parse_idle_timeout(raw: &str) -> (r: Result<u64, IdleTimeoutError>)
    ensures
        match parsed_unsigned(trimmed(raw@), u64::MAX as nat) {
            None => r matches Err(IdleTimeoutError::InvalidInteger { value }) && value@ == trimmed(
                raw@,
            ),
            Some(seconds) => if seconds == 0 {
                r == Err::<u64, IdleTimeoutError>(IdleTimeoutError::Zero)
            } else {
                r matches Ok(n) && n == seconds
            },
        },
{
    let value = trim(raw);
    match parse_unsigned(value.as_str(), u64::MAX) {
        None => Err(IdleTimeoutError::InvalidInteger { value }),
        Some(seconds) => if seconds == 0 {
            Err(IdleTimeoutError::Zero)
        } else {
            Ok(seconds)
        },
    }
}

/// What the environment says of the timeout.
#[derive(Debug)]
pub enum TimeoutSetting {
    NotPresent,
    Value(String),
    /// It could not be read, for this reason.
    Unreadable(String),
}

/// Why the timeout is not known.
#[allow(inconsistent_fields)]
#[derive(Debug, PartialEq, Eq)]
pub enum TimeoutFailure {
    Parse { raw: String, error: IdleTimeoutError },
    Read { error: String },
}

impl TimeoutFailure {
    /// What was being done when it failed.
    pub open spec fn context(self) -> Seq<char> {
        match self {
            TimeoutFailure::Parse { raw, error } => "parse "@ + SESSION_IDLE_TIMEOUT_ENV@ + ("="@
                + debug_quoted(raw@)),
            TimeoutFailure::Read { error } => "read "@ + SESSION_IDLE_TIMEOUT_ENV@,
        }
    }

    /// What was being done when it failed.
    pub fn context_text(&self) -> (r: String)
        ensures
            r@ == self.context(),
    {
        match self {
            TimeoutFailure::Parse { raw, error } => {
                let shown = quoted(raw.as_str());
                let tail = cat2("=", shown.as_str());
                cat3("parse ", SESSION_IDLE_TIMEOUT_ENV, tail.as_str())
            },
            TimeoutFailure::Read { error } => cat2("read ", SESSION_IDLE_TIMEOUT_ENV),
        }
    }
}

/// Decides how long a session may idle, in seconds: five minutes unless the environment says
/// otherwise.
pub fn session_idle_timeout_secs(setting: TimeoutSetting) -> (r: Result<u64, TimeoutFailure>)
    ensures
        match setting {
            TimeoutSetting::NotPresent => r == Ok::<u64, TimeoutFailure>(300),
            TimeoutSetting::Unreadable(error) => r == Err::<u64, TimeoutFailure>(
                TimeoutFailure::Read { error },
            ),
            TimeoutSetting::Value(raw) => match parsed_unsigned(
                trimmed(raw@),
                u64::MAX as nat,
            ) {
                None => r matches Err(TimeoutFailure::Parse { raw: given, error }) && given == raw
                    && error is InvalidInteger && error->value@ == trimmed(raw@),
                Some(seconds) => if seconds == 0 {
                    r == Err::<u64, TimeoutFailure>(
                        TimeoutFailure::Parse { raw, error: IdleTimeoutError::Zero },
                    )
                } else {
                    r matches Ok(n) && n == seconds
                },
            },
        },
{
    match setting {
        TimeoutSetting::NotPresent => Ok(DEFAULT_SESSION_IDLE_TIMEOUT_SECS),
        TimeoutSetting::Unreadable(error) => Err(TimeoutFailure::Read { error }),
        TimeoutSetting::Value(raw) => match parse_idle_timeout(raw.as_str()) {
            Ok(seconds) => Ok(seconds),
            Err(error) => Err(TimeoutFailure::Parse { raw, error }),
        },
    }
}

// ---------------------------------------------------------------------------------------------
// Replies
// ---------------------------------------------------------------------------------------------

/// The media type of every reply that the server makes itself.
pub const PLAIN_TEXT: &'static str = "text/plain; charset=utf-8";

/// A reply that the server makes itself.
#[derive(Debug, PartialEq, Eq)]
pub struct Reply {
    pub status: u16,
    pub content_type: String,
    pub body: String,
}

impl Reply {
    /// The reply has this status and this text.
    pub open spec fn says(self, status: u16, body: Seq<char>) -> bool {
        self.status == status && self.content_type@ == PLAIN_TEXT@ && self.body@ == body
    }
}

fn plain_reply(status: u16, body: String) -> (r: Reply)
    ensures
        r.says(status, body@),
{
    Reply { status, content_type: PLAIN_TEXT.to_owned(), body }
}

/// Why a request is refused.
#[derive(Clone, Copy, Debug, PartialEq, Eq, Structural)]
pub enum SessionFailure {
    Missing,
    UnknownOrExpired,
}

/// The reply that refuses a session: the same whether it is missing or not known.
pub open spec fn is_session_invalid(reply: Reply) -> bool {
    reply.says(404, HTTP_SESSION_INVALID@)
}

/// The reply that refuses a session.
pub fn session_invalid(failure: SessionFailure) -> (r: Reply)
    ensures
        is_session_invalid(r),
{
    plain_reply(404, HTTP_SESSION_INVALID.to_owned())
}

/// The reply to a request that is too large.
pub fn payload_too_large() -> (r: Reply)
    ensures
        r.says(413, "request body too large"@),
{
    plain_reply(413, "request body too large".to_owned())
}

/// Why an action on held inputs failed.
#[derive(Debug, PartialEq, Eq)]
pub struct InputFailure {
    pub code: String,
    pub detail: String,
}

/// The reply where what a session held could not be given back.
pub open spec fn is_cleanup_failed(reply: Reply, failure: InputFailure) -> bool {
    reply.says(500, failure.code@ + ": "@ + failure.detail@)
}

/// The reply where what a session held could not be given back.
pub fn cleanup_failed(failure: &InputFailure) -> (r: Reply)
    ensures
        is_cleanup_failed(r, *failure),
{
    plain_reply(500, cat3(failure.code.as_str(), ": ", failure.detail.as_str()))
}

// ---------------------------------------------------------------------------------------------
// Requests
// ---------------------------------------------------------------------------------------------

/// The method of a request.
#[derive(Clone, Copy, Debug, PartialEq, Eq, Structural)]
pub enum HttpMethod {
    Get,
    Post,
    Delete,
    Other,
}

/// Whether a path is that of the endpoint, or below it.
pub open spec fn is_endpoint(path: Seq<char>) -> bool {
    path == "/mcp"@ || "/mcp/"@.is_prefix_of(path)
}

/// Says whether a path is that of the endpoint, or below it.
pub fn is_mcp_endpoint(path: &str) -> (r: bool)
    ensures
        r == is_endpoint(path@),
{
    text_equal(path, "/mcp") || text_starts_with(path, "/mcp/")
}

/// The session that a header names: its text without the blanks around it, where anything is left.
pub open spec fn header_session(header: Option<&str>) -> Option<Seq<char>> {
    match header {
        Some(value) => if trimmed(value@).len() > 0 {
            Some(trimmed(value@))
        } else {
            None
        },
        None => None,
    }
}

/// The session that a header names. `header` is its value, where there is one that is text.
pub fn session_id_from_header(header: Option<&str>) -> (r: Option<String>)
    ensures
        crate::text::optional_view(r) == header_session(header),
{
    match header {
        Some(value) => {
            let id = trim(value);
            if id.as_str().unicode_len() > 0 {
                Some(id)
            } else {
                None
            }
        },
        None => None,
    }
}

/// Says whether a header names a session.
pub fn has_session_header(header: Option<&str>) -> (r: bool)
    ensures
        r == (header_session(header) is Some),
{
    session_id_from_header(header).is_some()
}

/// What to do with a request.
#[derive(Debug, PartialEq, Eq)]
pub enum SessionStep {
    /// Hand it on: it is none of the endpoint's.
    PassThrough,
    /// Hand it on, in the session that is named, if one is.
    Forward { session_id: Option<String> },
    /// Read its body, up to the limit: only a request that opens a session may name none.
    ReadBody,
    /// Refuse it.
    Refuse(SessionFailure),
}

/// What is done with a request.
pub open spec fn is_session_step(
    step: SessionStep,
    path: Seq<char>,
    method: HttpMethod,
    header: Option<&str>,
) -> bool {
    if !is_endpoint(path) {
        step is PassThrough
    } else if header_session(header) is Some {
        step matches SessionStep::Forward { session_id } && crate::text::optional_view(session_id)
            == header_session(header)
    } else {
        match method {
            HttpMethod::Post => step is ReadBody,
            HttpMethod::Get => step == SessionStep::Refuse(SessionFailure::Missing),
            HttpMethod::Delete => step == SessionStep::Refuse(SessionFailure::Missing),
            HttpMethod::Other => step == (SessionStep::Forward { session_id: None }),
        }
    }
}

/// Decides what to do with a request.
pub fn require_mcp_session(path: &str, method: HttpMethod, header: Option<&str>) -> (r: SessionStep)
    ensures
        is_session_step(r, path@, method, header),
{
    if !is_mcp_endpoint(path) {
        return SessionStep::PassThrough;
    }
    let session_id = session_id_from_header(header);
    if session_id.is_some() {
        return SessionStep::Forward { session_id };
    }
    match method {
        HttpMethod::Post => SessionStep::ReadBody,
        HttpMethod::Get => SessionStep::Refuse(SessionFailure::Missing),
        HttpMethod::Delete => SessionStep::Refuse(SessionFailure::Missing),
        HttpMethod::Other => SessionStep::Forward { session_id: None },
    }
}

// ---------------------------------------------------------------------------------------------
// The body of a request
// ---------------------------------------------------------------------------------------------

/// `serde_json::Value`, a JSON value of that crate.
#[verifier::external_type_specification]
#[verifier::external_body]
pub struct ExJsonValue(serde_json::Value);

/// `serde_json::Error`, why that crate could not read a JSON value.
#[verifier::external_type_specification]
#[verifier::external_body]
pub struct ExJsonError(serde_json::Error);

/// The fields of a JSON object that hold texts, by their keys; of any other JSON value, none.
pub uninterp spec fn text_fields(value: serde_json::Value) -> Map<Seq<char>, Seq<char>>;

/// What `serde_json::from_slice` reads some bytes as, by its text fields, where it reads them as a
/// JSON value at all.
pub uninterp spec fn parsed_fields(bytes: Seq<u8>) -> Option<Map<Seq<char>, Seq<char>>>;

/// `serde_json::from_slice`, into a `serde_json::Value`: reads bytes as one JSON value. Whether it
/// can, and the value, are decided by the bytes alone.
#[verifier::external_body]
fn parse_json(bytes: &[u8]) -> (r: Result<serde_json::Value, serde_json::Error>)
    ensures
        parsed_fields(bytes@) == (match r {
            Ok(value) => Some(text_fields(value)),
            Err(_) => None,
        }),
{
    serde_json::from_slice::<serde_json::Value>(bytes)
}

/// `serde_json::Value::get` with a key, then `serde_json::Value::as_str`: the text that an object
/// holds under a key, where it holds one there.
#[verifier::external_body]
fn text_field(value: &serde_json::Value, key: &str) -> (r: Option<String>)
    ensures
        match r {
            Some(text) => text_fields(*value).contains_key(key@) && text_fields(*value)[key@]
                == text@,
            None => !text_fields(*value).contains_key(key@),
        },
{
    value.get(key).and_then(serde_json::Value::as_str).map(str::to_owned)
}

/// Whether the text fields of a request say that it opens a session.
pub open spec fn opens_session(fields: Map<Seq<char>, Seq<char>>) -> bool {
    fields.contains_key("method"@) && fields["method"@] == "initialize"@
}

/// Says whether a method is the one that opens a session.
pub fn opening_method(method: Option<&str>) -> (r: bool)
    ensures
        r == (method matches Some(name) && name@ == "initialize"@),
{
    match method {
        Some(name) => text_equal(name, "initialize"),
        None => false,
    }
}

/// Says whether a request opens a session.
pub fn jsonrpc_method_is_initialize(value: &serde_json::Value) -> (r: bool)
    ensures
        r == opens_session(text_fields(*value)),
{
    match text_field(value, "method") {
        Some(method) => opening_method(Some(method.as_str())),
        None => false,
    }
}

/// What becomes of a request without a session.
#[derive(Clone, Copy, Debug, PartialEq, Eq, Structural)]
pub enum Admission {
    Forward,
    Refuse(SessionFailure),
}

/// Decides what becomes of a request without a session. `parsed` says whether it opens one, where its
/// body could be read as JSON; what cannot is left to the endpoint to refuse.
pub fn admit_without_session(parsed: Option<bool>) -> (r: Admission)
    ensures
        r == (if parsed == Some(false) {
            Admission::Refuse(SessionFailure::Missing)
        } else {
            Admission::Forward
        }),
{
    match parsed {
        Some(opens) => if opens {
            Admission::Forward
        } else {
            Admission::Refuse(SessionFailure::Missing)
        },
        None => Admission::Forward,
    }
}

/// What becomes of a request without a session, given what its body reads as.
pub open spec fn admission(parsed: Option<Map<Seq<char>, Seq<char>>>) -> Admission {
    match parsed {
        None => Admission::Forward,
        Some(fields) => if opens_session(fields) {
            Admission::Forward
        } else {
            Admission::Refuse(SessionFailure::Missing)
        },
    }
}

/// Decides what becomes of a request without a session, given its body.
pub fn allow_initialize_without_session(body: &[u8]) -> (r: Admission)
    ensures
        r == admission(parsed_fields(body@)),
{
    let parsed: Option<bool> = match parse_json(body) {
        Ok(value) => Some(jsonrpc_method_is_initialize(&value)),
        Err(_) => None,
    };
    admit_without_session(parsed)
}

/// Decides what is answered to a request of a session, given the status of the response: where nothing
/// was found, the session is not known.
pub fn answer_in_session(status: u16) -> (r: Option<Reply>)
    ensures
        match r {
            Some(reply) => status == 404 && is_session_invalid(reply),
            None => status != 404,
        },
{
    if status == 404 {
        Some(session_invalid(SessionFailure::UnknownOrExpired))
    } else {
        None
    }
}

// ---------------------------------------------------------------------------------------------
// Closing a session
// ---------------------------------------------------------------------------------------------

/// What closing a session does next.
#[derive(Debug, PartialEq, Eq)]
pub enum CleanupStep {
    /// Ask whether the session is active.
    CheckActive,
    /// Hand the request on.
    HandOn,
    /// Read which inputs are held.
    Snapshot,
    /// Release the inputs of the session; whatever comes of it, give back its lease and forget its
    /// target.
    Release,
    /// Give back the lease of the session and forget its target, then answer with a reply.
    GiveBackLease(Reply),
    /// Answer with the response to the request.
    PassResponse,
    /// Answer with a reply.
    Answer(Reply),
}

/// A request as it may close a session.
#[derive(Debug)]
pub struct SessionCleanup {
    /// The session that the request closes, if it closes one.
    pub session_id: Option<String>,
}

/// The session that a request closes: the one that a request to delete the endpoint's session names.
pub open spec fn closed_session(
    path: Seq<char>,
    method: HttpMethod,
    header: Option<&str>,
) -> Option<Seq<char>> {
    if method is Delete && is_endpoint(path) {
        header_session(header)
    } else {
        None
    }
}

/// The first step: a request that closes a session has it checked.
pub open spec fn begins_with(step: CleanupStep, closes: bool) -> bool {
    step == (if closes {
        CleanupStep::CheckActive
    } else {
        CleanupStep::HandOn
    })
}

/// The step once it is known whether the session is active.
pub open spec fn follows_check(step: CleanupStep, active: bool) -> bool {
    if active {
        step is HandOn
    } else {
        step matches CleanupStep::Answer(reply) && is_session_invalid(reply)
    }
}

/// The step once the request was answered with a status.
pub open spec fn follows_response(step: CleanupStep, closes: bool, status: u16) -> bool {
    step == (if closes && 200 <= status <= 299 {
        CleanupStep::Snapshot
    } else {
        CleanupStep::PassResponse
    })
}

/// The step once it was read which inputs are held: where that could not be read, no input is
/// released, but the lease is given back.
pub open spec fn follows_snapshot(step: CleanupStep, failure: Option<InputFailure>) -> bool {
    match failure {
        None => step is Release,
        Some(failure) => step matches CleanupStep::GiveBackLease(reply) && is_cleanup_failed(
            reply,
            failure,
        ),
    }
}

/// Whether a step gives back the lease of the session and forgets its target.
pub open spec fn gives_back_lease(step: CleanupStep) -> bool {
    step is Release || step is GiveBackLease
}

/// The step once the inputs were released, or could not be.
pub open spec fn follows_release(step: CleanupStep, failure: Option<InputFailure>) -> bool {
    match failure {
        None => step is PassResponse,
        Some(failure) => step matches CleanupStep::Answer(reply) && is_cleanup_failed(
            reply,
            failure,
        ),
    }
}

impl SessionCleanup {
    /// Begins with a request.
    pub fn begin(path: &str, method: HttpMethod, header: Option<&str>) -> (r: (
        SessionCleanup,
        CleanupStep,
    ))
        ensures
            crate::text::optional_view(r.0.session_id) == closed_session(path@, method, header),
            begins_with(r.1, closed_session(path@, method, header) is Some),
    {
        let session_id: Option<String> = if method == HttpMethod::Delete && is_mcp_endpoint(path) {
            session_id_from_header(header)
        } else {
            None
        };
        let step: CleanupStep = if session_id.is_some() {
            CleanupStep::CheckActive
        } else {
            CleanupStep::HandOn
        };
        (SessionCleanup { session_id }, step)
    }

    /// Goes on once it is known whether the session is active: one that is not gives nothing back.
    pub fn checked(active: bool) -> (r: CleanupStep)
        ensures
            follows_check(r, active),
    {
        if active {
            CleanupStep::HandOn
        } else {
            CleanupStep::Answer(session_invalid(SessionFailure::UnknownOrExpired))
        }
    }

    /// Goes on once the request was answered with a status.
    pub fn responded(&self, status: u16) -> (r: CleanupStep)
        ensures
            follows_response(r, self.session_id is Some, status),
    {
        if self.session_id.is_some() && 200 <= status && status <= 299 {
            CleanupStep::Snapshot
        } else {
            CleanupStep::PassResponse
        }
    }

    /// Goes on once it was read which inputs are held.
    pub fn snapshot_taken(failure: Option<InputFailure>) -> (r: CleanupStep)
        ensures
            follows_snapshot(r, failure),
    {
        match failure {
            None => CleanupStep::Release,
            Some(failure) => CleanupStep::GiveBackLease(cleanup_failed(&failure)),
        }
    }

    /// Ends once the inputs were released, or could not be.
    pub fn release_held_inputs_on_delete(failure: Option<InputFailure>) -> (r: CleanupStep)
        ensures
            follows_release(r, failure),
    {
        match failure {
            None => CleanupStep::PassResponse,
            Some(failure) => CleanupStep::Answer(cleanup_failed(&failure)),
        }
    }
}

// ---------------------------------------------------------------------------------------------
// Laws
// ---------------------------------------------------------------------------------------------

/// Whether a request goes through: it is handed on at once, or once its body was read.
pub open spec fn goes_through(step: SessionStep, parsed: Option<Map<Seq<char>, Seq<char>>>) -> bool {
    step is PassThrough || step is Forward || (step is ReadBody && admission(parsed) is Forward)
}

/// A request to the endpoint that names no session and is a `GET` or a `DELETE` is refused, and a
/// `POST` is refused exactly if its body reads as JSON and does not open a session. Every other
/// request goes through.
pub proof fn law_requests_without_a_session_are_refused(
    step: SessionStep,
    path: Seq<char>,
    method: HttpMethod,
    header: Option<&str>,
    parsed: Option<Map<Seq<char>, Seq<char>>>,
)
    requires
        is_session_step(step, path, method, header),
    ensures
        !goes_through(step, parsed) <==> {
            &&& is_endpoint(path)
            &&& header_session(header) is None
            &&& {
                ||| method is Get
                ||| method is Delete
                ||| method is Post && parsed is Some && !opens_session(parsed->Some_0)
            }
        },
{
}

/// Only requests to delete the endpoint's own session close one, and they close the one that they
/// name.
pub proof fn law_only_deletes_close_sessions(
    path: Seq<char>,
    method: HttpMethod,
    header: Option<&str>,
)
    ensures
        closed_session(path, method, header) is Some <==> method is Delete && is_endpoint(path)
            && header_session(header) is Some,
        closed_session(path, method, header) is Some ==> closed_session(path, method, header)
            == header_session(header),
{
}

/// A session gives back its lease exactly if a request names it to be closed, it is active and the
/// request succeeds, whatever comes of its inputs; these are released exactly if it could also be read
/// which are held. A session that is not active never has the request handed on, and a request that
/// closes none is answered with its own response.
pub proof fn law_closed_sessions_give_back_what_they_held(
    first: CleanupStep,
    checked: CleanupStep,
    responded: CleanupStep,
    taken: CleanupStep,
    closes: bool,
    active: bool,
    status: u16,
    failure: Option<InputFailure>,
)
    requires
        begins_with(first, closes),
        follows_check(checked, active),
        follows_response(responded, closes, status),
        follows_snapshot(taken, failure),
    ensures
        first is CheckActive && checked is HandOn && responded is Snapshot && gives_back_lease(
            taken,
        ) <==> {
            &&& closes
            &&& active
            &&& 200 <= status <= 299
        },
        first is CheckActive && checked is HandOn && responded is Snapshot && taken is Release <==> {
            &&& closes
            &&& active
            &&& 200 <= status <= 299
            &&& failure is None
        },
        closes && !active ==> first is CheckActive && checked is Answer,
        !closes ==> first is HandOn && responded is PassResponse,
{
}

/// However a request is refused for its session, it is answered with the same reply.
pub proof fn law_refused_sessions_get_one_reply(missing: Reply, unknown: Reply)
    requires
        is_session_invalid(missing),
        is_session_invalid(unknown),
    ensures
        missing.status == 404,
        missing.status == unknown.status,
        missing.content_type@ == unknown.content_type@,
        missing.body@ == unknown.body@,
{
}

/// A request to the endpoint without a session is refused where it asks for a stream or closes a session,
/// is read where it posts, and goes on where its method is none of these; with a session it goes on in
/// that session, and outside the endpoint it always goes on.
pub proof fn law_requests_need_a_session(
    path: &str,
    method: HttpMethod,
    header: Option<&str>,
    r: SessionStep,
)
    requires
        call_ensures(require_mcp_session, (path, method, header), r),
    ensures
        path@ != "/mcp"@ && !"/mcp/"@.is_prefix_of(path@) ==> r is PassThrough,
        (path@ == "/mcp"@ || "/mcp/"@.is_prefix_of(path@)) ==> {
            &&& (header is Some && trimmed(header->Some_0@).len() > 0 ==> r is Forward
                && r->session_id is Some && r->session_id->Some_0@ == trimmed(header->Some_0@))
            &&& (header is None || trimmed(header->Some_0@).len() == 0 ==> match method {
                HttpMethod::Post => r is ReadBody,
                HttpMethod::Get => r is Refuse && r->Refuse_0 is Missing,
                HttpMethod::Delete => r is Refuse && r->Refuse_0 is Missing,
                HttpMethod::Other => r is Forward && r->session_id is None,
            })
        },
{
}

/// A posted body without a session goes on exactly if it opens one or is no JSON at all.
pub proof fn law_only_openings_need_no_session(body: &[u8], r: Admission)
    requires
        call_ensures(allow_initialize_without_session, (body,), r),
    ensures
        r is Forward <==> parsed_fields(body@) is None || (parsed_fields(
            body@,
        )->Some_0.contains_key("method"@) && parsed_fields(body@)->Some_0["method"@]
            == "initialize"@),
        r is Refuse ==> r->Refuse_0 is Missing,
{
}

/// A session is the header's value without the blanks round it, and none where nothing is left.
pub proof fn law_sessions_are_named_by_the_header(
    header: Option<&str>,
    named: Option<String>,
    has: bool,
)
    requires
        call_ensures(session_id_from_header, (header,), named),
        call_ensures(has_session_header, (header,), has),
    ensures
        has <==> named is Some,
        named is Some <==> header is Some && trimmed(header->Some_0@).len() > 0,
        named is Some ==> named->Some_0@ == trimmed(header->Some_0@),
{
}

/// A refused session is answered with 404 and the code; a body that is too large with 413; a failed
/// cleanup with 500, the failure's code and its detail. All of them in plain text.
pub proof fn law_refusals_have_their_replies(
    failure: SessionFailure,
    input: &InputFailure,
    refused: Reply,
    large: Reply,
    failed: Reply,
)
    requires
        call_ensures(session_invalid, (failure,), refused),
        call_ensures(payload_too_large, (), large),
        call_ensures(cleanup_failed, (input,), failed),
    ensures
        refused.status == 404 && refused.body@ == HTTP_SESSION_INVALID@,
        large.status == 413 && large.body@ == "request body too large"@,
        failed.status == 500 && failed.body@ == input.code@ + ": "@ + input.detail@,
        refused.content_type@ == PLAIN_TEXT@ && large.content_type@ == PLAIN_TEXT@
            && failed.content_type@ == PLAIN_TEXT@,
{
}

/// An answer of 404 in a session says that the session is gone; every other answer stands.
pub proof fn law_lost_sessions_are_told(status: u16, r: Option<Reply>)
    requires
        call_ensures(answer_in_session, (status,), r),
    ensures
        r is Some <==> status == 404,
        r is Some ==> r->Some_0.status == 404 && r->Some_0.body@ == HTTP_SESSION_INVALID@,
{
}

/// An idle timeout is a positive whole number of seconds, with blanks round it or not; zero and what is
/// no number are refused, each with its reason.
pub proof fn law_idle_timeouts_are_positive(raw: &str, r: Result<u64, IdleTimeoutError>)
    requires
        call_ensures(parse_idle_timeout, (raw,), r),
    ensures
        ({
            let digits = crate::numerals::numeral_digits(trimmed(raw@));
            let is_number = digits.len() > 0 && (forall|i: int|
                0 <= i < digits.len() ==> '0' <= #[trigger] digits[i] <= '9')
                && crate::numerals::digits_value(digits) <= 0xffff_ffff_ffff_ffff;
            &&& (r is Ok <==> is_number && crate::numerals::digits_value(digits) > 0)
            &&& (r is Ok ==> r->Ok_0 == crate::numerals::digits_value(digits))
            &&& (r == Err::<u64, IdleTimeoutError>(IdleTimeoutError::Zero) <==> is_number
                && crate::numerals::digits_value(digits) == 0)
            &&& (!is_number ==> r is Err && r->Err_0 is InvalidInteger && (r->Err_0)->value@
                == trimmed(raw@))
        }),
{
    let digits = crate::numerals::numeral_digits(trimmed(raw@));
    assert(crate::numerals::all_digits(digits) <==> forall|i: int|
        0 <= i < digits.len() ==> '0' <= #[trigger] digits[i] <= '9') by {
        if forall|i: int| 0 <= i < digits.len() ==> '0' <= #[trigger] digits[i] <= '9' {
            assert forall|i: int| 0 <= i < digits.len() implies crate::numerals::is_digit(
                #[trigger] digits[i],
            ) by {}
        }
        if crate::numerals::all_digits(digits) {
            assert forall|i: int| 0 <= i < digits.len() implies '0' <= #[trigger] digits[i]
                <= '9' by {
                assert(crate::numerals::is_digit(digits[i]));
            }
        }
    }
}

/// A session that nothing is set for ends after five idle minutes; one that is set, after the time that
/// is set; and a setting that is wrong is an error, as is one that cannot be read.
pub proof fn law_sessions_end_after_the_time_set(
    setting: TimeoutSetting,
    r: Result<u64, TimeoutFailure>,
    parsed: Result<u64, IdleTimeoutError>,
)
    requires
        call_ensures(session_idle_timeout_secs, (setting,), r),
    ensures
        setting is NotPresent ==> r == Ok::<u64, TimeoutFailure>(300),
        setting matches TimeoutSetting::Unreadable(error) ==> r is Err && r->Err_0 is Read && (
        r->Err_0)->Read_error == error,
        setting is Value ==> {
            let digits = crate::numerals::numeral_digits(trimmed(setting->Value_0@));
            &&& (r is Ok ==> r->Ok_0 == crate::numerals::digits_value(digits) && r->Ok_0 > 0)
            &&& (r is Err ==> r->Err_0 is Parse && (r->Err_0)->raw == setting->Value_0)
            &&& (r is Err && (r->Err_0)->Parse_error is Zero ==> crate::numerals::digits_value(
                digits,
            ) == 0)
        },
{
}

/// A request closes a session exactly if it deletes at the endpoint in a session; only then is the
/// session looked up first, and only its own is.
pub proof fn law_deletes_close_the_session_named(
    path: &str,
    method: HttpMethod,
    header: Option<&str>,
    r: (SessionCleanup, CleanupStep),
)
    requires
        call_ensures(SessionCleanup::begin, (path, method, header), r),
    ensures
        r.0.session_id is Some <==> method is Delete && (path@ == "/mcp"@ || "/mcp/"@.is_prefix_of(
            path@,
        )) && header is Some && trimmed(header->Some_0@).len() > 0,
        r.0.session_id is Some ==> r.0.session_id->Some_0@ == trimmed(header->Some_0@),
        r.0.session_id is Some ==> r.1 is CheckActive,
        r.0.session_id is None ==> r.1 is HandOn,
{
}

/// A session that is not active is refused before anything is handed on; one that was closed with
/// success has its inputs read and then released; and a failure on the way is what the caller is told,
/// behind a lease that is given back all the same.
pub proof fn law_closing_goes_step_by_step(
    cleanup: &SessionCleanup,
    active: bool,
    status: u16,
    failure: Option<InputFailure>,
    checked: CleanupStep,
    responded: CleanupStep,
    snapshot: CleanupStep,
    released: CleanupStep,
)
    requires
        call_ensures(SessionCleanup::checked, (active,), checked),
        call_ensures(SessionCleanup::responded, (cleanup, status), responded),
        call_ensures(SessionCleanup::snapshot_taken, (failure,), snapshot),
        call_ensures(SessionCleanup::release_held_inputs_on_delete, (failure,), released),
    ensures
        active ==> checked is HandOn,
        !active ==> checked is Answer && checked->Answer_0.status == 404 && checked->Answer_0.body@
            == HTTP_SESSION_INVALID@,
        cleanup.session_id is Some && 200 <= status < 300 ==> responded is Snapshot,
        cleanup.session_id is None || status < 200 || status >= 300 ==> responded is PassResponse,
        failure is None ==> snapshot is Release && released is PassResponse,
        failure matches Some(f) ==> snapshot is GiveBackLease && snapshot->GiveBackLease_0.status
            == 500 && snapshot->GiveBackLease_0.body@ == f.code@ + ": "@ + f.detail@ && released
            is Answer && released->Answer_0.status == 500 && released->Answer_0.body@ == f.code@
            + ": "@ + f.detail@,
{
}

/// The endpoint is `/mcp` and what lies below it. A message opens a session where its method is
/// `initialize`; without a session it is refused exactly where it was read and does not.
pub proof fn law_sessions_are_opened_at_the_endpoint(
    path: &str,
    method: Option<&str>,
    value: &serde_json::Value,
    parsed: Option<bool>,
    at_endpoint: bool,
    opening: bool,
    opens: bool,
    r: Admission,
)
    requires
        call_ensures(is_mcp_endpoint, (path,), at_endpoint),
        call_ensures(opening_method, (method,), opening),
        call_ensures(jsonrpc_method_is_initialize, (value,), opens),
        call_ensures(admit_without_session, (parsed,), r),
    ensures
        at_endpoint <==> path@ == "/mcp"@ || "/mcp/"@.is_prefix_of(path@),
        opening <==> method is Some && method->Some_0@ == "initialize"@,
        opens <==> text_fields(*value).contains_key("method"@) && text_fields(*value)["method"@]
            == "initialize"@,
        r is Refuse <==> parsed == Some(false),
{
}

} // verus!
