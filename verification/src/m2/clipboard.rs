//! The clipboard tool.
//!
//! A call reads, writes or clears the clipboard. It may ask that a change be seen afterwards; the
//! text is then read before and after, and a write or a clear without the change it promised fails.
//! What is reported of the texts that were seen are their signatures and lengths, never the texts.

use vstd::prelude::*;

use crate::error::{invalid, params_invalid, ToolError};
use crate::json::{json_int, json_text, json_u64, Json, JsonView, ObjectBuilder};
use crate::m2::action::{cap_ms, capped_ms, not_requested, postcondition_not_requested,
    ActPostcondition, ObservedDelta};
use crate::text::text_equal;

verus! {

/// The name of the tool.
pub const TOOL: &'static str = "act_clipboard";

/// Where the effect shows.
pub const SOURCE_OF_TRUTH: &'static str = "clipboard_text";

/// What to do with the clipboard.
#[derive(Clone, Copy, Debug, PartialEq, Eq, Structural)]
pub enum ActClipboardVerb {
    Read,
    Write,
    Clear,
}

/// The form of the text.
#[derive(Clone, Copy, Debug, PartialEq, Eq, Structural)]
pub enum ActClipboardFormat {
    Text,
    Unicode,
}

/// A call of the tool.
#[derive(Debug)]
pub struct ActClipboardParams {
    pub verb: ActClipboardVerb,
    pub text: Option<String>,
    pub format: ActClipboardFormat,
    pub verify_delta: bool,
    pub verify_timeout_ms: u32,
}

/// The answer to a call.
#[derive(Debug, PartialEq, Eq)]
pub struct ActClipboardResponse {
    pub ok: bool,
    pub verb: ActClipboardVerb,
    pub format: ActClipboardFormat,
    pub written: bool,
    pub cleared: bool,
    pub text: Option<String>,
    pub text_len: Option<usize>,
    pub elapsed_ms: u32,
    pub postcondition: ActPostcondition,
}

/// The form of the text where a call names none.
pub fn default_clipboard_format() -> (r: ActClipboardFormat)
    ensures
        r == ActClipboardFormat::Unicode,
{
    ActClipboardFormat::Unicode
}

impl ActClipboardFormat {
    /// The name of the form.
    pub open spec fn name(self) -> Seq<char> {
        match self {
            ActClipboardFormat::Text => "text"@,
            ActClipboardFormat::Unicode => "unicode"@,
        }
    }

    /// The name of the form.
    pub fn as_str(self) -> (r: &'static str)
        ensures
            r@ == self.name(),
    {
        match self {
            ActClipboardFormat::Text => "text",
            ActClipboardFormat::Unicode => "unicode",
        }
    }
}

impl ActClipboardVerb {
    /// The name of the verb.
    pub open spec fn name(self) -> Seq<char> {
        match self {
            ActClipboardVerb::Read => "read"@,
            ActClipboardVerb::Write => "write"@,
            ActClipboardVerb::Clear => "clear"@,
        }
    }

    /// The name of the verb.
    pub fn as_str(self) -> (r: &'static str)
        ensures
            r@ == self.name(),
    {
        match self {
            ActClipboardVerb::Read => "read",
            ActClipboardVerb::Write => "write",
            ActClipboardVerb::Clear => "clear",
        }
    }
}

// ---------------------------------------------------------------------------------------------
// Checking a call
// ---------------------------------------------------------------------------------------------

/// Why a call is refused, if it is: a write needs a text, and nothing else takes one.
pub open spec fn refusal(verb: ActClipboardVerb, has_text: bool) -> Option<Seq<char>> {
    if verb is Write && !has_text {
        Some("act_clipboard verb=write requires text"@)
    } else if !(verb is Write) && has_text {
        Some("act_clipboard text is only valid with verb=write"@)
    } else {
        None
    }
}

/// Checks a call.
pub fn validate_params(params: &ActClipboardParams) -> (r: Result<(), ToolError>)
    ensures
        match refusal(params.verb, params.text is Some) {
            None => r is Ok,
            Some(message) => r matches Err(e) && e@ == params_invalid(message),
        },
{
    match params.verb {
        ActClipboardVerb::Write => {
            if params.text.is_none() {
                return Err(invalid("act_clipboard verb=write requires text".to_owned()));
            }
        },
        _ => {
            if params.text.is_some() {
                return Err(
                    invalid("act_clipboard text is only valid with verb=write".to_owned()),
                );
            }
        },
    }
    Ok(())
}

/// What a call does.
#[derive(Clone, Copy, Debug, PartialEq, Eq, Structural)]
pub struct ClipboardPlan {
    /// Whether the text is read before, and again some time after.
    pub verify: bool,
    pub verb: ActClipboardVerb,
    pub format: ActClipboardFormat,
    pub verify_timeout_ms: u32,
}

/// Decides what a call does.
pub fn plan_clipboard(params: &ActClipboardParams) -> (r: Result<ClipboardPlan, ToolError>)
    ensures
        match refusal(params.verb, params.text is Some) {
            Some(message) => r matches Err(e) && e@ == params_invalid(message),
            None => r == Ok::<ClipboardPlan, ToolError>(
                ClipboardPlan {
                    verify: verifies(*params),
                    verb: params.verb,
                    format: params.format,
                    verify_timeout_ms: params.verify_timeout_ms,
                },
            ),
        },
{
    if let Err(e) = validate_params(params) {
        return Err(e);
    }
    Ok(
        ClipboardPlan {
            verify: params.verify_delta && params.verb != ActClipboardVerb::Read,
            verb: params.verb,
            format: params.format,
            verify_timeout_ms: params.verify_timeout_ms,
        },
    )
}

/// Whether a call looks for a change.
pub open spec fn verifies(params: ActClipboardParams) -> bool {
    params.verify_delta && !(params.verb is Read)
}

// ---------------------------------------------------------------------------------------------
// Looking for a change
// ---------------------------------------------------------------------------------------------

/// A text that was seen on the clipboard, and the signature under which it may be reported.
#[derive(Debug, PartialEq, Eq)]
pub struct ClipboardReading {
    pub text: String,
    pub signature: String,
}

/// Why a call that looked for a change failed. `before` and `after` are the signatures of the texts.
#[derive(Debug, PartialEq, Eq)]
pub enum ClipboardDeltaError {
    /// There was none.
    NoObservedDelta { timeout_ms: u32, before: String, after: String, details: Json },
    /// It was not the one that was asked for.
    PostconditionFailed { reason: String, before: String, after: String, details: Json },
}

/// What is reported where there was no change.
pub open spec fn no_delta_details(
    params: ActClipboardParams,
    before: Seq<char>,
    after: Seq<char>,
) -> JsonView {
    JsonView::Object(
        seq![
            ("after_len"@, json_int(after.len() as int)),
            ("before_len"@, json_int(before.len() as int)),
            ("format"@, JsonView::Text(params.format.name())),
            ("verb"@, JsonView::Text(params.verb.name())),
        ],
    )
}

/// What is reported where a write left another text.
pub open spec fn write_details(params: ActClipboardParams, after: Seq<char>) -> JsonView {
    JsonView::Object(
        seq![
            ("after_len"@, json_int(after.len() as int)),
            (
                "expected_len"@,
                match params.text {
                    Some(text) => json_int(text@.len() as int),
                    None => JsonView::Null,
                },
            ),
            ("format"@, JsonView::Text(params.format.name())),
            ("verb"@, JsonView::Text(params.verb.name())),
        ],
    )
}

/// What is reported where a clear left a text.
pub open spec fn clear_details(params: ActClipboardParams, after: Seq<char>) -> JsonView {
    JsonView::Object(
        seq![
            ("after_len"@, json_int(after.len() as int)),
            ("format"@, JsonView::Text(params.format.name())),
            ("verb"@, JsonView::Text(params.verb.name())),
        ],
    )
}

/// What is wrong with a change.
pub enum DeltaFault {
    Sound,
    Unchanged,
    NotWritten,
    NotCleared,
}

/// The text that a call wants on the clipboard.
pub open spec fn wanted_text(params: ActClipboardParams) -> Seq<char> {
    match params.text {
        Some(text) => text@,
        None => Seq::empty(),
    }
}

/// What is wrong with a change: nothing changed, a write left another text, or a clear left one.
pub open spec fn delta_fault(
    params: ActClipboardParams,
    before: Seq<char>,
    after: Seq<char>,
) -> DeltaFault {
    if before == after {
        DeltaFault::Unchanged
    } else if params.verb is Write && after != wanted_text(params) {
        DeltaFault::NotWritten
    } else if params.verb is Clear && after.len() > 0 {
        DeltaFault::NotCleared
    } else {
        DeltaFault::Sound
    }
}

/// The error that says what is wrong with a change. It shows the signatures of the texts.
pub open spec fn is_delta_error(
    e: ClipboardDeltaError,
    params: ActClipboardParams,
    before: ClipboardReading,
    after: ClipboardReading,
) -> bool {
    match delta_fault(params, before.text@, after.text@) {
        DeltaFault::Sound => false,
        DeltaFault::Unchanged => e matches ClipboardDeltaError::NoObservedDelta {
            timeout_ms,
            before: b,
            after: a,
            details,
        } && timeout_ms == params.verify_timeout_ms && b@ == before.signature@ && a@
            == after.signature@ && details@ == no_delta_details(params, before.text@, after.text@),
        DeltaFault::NotWritten => e matches ClipboardDeltaError::PostconditionFailed {
            reason,
            before: b,
            after: a,
            details,
        } && reason@ == "clipboard text changed but did not equal requested write text"@ && b@
            == before.signature@ && a@ == after.signature@ && details@ == write_details(
            params,
            after.text@,
        ),
        DeltaFault::NotCleared => e matches ClipboardDeltaError::PostconditionFailed {
            reason,
            before: b,
            after: a,
            details,
        } && reason@ == "clipboard text changed but was not empty after clear"@ && b@
            == before.signature@ && a@ == after.signature@ && details@ == clear_details(
            params,
            after.text@,
        ),
    }
}

/// The effect was seen. It shows the signatures of the texts.
pub open spec fn observed(
    p: ActPostcondition,
    before: ClipboardReading,
    after: ClipboardReading,
) -> bool {
    &&& p.tool@ == TOOL@
    &&& p.source_of_truth@ == SOURCE_OF_TRUTH@
    &&& p.delta matches Some(delta)
    &&& delta.before@ == before.signature@
    &&& delta.after@ == after.signature@
    &&& delta.detail@ == "observed clipboard text Source-of-Truth change"@
}

/// Looks for the change that a call promised.
pub fn verify_clipboard_delta(
    response: ActClipboardResponse,
    params: &ActClipboardParams,
    before: ClipboardReading,
    after: ClipboardReading,
) -> (r: Result<ActClipboardResponse, ClipboardDeltaError>)
    ensures
        match r {
            Ok(verified) => {
                &&& delta_fault(*params, before.text@, after.text@) is Sound
                &&& observed(verified.postcondition, before, after)
                &&& verified == (ActClipboardResponse {
                    postcondition: verified.postcondition,
                    ..response
                })
            },
            Err(e) => is_delta_error(e, *params, before, after),
        },
{
    let after_len: u64 = after.text.as_str().unicode_len() as u64;
    if text_equal(before.text.as_str(), after.text.as_str()) {
        let before_len: u64 = before.text.as_str().unicode_len() as u64;
        let details = ObjectBuilder::new().with("after_len", json_u64(after_len)).with(
            "before_len",
            json_u64(before_len),
        ).with("format", json_text(params.format.as_str())).with(
            "verb",
            json_text(params.verb.as_str()),
        ).build();
        assert(details@->Object_0 =~= no_delta_details(*params, before.text@, after.text@)->Object_0);
        return Err(
            ClipboardDeltaError::NoObservedDelta {
                timeout_ms: params.verify_timeout_ms,
                before: before.signature,
                after: after.signature,
                details,
            },
        );
    }
    if params.verb == ActClipboardVerb::Write {
        let matches_text: bool = match &params.text {
            Some(text) => text_equal(after.text.as_str(), text.as_str()),
            None => after_len == 0,
        };
        assert(after.text@.len() == 0 ==> after.text@ =~= Seq::<char>::empty());
        if !matches_text {
            let expected_len: Json = match &params.text {
                Some(text) => json_u64(text.as_str().unicode_len() as u64),
                None => Json::Null,
            };
            let details = ObjectBuilder::new().with("after_len", json_u64(after_len)).with(
                "expected_len",
                expected_len,
            ).with("format", json_text(params.format.as_str())).with(
                "verb",
                json_text(params.verb.as_str()),
            ).build();
            assert(details@->Object_0 =~= write_details(*params, after.text@)->Object_0);
            return Err(
                ClipboardDeltaError::PostconditionFailed {
                    reason: "clipboard text changed but did not equal requested write text".to_owned(),
                    before: before.signature,
                    after: after.signature,
                    details,
                },
            );
        }
    }
    if params.verb == ActClipboardVerb::Clear && after_len > 0 {
        let details = ObjectBuilder::new().with("after_len", json_u64(after_len)).with(
            "format",
            json_text(params.format.as_str()),
        ).with("verb", json_text(params.verb.as_str())).build();
        assert(details@->Object_0 =~= clear_details(*params, after.text@)->Object_0);
        return Err(
            ClipboardDeltaError::PostconditionFailed {
                reason: "clipboard text changed but was not empty after clear".to_owned(),
                before: before.signature,
                after: after.signature,
                details,
            },
        );
    }
    let mut verified = response;
    verified.postcondition = ActPostcondition {
        tool: TOOL.to_owned(),
        source_of_truth: SOURCE_OF_TRUTH.to_owned(),
        delta: Some(
            ObservedDelta {
                before: before.signature,
                after: after.signature,
                detail: "observed clipboard text Source-of-Truth change".to_owned(),
            },
        ),
    };
    Ok(verified)
}

// ---------------------------------------------------------------------------------------------
// A whole call
// ---------------------------------------------------------------------------------------------

/// Why a call failed.
#[derive(Debug, PartialEq, Eq)]
pub enum ClipboardError {
    /// The call was refused, or an action on the clipboard failed.
    Tool(ToolError),
    /// The change that was promised was not seen.
    Delta(ClipboardDeltaError),
}

/// The answer once the clipboard has been acted on, with the text where it was read.
pub open spec fn is_done(
    response: ActClipboardResponse,
    params: ActClipboardParams,
    read: String,
    elapsed_ms: u128,
) -> bool {
    &&& response.ok
    &&& response.verb == params.verb
    &&& response.format == params.format
    &&& response.written == (params.verb is Write)
    &&& response.cleared == (params.verb is Clear)
    &&& response.text == (if params.verb is Read {
        Some(read)
    } else {
        None
    })
    &&& match params.verb {
        ActClipboardVerb::Read => response.text_len is Some && response.text_len->Some_0
            == read@.len(),
        ActClipboardVerb::Write => response.text_len is Some && response.text_len->Some_0
            == wanted_text(params).len(),
        ActClipboardVerb::Clear => response.text_len is None,
    }
    &&& response.elapsed_ms == capped_ms(elapsed_ms)
}

/// Answers a call. `before` is what was seen before, `performed` what acting on the clipboard gave: the
/// text where it is read, and `after` what was seen some time after. The first of these that failed
/// fails the call; `before` and `after` count only where a change is looked for.
pub fn act_clipboard(
    params: &ActClipboardParams,
    before: Result<ClipboardReading, ToolError>,
    performed: Result<String, ToolError>,
    after: Result<ClipboardReading, ToolError>,
    elapsed_ms: u128,
) -> (r: Result<ActClipboardResponse, ClipboardError>)
    ensures
        match refusal(params.verb, params.text is Some) {
            Some(message) => r matches Err(ClipboardError::Tool(e)) && e@ == params_invalid(
                message,
            ),
            None => if verifies(*params) && before is Err {
                r == Err::<ActClipboardResponse, ClipboardError>(
                    ClipboardError::Tool(before->Err_0),
                )
            } else if performed is Err {
                r == Err::<ActClipboardResponse, ClipboardError>(
                    ClipboardError::Tool(performed->Err_0),
                )
            } else if !verifies(*params) {
                &&& r matches Ok(response)
                &&& is_done(response, *params, performed->Ok_0, elapsed_ms)
                &&& not_requested(response.postcondition, TOOL@, SOURCE_OF_TRUTH@)
            } else if after is Err {
                r == Err::<ActClipboardResponse, ClipboardError>(
                    ClipboardError::Tool(after->Err_0),
                )
            } else if delta_fault(
                *params,
                (before->Ok_0).text@,
                (after->Ok_0).text@,
            ) is Sound {
                &&& r matches Ok(response)
                &&& is_done(response, *params, performed->Ok_0, elapsed_ms)
                &&& observed(response.postcondition, before->Ok_0, after->Ok_0)
            } else {
                &&& r matches Err(ClipboardError::Delta(e))
                &&& is_delta_error(e, *params, before->Ok_0, after->Ok_0)
            },
        },
{
    let plan: ClipboardPlan = match plan_clipboard(params) {
        Ok(plan) => plan,
        Err(e) => {
            return Err(ClipboardError::Tool(e));
        },
    };
    let seen_before: Option<ClipboardReading> = if plan.verify {
        match before {
            Ok(reading) => Some(reading),
            Err(e) => {
                return Err(ClipboardError::Tool(e));
            },
        }
    } else {
        None
    };
    let read: String = match performed {
        Ok(text) => text,
        Err(e) => {
            return Err(ClipboardError::Tool(e));
        },
    };
    let text_len: Option<usize> = match params.verb {
        ActClipboardVerb::Read => Some(read.as_str().unicode_len()),
        ActClipboardVerb::Write => match &params.text {
            Some(text) => Some(text.as_str().unicode_len()),
            None => Some(0),
        },
        ActClipboardVerb::Clear => None,
    };
    let response = ActClipboardResponse {
        ok: true,
        verb: params.verb,
        format: params.format,
        written: params.verb == ActClipboardVerb::Write,
        cleared: params.verb == ActClipboardVerb::Clear,
        text: if params.verb == ActClipboardVerb::Read {
            Some(read)
        } else {
            None
        },
        text_len,
        elapsed_ms: cap_ms(elapsed_ms),
        postcondition: postcondition_not_requested(TOOL, SOURCE_OF_TRUTH),
    };
    match seen_before {
        None => Ok(response),
        Some(seen_before) => {
            let seen_after: ClipboardReading = match after {
                Ok(reading) => reading,
                Err(e) => {
                    return Err(ClipboardError::Tool(e));
                },
            };
            match verify_clipboard_delta(response, params, seen_before, seen_after) {
                Ok(verified) => Ok(verified),
                Err(e) => Err(ClipboardError::Delta(e)),
            }
        },
    }
}

// ---------------------------------------------------------------------------------------------
// Laws
// ---------------------------------------------------------------------------------------------

/// A write or clear that is seen to have worked left exactly what was asked for on the clipboard,
/// and something else was there before.
pub proof fn law_verified_change_is_the_one_asked_for(
    params: ActClipboardParams,
    before: Seq<char>,
    after: Seq<char>,
)
    requires
        delta_fault(params, before, after) is Sound,
    ensures
        before != after,
        params.verb is Write ==> after == wanted_text(params),
        params.verb is Clear ==> after == Seq::<char>::empty(),
{
    if params.verb is Clear {
        assert(after =~= Seq::empty());
    }
}

/// A text is taken exactly by a write: whatever its characters are, they are left to the clipboard.
pub proof fn law_only_writes_take_a_text(verb: ActClipboardVerb, has_text: bool)
    ensures
        refusal(verb, has_text) is None <==> (verb is Write) == has_text,
{
}

/// A call is sound exactly if it brings a text where it writes, and none where it does not; it is then
/// planned with its own verb, format and time, and is observed where that was asked for and anything
/// is to change.
pub proof fn law_calls_are_planned_as_asked(
    params: &ActClipboardParams,
    valid: Result<(), ToolError>,
    r: Result<ClipboardPlan, ToolError>,
)
    requires
        call_ensures(validate_params, (params,), valid),
        call_ensures(plan_clipboard, (params,), r),
    ensures
        valid is Ok <==> (params.verb is Write <==> params.text is Some),
        r is Ok <==> valid is Ok,
        r is Ok ==> {
            &&& (r->Ok_0).verb == params.verb
            &&& (r->Ok_0).format == params.format
            &&& (r->Ok_0).verify_timeout_ms == params.verify_timeout_ms
            &&& ((r->Ok_0).verify <==> params.verify_delta && (params.verb is Write || params.verb
                is Clear))
        },
{
}

/// An observed change is accepted exactly if the clipboard then holds what was to be written, or nothing
/// where it was to be cleared, and held something else before. The response is otherwise as it was,
/// and tells both readings.
pub proof fn law_changes_are_observed(
    response: ActClipboardResponse,
    params: &ActClipboardParams,
    before: ClipboardReading,
    after: ClipboardReading,
    r: Result<ActClipboardResponse, ClipboardDeltaError>,
)
    requires
        call_ensures(verify_clipboard_delta, (response, params, before, after), r),
        params.verb is Write ==> params.text is Some,
    ensures
        params.verb is Write ==> (r is Ok <==> after.text@ == params.text->Some_0@ && before.text@
            != after.text@),
        params.verb is Clear ==> (r is Ok <==> after.text@.len() == 0 && before.text@.len() > 0),
        params.verb is Read ==> (r is Ok <==> before.text@ != after.text@),
        r is Err ==> (r->Err_0 is NoObservedDelta <==> before.text@ == after.text@),
        r matches Err(ClipboardDeltaError::NoObservedDelta { timeout_ms, before: b, after: a, details })
            ==> timeout_ms == params.verify_timeout_ms && b@ == before.signature@ && a@
            == after.signature@,
        r matches Err(ClipboardDeltaError::PostconditionFailed { reason, before: b, after: a, details })
            ==> b@ == before.signature@ && a@ == after.signature@,
        r is Ok ==> {
            &&& (r->Ok_0).postcondition.delta is Some
            &&& (r->Ok_0).postcondition.delta->Some_0.before@ == before.signature@
            &&& (r->Ok_0).postcondition.delta->Some_0.after@ == after.signature@
            &&& (r->Ok_0).ok == response.ok
            &&& (r->Ok_0).verb == response.verb
            &&& (r->Ok_0).format == response.format
            &&& (r->Ok_0).written == response.written
            &&& (r->Ok_0).cleared == response.cleared
            &&& (r->Ok_0).text == response.text
            &&& (r->Ok_0).text_len == response.text_len
            &&& (r->Ok_0).elapsed_ms == response.elapsed_ms
        },
{
    if before.text@.len() == 0 && after.text@.len() == 0 {
        assert(before.text@ =~= after.text@);
    }
}

/// A call that succeeds tells what it did: a read hands out the text that was read, a write and a clear
/// hand out none; the length is that of the text in question.
pub proof fn law_calls_tell_what_they_did(
    params: &ActClipboardParams,
    before: Result<ClipboardReading, ToolError>,
    performed: Result<String, ToolError>,
    after: Result<ClipboardReading, ToolError>,
    elapsed_ms: u128,
    r: Result<ActClipboardResponse, ClipboardError>,
)
    requires
        call_ensures(act_clipboard, (params, before, performed, after, elapsed_ms), r),
        r is Ok,
    ensures
        performed is Ok,
        params.verb is Write <==> params.text is Some,
        (r->Ok_0).ok,
        (r->Ok_0).verb == params.verb,
        (r->Ok_0).format == params.format,
        (r->Ok_0).written <==> params.verb is Write,
        (r->Ok_0).cleared <==> params.verb is Clear,
        params.verb is Read ==> (r->Ok_0).text == Some(performed->Ok_0) && (r->Ok_0).text_len
            is Some && (r->Ok_0).text_len->Some_0 == performed->Ok_0@.len(),
        params.verb is Write ==> (r->Ok_0).text is None && (r->Ok_0).text_len is Some && (
        r->Ok_0).text_len->Some_0 == params.text->Some_0@.len(),
        params.verb is Clear ==> (r->Ok_0).text is None && (r->Ok_0).text_len is None,
        elapsed_ms <= 0xffff_ffff ==> (r->Ok_0).elapsed_ms == elapsed_ms,
        (r->Ok_0).postcondition.delta is Some <==> params.verify_delta && params.verb !is Read,
        params.verify_delta && params.verb is Write ==> after is Ok && (after->Ok_0).text@
            == params.text->Some_0@ && before is Ok && (before->Ok_0).text@ != (after->Ok_0).text@,
        params.verify_delta && params.verb is Clear ==> after is Ok && (after->Ok_0).text@.len()
            == 0,
{
}

/// A call fails for a reason: it is unsound, or the clipboard could not be read before or after where
/// that was asked for, or what was to be done was not, or the change that was promised was not seen.
pub proof fn law_calls_fail_for_a_reason(
    params: &ActClipboardParams,
    before: Result<ClipboardReading, ToolError>,
    performed: Result<String, ToolError>,
    after: Result<ClipboardReading, ToolError>,
    elapsed_ms: u128,
    r: Result<ActClipboardResponse, ClipboardError>,
)
    requires
        call_ensures(act_clipboard, (params, before, performed, after, elapsed_ms), r),
    ensures
        (params.verb is Write) != (params.text is Some) ==> r is Err && r->Err_0 is Tool,
        (params.verb is Write <==> params.text is Some) && (!params.verify_delta || params.verb
            is Read) ==> (r is Ok <==> performed is Ok),
        (params.verb is Write <==> params.text is Some) && params.verify_delta && params.verb
            !is Read && before is Err ==> r == Err::<ActClipboardResponse, ClipboardError>(
            ClipboardError::Tool(before->Err_0),
        ),
        (params.verb is Write <==> params.text is Some) && (!params.verify_delta || params.verb
            is Read || before is Ok) && performed is Err ==> r == Err::<
            ActClipboardResponse,
            ClipboardError,
        >(ClipboardError::Tool(performed->Err_0)),
        params.verb is Write && params.text is Some && params.verify_delta && before is Ok
            && performed is Ok && after is Ok ==> (r is Ok <==> (after->Ok_0).text@
            == params.text->Some_0@ && (before->Ok_0).text@ != (after->Ok_0).text@),
        params.verb is Clear && params.text is None && params.verify_delta && before is Ok
            && performed is Ok && after is Ok ==> (r is Ok <==> (after->Ok_0).text@.len() == 0 && (
        before->Ok_0).text@.len() > 0),
        params.verb !is Read && params.verify_delta && (params.verb is Write <==> params.text
            is Some) && before is Ok && performed is Ok && after is Err ==> r == Err::<
            ActClipboardResponse,
            ClipboardError,
        >(ClipboardError::Tool(after->Err_0)),
{
    if before is Ok && after is Ok && (before->Ok_0).text@.len() == 0 && (after->Ok_0).text@.len()
        == 0 {
        assert((before->Ok_0).text@ =~= (after->Ok_0).text@);
    }
}

/// Text is taken as Unicode where nothing else is said, and verbs and formats are named as they are
/// asked for.
pub proof fn law_clipboard_names(
    verb: ActClipboardVerb,
    format: ActClipboardFormat,
    verb_name: &'static str,
    format_name: &'static str,
    default: ActClipboardFormat,
)
    requires
        call_ensures(ActClipboardVerb::as_str, (verb,), verb_name),
        call_ensures(ActClipboardFormat::as_str, (format,), format_name),
        call_ensures(default_clipboard_format, (), default),
    ensures
        verb is Read ==> verb_name@ == "read"@,
        verb is Write ==> verb_name@ == "write"@,
        verb is Clear ==> verb_name@ == "clear"@,
        format is Text ==> format_name@ == "text"@,
        format is Unicode ==> format_name@ == "unicode"@,
        default is Unicode,
{
}

} // verus!
