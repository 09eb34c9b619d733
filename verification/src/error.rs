//! The error that a tool call reports to its client.

use vstd::prelude::*;

verus! {

/// Error codes of the tool surface.
pub const A11Y_CDP_UNREACHABLE: &'static str = "A11Y_CDP_UNREACHABLE";

pub const CAPTURE_TARGET_INVALID: &'static str = "CAPTURE_TARGET_INVALID";

pub const HTTP_SESSION_INVALID: &'static str = "HTTP_SESSION_INVALID";

pub const OBSERVE_INTERNAL: &'static str = "OBSERVE_INTERNAL";

pub const OBSERVE_NO_PERCEPTION_AVAILABLE: &'static str = "OBSERVE_NO_PERCEPTION_AVAILABLE";

pub const OCR_BACKEND_UNAVAILABLE: &'static str = "OCR_BACKEND_UNAVAILABLE";

pub const OCR_NO_TEXT: &'static str = "OCR_NO_TEXT";

pub const STORAGE_CORRUPTED: &'static str = "STORAGE_CORRUPTED";

pub const STORAGE_READ_FAILED: &'static str = "STORAGE_READ_FAILED";

pub const STORAGE_WRITE_FAILED: &'static str = "STORAGE_WRITE_FAILED";

pub const TOOL_INTERNAL_ERROR: &'static str = "TOOL_INTERNAL_ERROR";

pub const TOOL_PARAMS_INVALID: &'static str = "TOOL_PARAMS_INVALID";

/// What a failed tool call reports: a stable code and a message for the reader.
#[derive(Debug, PartialEq, Eq)]
pub struct ToolError {
    pub code: String,
    pub message: String,
}

/// The code and the message of an error, as text.
#[verifier::ext_equal]
pub struct ErrorView {
    pub code: Seq<char>,
    pub message: Seq<char>,
}

impl View for ToolError {
    type V = ErrorView;

    open spec fn view(&self) -> ErrorView {
        ErrorView { code: self.code@, message: self.message@ }
    }
}

impl Clone for ToolError {
    fn clone(&self) -> (r: Self)
        ensures
            r == *self,
    {
        ToolError { code: self.code.clone(), message: self.message.clone() }
    }
}

/// The JSON-RPC code under which every tool error travels.
pub const JSON_RPC_CODE: i32 = -32099;

/// Builds a tool error.
pub fn mcp_error(code: &str, message: String) -> (r: ToolError)
    ensures
        r@ == (ErrorView { code: code@, message: message@ }),
        r.message == message,
{
    ToolError { code: code.to_owned(), message }
}

/// The error for parameters that a tool refuses.
pub open spec fn params_invalid(message: Seq<char>) -> ErrorView {
    ErrorView { code: TOOL_PARAMS_INVALID@, message }
}

/// The error for a broken internal expectation.
pub open spec fn internal_error(message: Seq<char>) -> ErrorView {
    ErrorView { code: TOOL_INTERNAL_ERROR@, message }
}

/// Reports refused parameters.
pub fn invalid(message: String) -> (r: ToolError)
    ensures
        r@ == params_invalid(message@),
{
    mcp_error(TOOL_PARAMS_INVALID, message)
}

/// Reports a broken internal expectation.
pub fn internal(message: String) -> (r: ToolError)
    ensures
        r@ == internal_error(message@),
{
    mcp_error(TOOL_INTERNAL_ERROR, message)
}

/// An error has the code and the message it is made with: refused parameters and broken expectations
/// each their own code.
pub proof fn law_errors_have_their_codes(
    code: &str,
    message: String,
    made: ToolError,
    refused: ToolError,
    broken: ToolError,
)
    requires
        call_ensures(mcp_error, (code, message), made),
        call_ensures(invalid, (message,), refused),
        call_ensures(internal, (message,), broken),
    ensures
        made.code@ == code@ && made.message@ == message@,
        refused.code@ == "TOOL_PARAMS_INVALID"@ && refused.message@ == message@,
        broken.code@ == "TOOL_INTERNAL_ERROR"@ && broken.message@ == message@,
{
}

} // verus!
