//! Extraction of API errors from failed responses.
use vstd::prelude::*;

use crate::error::{ClientError, ErrorResponse};
use crate::status::{is_error_status, spec_is_error_status};

verus! {

/// The reason given to an error response whose body could not be read as one.
pub open spec fn parse_failure_reason() -> Seq<char> {
    "Failed to parse error data"@
}

/// The status line `http` prints for a code: the code, a space and its reason phrase.
pub uninterp spec fn status_line_of(code: u16) -> Seq<char>;

/// The `Debug` rendering of a string: quoted, with special characters escaped.
pub uninterp spec fn debug_text_of(s: Seq<char>) -> Seq<char>;

/// What bytes decode to as UTF-8, or `None` where they are not valid UTF-8.
pub uninterp spec fn utf8_decoding(b: Seq<u8>) -> Option<Seq<char>>;

/// Relies on `http::StatusCode::from_u16` and its `Display`: the status line of a code.
#[verifier::external_body]
fn status_line(code: u16) -> (r: String)
    requires
        100 <= code <= 999,
    ensures
        r@ == status_line_of(code),
{
    match http::StatusCode::from_u16(code) {
        Ok(status) => status.to_string(),
        Err(_) => String::new(),
    }
}

/// Relies on the `Debug` formatting of `str`: the quoted, escaped form of a text.
#[verifier::external_body]
fn debug_text(text: &str) -> (r: String)
    ensures
        r@ == debug_text_of(text@),
{
    format!("{text:?}")
}

/// Relies on `String::from_utf8`: the text that bytes hold, when they are UTF-8.
#[verifier::external_body]
fn utf8_text(bytes: Vec<u8>) -> (r: Option<String>)
    ensures
        match r {
            Some(s) => utf8_decoding(bytes@) == Some(s@),
            None => utf8_decoding(bytes@) is None,
        },
{
    String::from_utf8(bytes).ok()
}

/// The error response that a failed response stands for, given what its body parsed to.
pub open spec fn spec_error_response(
    code: u16,
    parsed: Option<ErrorResponse>,
    status_line: Seq<char>,
    quoted_body: Seq<char>,
    r: ErrorResponse,
) -> bool {
    match parsed {
        Some(e) => r == e,
        None => r.status@ == status_line && r.code == code && r.message@ == quoted_body
            && r.reason@ == parse_failure_reason(),
    }
}

/// Builds the error response of a failed response: the one its body held, or else
/// one made of the status line and the body text.
pub fn error_from_parts(
    code: u16,
    parsed: Option<ErrorResponse>,
    status_line: String,
    quoted_body: String,
) -> (r: ErrorResponse)
    ensures
        spec_error_response(code, parsed, status_line@, quoted_body@, r),
{
    match parsed {
        Some(e) => e,
        None => ErrorResponse {
            status: status_line,
            code,
            message: quoted_body,
            reason: String::from_str("Failed to parse error data"),
        },
    }
}

/// The error response of a failed response with status `code` and body `body_text`,
/// where `parsed` is what that body parsed to as an error response, if anything.
pub fn api_error(code: u16, body_text: &str, parsed: Option<ErrorResponse>) -> (r: ErrorResponse)
    requires
        100 <= code <= 999,
    ensures
        spec_error_response(code, parsed, status_line_of(code), debug_text_of(body_text@), r),
{
    let line = status_line(code);
    let quoted = debug_text(body_text);
    error_from_parts(code, parsed, line, quoted)
}

/// Decodes a collected body as UTF-8 text.
pub fn body_text(bytes: Vec<u8>) -> (r: Result<String, ClientError>)
    ensures
        match r {
            Ok(s) => utf8_decoding(bytes@) == Some(s@),
            Err(e) => utf8_decoding(bytes@) is None && e is FromUtf8,
        },
{
    match utf8_text(bytes) {
        Some(s) => Ok(s),
        None => Err(ClientError::FromUtf8),
    }
}

/// Lets a response with a success status through, and turns one with a 4xx or 5xx
/// status into an API error.
pub fn handle_api_errors(code: u16, body_text: &str, parsed: Option<ErrorResponse>) -> (r: Result<
    (),
    ClientError,
>)
    requires
        100 <= code <= 999,
    ensures
        r is Ok <==> !spec_is_error_status(code),
        match r {
            Err(ClientError::Api(e)) => spec_error_response(
                code,
                parsed,
                status_line_of(code),
                debug_text_of(body_text@),
                e,
            ),
            Err(_) => false,
            Ok(_) => true,
        },
{
    if is_error_status(code) {
        Err(ClientError::Api(api_error(code, body_text, parsed)))
    } else {
        Ok(())
    }
}

/// The text of a collected response body: for a success status the body decoded as
/// UTF-8; for a 4xx or 5xx status the API error it stands for, where `parse_error`
/// reads a body as an error response. A body that is not UTF-8 fails either way.
pub fn response_text<F: Fn(&str) -> Option<ErrorResponse>>(
    code: u16,
    bytes: Vec<u8>,
    parse_error: F,
) -> (r: Result<String, ClientError>)
    requires
        100 <= code <= 999,
        forall|s: &str| #[trigger] parse_error.requires((s,)),
    ensures
        match utf8_decoding(bytes@) {
            None => r matches Err(ClientError::FromUtf8),
            Some(t) => if spec_is_error_status(code) {
                r matches Err(ClientError::Api(e)) && exists|s: &str, p: Option<ErrorResponse>|
                    s@ == t && #[trigger] parse_error.ensures((s,), p) && spec_error_response(
                        code,
                        p,
                        status_line_of(code),
                        debug_text_of(t),
                        e,
                    )
            } else {
                r matches Ok(s) && s@ == t
            },
        },
{
    let text = match body_text(bytes) {
        Ok(text) => text,
        Err(e) => return Err(e),
    };
    if is_error_status(code) {
        let view: &str = text.as_str();
        let parsed = parse_error(view);
        let e = api_error(code, view, parsed);
        assert(parse_error.ensures((view,), parsed));
        Err(ClientError::Api(e))
    } else {
        Ok(text)
    }
}

} // verus!
