//! Classification of HTTP status codes.
use vstd::prelude::*;

verus! {

/// The code lies in the client-error class (4xx).
pub open spec fn spec_is_client_error(code: u16) -> bool {
    400 <= code && code <= 499
}

/// The code lies in the server-error class (5xx).
pub open spec fn spec_is_server_error(code: u16) -> bool {
    500 <= code && code <= 599
}

/// The code denotes a failure reported by the server.
pub open spec fn spec_is_error_status(code: u16) -> bool {
    spec_is_client_error(code) || spec_is_server_error(code)
}

/// Whether `code` is a 4xx status.
pub fn is_client_error(code: u16) -> (r: bool)
    ensures
        r == spec_is_client_error(code),
{
    400 <= code && code <= 499
}

/// Whether `code` is a 5xx status.
pub fn is_server_error(code: u16) -> (r: bool)
    ensures
        r == spec_is_server_error(code),
{
    500 <= code && code <= 599
}

/// Whether a response with this status must go through API-error extraction.
pub fn is_error_status(code: u16) -> (r: bool)
    ensures
        r == spec_is_error_status(code),
{
    is_client_error(code) || is_server_error(code)
}

} // verus!
