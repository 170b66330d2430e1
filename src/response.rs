//! Telling a server status object from a typed object in a response body.
use vstd::prelude::*;
use vstd::string::StringExecFns;

use crate::error::ClientError;
use crate::text::same_text;

verus! {

/// The `kind` field of a JSON text: `None` where the text is not JSON, `Some(None)`
/// where it has no `kind` that is a string, else `Some(Some(kind))`.
pub uninterp spec fn json_kind_of(text: Seq<char>) -> Option<Option<Seq<char>>>;

/// The view of an optional text.
pub open spec fn opt_text(k: Option<String>) -> Option<Seq<char>> {
    match k {
        Some(s) => Some(s@),
        None => None,
    }
}

/// Relies on `serde_json::from_str` into a `serde_json::Value`, with `Value::get` and
/// `Value::as_str`: the `kind` field of a JSON text, where it is a string.
#[verifier::external_body]
fn json_kind(text: &str) -> (r: Result<Option<String>, serde_json::Error>)
    ensures
        match r {
            Ok(k) => json_kind_of(text@) == Some(opt_text(k)),
            Err(_) => json_kind_of(text@) is None,
        },
{
    serde_json::from_str::<serde_json::Value>(text).map(
        |v| v.get("kind").and_then(|k| k.as_str()).map(String::from),
    )
}

/// Which of the two disjoint shapes a body is to be decoded as.
#[derive(Clone, Copy, Debug, PartialEq, Eq, Structural)]
pub enum ResponseKind {
    /// An object of the type that the caller asked for.
    Object,
    /// A status object returned in place of a resource.
    Status,
}

/// The shape a `kind` field selects: a status object exactly for `Status`.
pub open spec fn spec_kind_of_field(kind: Option<Seq<char>>) -> ResponseKind {
    match kind {
        Some(k) => if k == "Status"@ {
            ResponseKind::Status
        } else {
            ResponseKind::Object
        },
        None => ResponseKind::Object,
    }
}

/// The shape to decode the body `text` as, given what reading its `kind` field gave.
pub fn kind_from_field(text: &str, field: Result<Option<String>, serde_json::Error>) -> (r: Result<
    ResponseKind,
    ClientError,
>)
    ensures
        match field {
            Ok(k) => r == Ok::<ResponseKind, ClientError>(spec_kind_of_field(opt_text(k))),
            Err(e) => r matches Err(ClientError::SerdeError { error, text: t }) && error == e && t@
                == text@,
        },
{
    proof {
        reveal_strlit("Status");
    }
    match field {
        Ok(Some(k)) => if same_text(k.as_str(), "Status") {
            Ok(ResponseKind::Status)
        } else {
            Ok(ResponseKind::Object)
        },
        Ok(None) => Ok(ResponseKind::Object),
        Err(e) => Err(ClientError::SerdeError { error: e, text: String::from_str(text) }),
    }
}

/// The shape to decode a body as: a status object exactly when its `kind` is `Status`;
/// a body that is not JSON is a decode error carrying the body.
pub fn response_kind(text: &str) -> (r: Result<ResponseKind, ClientError>)
    ensures
        match json_kind_of(text@) {
            Some(k) => r == Ok::<ResponseKind, ClientError>(spec_kind_of_field(k)),
            None => r matches Err(ClientError::SerdeError { text: t, .. }) && t@ == text@,
        },
{
    kind_from_field(text, json_kind(text))
}

} // verus!
