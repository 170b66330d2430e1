//! The client handle: a cheaply duplicated handle on a shared dispatch service,
//! with the namespace it defaults to and an optional expiry.
use vstd::prelude::*;
use vstd::string::StringExecFns;

use crate::error::ClientError;

verus! {

/// How many submissions the dispatch mailbox holds before callers wait for room.
pub const MAILBOX_CAPACITY: usize = 1024;

/// An instant, as whole seconds since the Unix epoch and the nanoseconds past them;
/// nanoseconds of a second or more mark a leap second.
#[derive(Clone, Copy, Debug, PartialEq, Eq, Structural)]
pub struct Timestamp {
    pub seconds: i64,
    pub nanos: u32,
}

impl Timestamp {
    /// The nanoseconds stay below two seconds, the second one being a leap second.
    pub open spec fn wf(self) -> bool {
        self.nanos < 2_000_000_000
    }

    /// The instant `seconds` and `nanos` name, where `nanos` is below two seconds.
    pub fn new(seconds: i64, nanos: u32) -> (r: Option<Timestamp>)
        ensures
            r is Some <==> nanos < 2_000_000_000,
            r matches Some(t) ==> t.wf() && t.seconds == seconds && t.nanos == nanos,
    {
        if nanos < 2_000_000_000 {
            Some(Timestamp { seconds, nanos })
        } else {
            None
        }
    }
}

/// A handle on a dispatch service `S`.
#[derive(Clone)]
pub struct Client<S> {
    inner: S,
    default_ns: String,
    valid_until: Option<Timestamp>,
}

impl<S> Client<S> {
    /// The dispatch service that the handle submits to.
    pub closed spec fn spec_service(&self) -> S {
        self.inner
    }

    /// The namespace that requests default to.
    pub closed spec fn spec_default_namespace(&self) -> Seq<char> {
        self.default_ns@
    }

    /// The instant after which the handle should no longer be used, if one was set.
    pub closed spec fn spec_valid_until(&self) -> Option<Timestamp> {
        self.valid_until
    }

    /// A handle on `service` whose requests default to `default_namespace`, with no expiry.
    pub fn new(service: S, default_namespace: &str) -> (r: Self)
        ensures
            r.spec_service() == service,
            r.spec_default_namespace() == default_namespace@,
            r.spec_valid_until() is None,
    {
        Client { inner: service, default_ns: String::from_str(default_namespace), valid_until: None }
    }

    /// The same handle with its expiry set to `valid_until`.
    pub fn with_valid_until(self, valid_until: Option<Timestamp>) -> (r: Self)
        requires
            valid_until matches Some(t) ==> t.wf(),
        ensures
            r.spec_service() == self.spec_service(),
            r.spec_default_namespace() == self.spec_default_namespace(),
            r.spec_valid_until() == valid_until,
    {
        Client { valid_until, ..self }
    }

    /// The expiry of the handle, if one was set. Nothing here enforces it.
    pub fn valid_until(&self) -> (r: &Option<Timestamp>)
        ensures
            *r == self.spec_valid_until(),
    {
        &self.valid_until
    }

    /// The namespace that requests default to.
    pub fn default_namespace(&self) -> (r: &str)
        ensures
            r@ == self.spec_default_namespace(),
    {
        self.default_ns.as_str()
    }

    /// The dispatch service that the handle submits to.
    pub fn service(&self) -> (r: &S)
        ensures
            *r == self.spec_service(),
    {
        &self.inner
    }
}

/// The error that a failed submission reports: the structured error that a layer of
/// the service raised, if any; else the transport's failure, if the failure came from
/// the transport; else a failure of the service stack described by `message`.
pub fn classify_send_failure(
    structured: Option<ClientError>,
    transport: Option<String>,
    message: String,
) -> (r: ClientError)
    ensures
        match structured {
            Some(e) => r == e,
            None => match transport {
                Some(t) => r == ClientError::HyperError(t),
                None => r == ClientError::Service(message),
            },
        },
{
    match structured {
        Some(e) => e,
        None => match transport {
            Some(t) => ClientError::HyperError(t),
            None => ClientError::Service(message),
        },
    }
}

} // verus!
