//! The per-call request context: a correlation token threaded through the
//! orchestrator for observability.  It carries no business state and is
//! never persisted.

use vstd::prelude::*;

verus! {

/// Carries request-dependent data: the correlation token of one inbound
/// call.
pub struct Context {
    pub request_id: String,
}

/// Relies on `uuid::Uuid::new_v4` and its `Display` impl: a fresh random
/// identifier, rendered in the hyphenated form, which is 36 characters.
#[verifier::external_body]
fn fresh_request_id() -> (r: String)
    ensures
        r@.len() == 36,
{
    uuid::Uuid::new_v4().to_string()
}

impl Context {
    /// A context with a freshly generated correlation token.
    pub fn new() -> (r: Self)
        ensures
            r.request_id@.len() == 36,
    {
        Self { request_id: fresh_request_id() }
    }
}

/// The request context as carried by an inbound trigger.
pub struct ExtractContext(pub Context);

impl ExtractContext {
    /// The generation rule for the correlation token: when the inbound
    /// call supplied a valid identifier, reuse it; otherwise generate a
    /// fresh random one.
    pub fn from_request_id(supplied: Option<String>) -> (r: Self)
        ensures
            supplied matches Some(id) ==> r.0.request_id == id,
            supplied is None ==> r.0.request_id@.len() == 36,
    {
        match supplied {
            Some(id) => ExtractContext(Context { request_id: id }),
            None => ExtractContext(Context::new()),
        }
    }
}

} // verus!
