//! Holds data that is used by the whole application and should be
//! available to every adapter.

use vstd::prelude::*;

verus! {

/// Application-wide data threaded into the orchestrator: the names of the
/// event topics it publishes to.
pub struct Context {
    pub topics: Topics,
}

/// The topic names the orchestrator publishes to.
pub struct Topics {
    pub training_scheduled: String,
}

impl Context {
    /// The application context with its fixed topic names.
    pub fn new() -> (r: Self)
        ensures
            r.topics.training_scheduled@ == "topic_here"@,
    {
        Self { topics: Topics { training_scheduled: "topic_here".to_owned() } }
    }
}

} // verus!
