//! Static configuration of the application: the names of the event topics
//! it publishes to.  Reading the values from the process environment is an
//! adapter concern; the library only holds them.

use vstd::prelude::*;

verus! {

/// The application configuration.
pub struct Config {
    pub topics: Topics,
}

/// The names of the logical channels the application publishes to.
pub struct Topics {
    pub training_scheduled: String,
}

impl Config {
    /// Builds the configuration from the configured name of the
    /// "training scheduled" topic.
    pub fn new(training_scheduled_topic: String) -> (r: Self)
        ensures
            r.topics.training_scheduled == training_scheduled_topic,
    {
        Self { topics: Topics { training_scheduled: training_scheduled_topic } }
    }
}

} // verus!
