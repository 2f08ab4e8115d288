//! A small booking workflow for discrete training slots ("hours").
//!
//! The slot entity is a three-state machine (`Available`, `Unavailable`,
//! `TrainingScheduled`) with pure value transitions.  The booking
//! orchestrator composes a storage lookup, a state transition, a persisted
//! save and an event publish into one logical operation, against abstract
//! storage and stream-transport contracts.

use vstd::prelude::*;

pub mod config;
pub mod context;
pub mod hour;
pub mod port;

use port::repository::HourRepository;
use port::stream_processor::StreamProcessor;
use port::training::TrainingPort;

verus! {

/// The collection of ports the application exposes to its adapters.
pub struct Ports<R: HourRepository, S: StreamProcessor> {
    pub training: TrainingPort<R, S>,
}

/// A hook for observing failures as they flow by: `tap_err` hands its
/// receiver back unchanged after showing any error to the given closure.
pub trait TapResult<T, E>: Sized {
    /// Calls `f` on the error, if there is one, and returns the result
    /// unchanged.
    fn tap_err<F: FnOnce(&E)>(self, f: F) -> Result<T, E>
        requires
            forall|e: &E| #[trigger] f.requires((e,)),
    ;
}

impl<T, E> TapResult<T, E> for Result<T, E> {
    fn tap_err<F: FnOnce(&E)>(self, f: F) -> (r: Result<T, E>)
        ensures
            r == self,
    {
        match self {
            Ok(v) => Ok(v),
            Err(e) => {
                f(&e);
                Err(e)
            },
        }
    }
}

} // verus!
