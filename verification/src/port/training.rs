//! The booking orchestrator: the workflow that composes a storage lookup,
//! a slot-state transition, a persisted save and an event publish into
//! one logical "schedule training" operation, plus the counting-only
//! "cancel training" operation.

use vstd::prelude::*;
use vstd::string::{StrSliceExecFns, StringSliceAdditionalSpecFns};

use crate::hour::{Availability, Hour, HourError, HourView, Timestamp};
use crate::port::context::Context;
use crate::port::repository::{HourRepository, StorageError};
use crate::port::stream_processor::{SendError, SendInput, SendInputView, StreamProcessor};

verus! {

/// Failures of the booking workflow, as explicit result values.
#[derive(Clone, Copy, Debug, PartialEq, Eq, Structural)]
pub enum TrainingError {
    /// The requested slot does not exist in storage.
    HourNotFound(Timestamp),
    /// The slot transition was rejected.
    Hour(HourError),
    /// The storage backend failed during the fetch or the save.
    Storage(StorageError),
    /// The transport rejected the announcement after the save.
    Send(SendError),
}

/// The observability counters the orchestrator maintains: a gauge of
/// currently scheduled trainings and a counter of cancellations.  An
/// adapter exposes them for scraping.
#[derive(Clone, Copy, Debug, PartialEq, Eq, Structural)]
pub struct Metrics {
    pub training_scheduled: i64,
    pub training_cancelled: u64,
}

impl Metrics {
    /// Both counters at zero.
    pub fn new() -> (r: Self)
        ensures
            r.training_scheduled == 0,
            r.training_cancelled == 0,
    {
        Self { training_scheduled: 0, training_cancelled: 0 }
    }
}

/// A gauge moved one step up, stopping at the representable maximum.
pub open spec fn gauge_increment(g: i64) -> i64 {
    if g == i64::MAX {
        g
    } else {
        (g + 1) as i64
    }
}

/// A gauge moved one step down, stopping at the representable minimum.
pub open spec fn gauge_decrement(g: i64) -> i64 {
    if g == i64::MIN {
        g
    } else {
        (g - 1) as i64
    }
}

/// A counter moved one step up, stopping at the representable maximum.
pub open spec fn counter_increment(c: u64) -> u64 {
    if c == u64::MAX {
        c
    } else {
        (c + 1) as u64
    }
}

/// The payload of the published booking event.  Its wire schema is still
/// an unstructured placeholder.
pub open spec fn scheduled_payload() -> Seq<u8> {
    "hello world".spec_bytes()
}

/// The announcement published after a successful booking: the configured
/// topic, no partition key, and the placeholder payload.
pub open spec fn scheduled_event(topic: Seq<char>) -> SendInputView {
    SendInputView { topic, key: None, payload: scheduled_payload() }
}

/// The placeholder payload as bytes.
fn scheduled_payload_bytes() -> (r: Vec<u8>)
    ensures
        r@ == scheduled_payload(),
{
    "hello world".as_bytes_vec()
}

/// The slot state persisted by a successful booking of `time`.
pub open spec fn scheduled_slot(time: Timestamp) -> HourView {
    HourView { time, availability: Availability::TrainingScheduled }
}

/// The decision at the heart of `schedule`, on the outcome of the storage
/// fetch: a missing slot is rejected as not found, a slot that already
/// has a training scheduled is rejected as already scheduled, and any
/// other slot transitions to `TrainingScheduled`.
pub fn schedule_transition(fetched: Option<Hour>, time: Timestamp) -> (r: Result<
    Hour,
    TrainingError,
>)
    ensures
        fetched is None ==> r == Err::<Hour, TrainingError>(TrainingError::HourNotFound(time)),
        fetched matches Some(h) ==> ({
            &&& h@.has_training_scheduled() ==> r == Err::<Hour, TrainingError>(
                TrainingError::Hour(HourError::HourAlreadyScheduled),
            )
            &&& !h@.has_training_scheduled() ==> (r matches Ok(s) && Ok::<HourView, HourError>(s@)
                == h@.schedule_traning())
        }),
{
    match fetched {
        None => Err(TrainingError::HourNotFound(time)),
        Some(hour) => match hour.schedule_traning() {
            Ok(scheduled) => Ok(scheduled),
            Err(e) => Err(TrainingError::Hour(e)),
        },
    }
}

/// The booking workflows, over an injected storage contract and an
/// injected stream transport.
///
/// The workflows take the port exclusively (`&mut self`), so bookings
/// that share one port value are serialized: two fetch-save sequences for
/// the same slot cannot interleave and double-book it.  Callers that
/// handle triggers concurrently must share the port behind a lock.
pub struct TrainingPort<R: HourRepository, S: StreamProcessor> {
    pub hour_repo: R,
    pub stream_processor: S,
    pub metrics: Metrics,
}

impl<R: HourRepository, S: StreamProcessor> TrainingPort<R, S> {
    /// The durable slots, the announcements and the counters of `next`
    /// are all as they are in `self`.
    pub open spec fn observably_unchanged(self, next: Self) -> bool {
        &&& next.hour_repo.slots() == self.hour_repo.slots()
        &&& next.stream_processor.sent() == self.stream_processor.sent()
        &&& next.metrics == self.metrics
    }

    /// Books a training for the slot at `time`: fetch the slot, move it
    /// to `TrainingScheduled`, persist it, announce it on the configured
    /// topic, and count it.  Every failure is explicit, and the sequence
    /// is not transactional: a failed announcement leaves the slot
    /// durably scheduled but unannounced.
    pub fn schedule(&mut self, ctx: &Context, time: Timestamp) -> (r: Result<(), TrainingError>)
        ensures
            r matches Err(TrainingError::HourNotFound(t)) ==> ({
                &&& t == time
                &&& !old(self).hour_repo.slots().contains_key(time)
                &&& old(self).observably_unchanged(*final(self))
            }),
            r matches Err(TrainingError::Hour(e)) ==> ({
                &&& e == HourError::HourAlreadyScheduled
                &&& old(self).hour_repo.slots().contains_key(time)
                &&& old(self).hour_repo.slots()[time].has_training_scheduled()
                &&& old(self).observably_unchanged(*final(self))
            }),
            r matches Err(TrainingError::Storage(_)) ==> old(self).observably_unchanged(
                *final(self),
            ),
            r matches Err(TrainingError::Send(_)) ==> ({
                &&& old(self).hour_repo.slots().contains_key(time)
                &&& !old(self).hour_repo.slots()[time].has_training_scheduled()
                &&& final(self).hour_repo.slots() == old(self).hour_repo.slots().insert(
                    time,
                    scheduled_slot(time),
                )
                &&& final(self).stream_processor.sent() == old(self).stream_processor.sent()
                &&& final(self).metrics == old(self).metrics
            }),
            r is Ok ==> ({
                &&& old(self).hour_repo.slots().contains_key(time)
                &&& !old(self).hour_repo.slots()[time].has_training_scheduled()
                &&& final(self).hour_repo.slots() == old(self).hour_repo.slots().insert(
                    time,
                    scheduled_slot(time),
                )
                &&& final(self).stream_processor.sent() == old(self).stream_processor.sent().push(
                    scheduled_event(ctx.topics.training_scheduled@),
                )
                &&& final(self).metrics.training_scheduled == gauge_increment(
                    old(self).metrics.training_scheduled,
                )
                &&& final(self).metrics.training_cancelled == old(self).metrics.training_cancelled
            }),
    {
        let fetched = match self.hour_repo.get_by_time(time) {
            Err(e) => {
                return Err(TrainingError::Storage(e));
            },
            Ok(fetched) => fetched,
        };
        let scheduled = match schedule_transition(fetched, time) {
            Err(e) => {
                return Err(e);
            },
            Ok(scheduled) => scheduled,
        };
        match self.hour_repo.save(scheduled) {
            Err(e) => {
                return Err(TrainingError::Storage(e));
            },
            Ok(_) => {},
        }
        let announcement = SendInput {
            topic: ctx.topics.training_scheduled.clone(),
            key: None,
            payload: scheduled_payload_bytes(),
        };
        match self.stream_processor.send(announcement) {
            Err(e) => Err(TrainingError::Send(e)),
            Ok(_) => {
                self.metrics.training_scheduled = if self.metrics.training_scheduled == i64::MAX {
                    i64::MAX
                } else {
                    self.metrics.training_scheduled + 1
                };
                Ok(())
            },
        }
    }

    /// Cancels a training by its identifier.  The current contract only
    /// adjusts the two observability counters and reports success; no
    /// mapping from a training identifier to a slot is established, so no
    /// stored record is looked up or changed.
    #[allow(unused_variables)]
    pub fn cancel(&mut self, training_id: u64) -> (r: Result<(), ()>)
        ensures
            r is Ok,
            final(self).metrics.training_scheduled == gauge_decrement(
                old(self).metrics.training_scheduled,
            ),
            final(self).metrics.training_cancelled == counter_increment(
                old(self).metrics.training_cancelled,
            ),
            final(self).hour_repo == old(self).hour_repo,
            final(self).stream_processor == old(self).stream_processor,
    {
        self.metrics.training_scheduled = if self.metrics.training_scheduled == i64::MIN {
            i64::MIN
        } else {
            self.metrics.training_scheduled - 1
        };
        self.metrics.training_cancelled = if self.metrics.training_cancelled == u64::MAX {
            u64::MAX
        } else {
            self.metrics.training_cancelled + 1
        };
        Ok(())
    }
}

} // verus!
