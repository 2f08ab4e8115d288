//! The slot entity: the booking-state model for one point in time.
//!
//! An [`Hour`] is an immutable value; every transition consumes the old
//! value and returns a new one (or a tagged failure), so no in-place
//! mutation is ever exposed.

use vstd::prelude::*;

verus! {

/// A point in time identifying one slot, as milliseconds since the Unix
/// epoch.  The slot's natural key: two slots are the same exactly when
/// their timestamps are equal.
#[derive(Clone, Copy, Debug, PartialEq, Eq, Structural, Hash)]
pub struct Timestamp {
    pub millis: i64,
}

/// The three mutually exclusive booking states of a slot.
#[derive(Clone, Copy, Debug, PartialEq, Eq, Structural)]
pub enum Availability {
    /// The hour is available to be scheduled.
    Available,
    /// The hour is not available to be scheduled.
    Unavailable,
    /// The hour already has a training scheduled.
    TrainingScheduled,
}

/// Failures of the slot transitions.
#[derive(Clone, Copy, Debug, PartialEq, Eq, Structural)]
pub enum HourError {
    /// The operation required the hour to have a training scheduled.
    NoTrainingScheduled,
    /// The hour already has a training scheduled.
    HourAlreadyScheduled,
}

/// The mathematical model of an [`Hour`]: its natural key and its state.
pub struct HourView {
    pub time: Timestamp,
    pub availability: Availability,
}

impl HourView {
    /// Whether a training is scheduled for this hour.
    pub open spec fn has_training_scheduled(self) -> bool {
        self.availability is TrainingScheduled
    }

    /// Whether this hour is open for scheduling.
    pub open spec fn is_available(self) -> bool {
        self.availability is Available
    }

    /// The transition taken by [`Hour::schedule_traning`].
    pub open spec fn schedule_traning(self) -> Result<HourView, HourError> {
        if self.has_training_scheduled() {
            Err(HourError::HourAlreadyScheduled)
        } else {
            Ok(HourView { time: self.time, availability: Availability::TrainingScheduled })
        }
    }

    /// The transition taken by [`Hour::make_unavailable`].
    pub open spec fn make_unavailable(self) -> HourView {
        HourView { time: self.time, availability: Availability::Unavailable }
    }

    /// The transition taken by [`Hour::make_available`].
    pub open spec fn make_available(self) -> HourView {
        HourView { time: self.time, availability: Availability::Available }
    }

    /// The transition taken by [`Hour::cancel_training`].
    pub open spec fn cancel_training(self) -> Result<HourView, HourError> {
        if self.has_training_scheduled() {
            Ok(HourView { time: self.time, availability: Availability::Available })
        } else {
            Err(HourError::NoTrainingScheduled)
        }
    }
}

/// Lifts a fallible transition result to the model level.
pub open spec fn result_view(r: Result<Hour, HourError>) -> Result<HourView, HourError> {
    match r {
        Ok(h) => Ok(h@),
        Err(e) => Err(e),
    }
}

/// A bookable slot of time with a three-state availability model.
#[derive(Clone, Copy, Debug, PartialEq, Eq, Structural)]
pub struct Hour {
    hour: Timestamp,
    availability: Availability,
}

impl View for Hour {
    type V = HourView;

    closed spec fn view(&self) -> HourView {
        HourView { time: self.hour, availability: self.availability }
    }
}

impl Hour {
    /// Creates a new `Hour` with the available status.
    pub fn new(hour: Timestamp) -> (r: Self)
        ensures
            r@ == (HourView { time: hour, availability: Availability::Available }),
    {
        Self { hour, availability: Availability::Available }
    }

    /// The slot's natural key.
    pub fn time(&self) -> (r: Timestamp)
        ensures
            r == self@.time,
    {
        self.hour
    }

    /// Returns true when the hour already has a training scheduled for it.
    pub fn has_training_scheduled(&self) -> (r: bool)
        ensures
            r == self@.has_training_scheduled(),
    {
        match self.availability {
            Availability::Available | Availability::Unavailable => false,
            Availability::TrainingScheduled => true,
        }
    }

    /// Returns true when the hour is available.
    pub fn is_available(&self) -> (r: bool)
        ensures
            r == self@.is_available(),
    {
        match self.availability {
            Availability::Available => true,
            Availability::Unavailable | Availability::TrainingScheduled => false,
        }
    }

    /// Schedules a training for this hour.  Allowed from `Available` and
    /// from `Unavailable` (availability blocking is advisory); rejected
    /// when a training is already scheduled.
    pub fn schedule_traning(self) -> (r: Result<Hour, HourError>)
        ensures
            result_view(r) == self@.schedule_traning(),
    {
        if self.has_training_scheduled() {
            Err(HourError::HourAlreadyScheduled)
        } else {
            Ok(Hour { hour: self.hour, availability: Availability::TrainingScheduled })
        }
    }

    /// The hour becomes unavailable for scheduling, whatever its prior
    /// state (an already scheduled training is overwritten).
    pub fn make_unavailable(self) -> (r: Hour)
        ensures
            r@ == self@.make_unavailable(),
    {
        Hour { hour: self.hour, availability: Availability::Unavailable }
    }

    /// The hour becomes available for scheduling, whatever its prior state.
    pub fn make_available(self) -> (r: Hour)
        ensures
            r@ == self@.make_available(),
    {
        Hour { hour: self.hour, availability: Availability::Available }
    }

    /// Cancels the scheduled training, freeing the hour; rejected when no
    /// training is scheduled.
    pub fn cancel_training(self) -> (r: Result<Hour, HourError>)
        ensures
            result_view(r) == self@.cancel_training(),
    {
        if self.has_training_scheduled() {
            Ok(Hour { hour: self.hour, availability: Availability::Available })
        } else {
            Err(HourError::NoTrainingScheduled)
        }
    }
}

/// Scheduling a slot that is `Available` or `Unavailable` succeeds, keeps
/// the slot's time, and the result has a training scheduled.
pub proof fn lemma_schedule_succeeds_when_not_scheduled(h: HourView)
    requires
        !h.has_training_scheduled(),
    ensures
        h.schedule_traning() matches Ok(s) && s.has_training_scheduled() && s.time == h.time,
{
}

/// Scheduling a slot that already has a training scheduled fails with
/// `HourAlreadyScheduled`, and no new slot value is produced.
pub proof fn lemma_schedule_fails_when_scheduled(h: HourView)
    requires
        h.has_training_scheduled(),
    ensures
        h.schedule_traning() == Err::<HourView, HourError>(HourError::HourAlreadyScheduled),
{
}

/// Cancelling a slot with a training scheduled succeeds, keeps the slot's
/// time, and the result is available again.
pub proof fn lemma_cancel_succeeds_when_scheduled(h: HourView)
    requires
        h.has_training_scheduled(),
    ensures
        h.cancel_training() matches Ok(c) && c.is_available() && c.time == h.time,
{
}

/// Cancelling a slot without a training scheduled fails with
/// `NoTrainingScheduled`, and no new slot value is produced.
pub proof fn lemma_cancel_fails_when_not_scheduled(h: HourView)
    requires
        !h.has_training_scheduled(),
    ensures
        h.cancel_training() == Err::<HourView, HourError>(HourError::NoTrainingScheduled),
{
}

/// Making a slot unavailable and then available again yields an available
/// slot with the original time unchanged, from any starting state.
pub proof fn lemma_unavailable_then_available_round_trip(h: HourView)
    ensures
        h.make_unavailable().make_available().is_available(),
        h.make_unavailable().make_available().time == h.time,
        h.make_unavailable().make_available() == h.make_available(),
{
}

} // verus!
