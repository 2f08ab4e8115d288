use chrono::Utc;

use training_scheduler::hour::{Hour, HourError, Timestamp};

fn now() -> Timestamp {
    Timestamp { millis: Utc::now().timestamp_millis() }
}

#[test]
fn available_hour_doesnt_have_training_scheduled() {
    // Given
    let hour = Hour::new(now());

    // Then
    assert!(!hour.has_training_scheduled());
}

#[test]
fn available_hour_can_be_made_unavailable() {
    // Given
    let hour = Hour::new(now());

    // When
    let hour = hour.make_unavailable();

    // Then
    assert!(!hour.is_available());
}

#[test]
fn available_hour_can_schedule_training() {
    // Given
    let hour = Hour::new(now());

    // When
    let hour = hour.schedule_traning().unwrap();

    // Then
    assert!(hour.has_training_scheduled());
    assert!(!hour.is_available());
}

#[test]
fn cannot_schedule_training_if_hour_already_has_training_scheduled() {
    // Given
    let hour = Hour::new(now()).schedule_traning().unwrap();

    // When
    let actual = hour.schedule_traning();

    // Then
    assert_eq!(Err(HourError::HourAlreadyScheduled), actual);
}

#[test]
fn unavailable_hour_doesnt_have_training_scheduled() {
    // Given
    let hour = Hour::new(now());

    // When
    let hour = hour.make_unavailable();

    // Then
    assert!(!hour.has_training_scheduled());
    assert!(!hour.is_available());
}

#[test]
fn unavailable_hour_can_be_made_available() {
    // Given
    let hour = Hour::new(now()).make_unavailable();

    // When
    let hour = hour.make_available();

    // Then
    assert!(hour.is_available());
}

#[test]
fn hour_has_training_scheduled() {
    // Given
    let hour = Hour::new(now());

    // When
    let hour = hour.schedule_traning().unwrap();

    // Then
    assert!(hour.has_training_scheduled());
}

#[test]
fn hour_with_training_scheduled_can_have_training_canceled() {
    // Given
    let hour = Hour::new(now()).schedule_traning().unwrap();

    // When
    let hour = hour.cancel_training().unwrap();

    // Then
    assert!(!hour.has_training_scheduled());
}

#[test]
fn cant_cancel_training_if_hour_does_not_have_training_scheduled() {
    // Given
    let hour = Hour::new(now());

    // Then
    assert_eq!(Err(HourError::NoTrainingScheduled), hour.cancel_training());

    // Given
    let hour = Hour::new(now()).make_unavailable();

    // Then
    assert_eq!(Err(HourError::NoTrainingScheduled), hour.cancel_training());
}

#[test]
fn hour_keeps_its_time_through_every_transition() {
    let time = Timestamp { millis: 1704099600000 };
    let hour = Hour::new(time);
    assert_eq!(time, hour.time());
    let hour = hour.schedule_traning().unwrap();
    assert_eq!(time, hour.time());
    let hour = hour.cancel_training().unwrap();
    assert_eq!(time, hour.time());
    let hour = hour.make_unavailable();
    assert_eq!(time, hour.time());
    let hour = hour.make_available();
    assert_eq!(time, hour.time());
}

#[test]
fn unavailable_then_available_round_trip_from_any_state() {
    let time = Timestamp { millis: 42 };

    // From Available.
    let hour = Hour::new(time).make_unavailable().make_available();
    assert!(hour.is_available());
    assert_eq!(time, hour.time());
    assert_eq!(Hour::new(time), hour);

    // From Unavailable.
    let hour = Hour::new(time).make_unavailable().make_unavailable().make_available();
    assert!(hour.is_available());
    assert_eq!(time, hour.time());

    // From TrainingScheduled.
    let hour = Hour::new(time)
        .schedule_traning()
        .unwrap()
        .make_unavailable()
        .make_available();
    assert!(hour.is_available());
    assert_eq!(time, hour.time());
}

#[test]
fn scheduling_is_allowed_from_an_unavailable_hour() {
    // Availability blocking is advisory: an unavailable hour can still be
    // scheduled.
    let hour = Hour::new(now()).make_unavailable().schedule_traning().unwrap();
    assert!(hour.has_training_scheduled());
}
