use chrono::{TimeZone, Utc};

use training_scheduler::hour::{Hour, HourError, Timestamp};
use training_scheduler::port::context::Context;
use training_scheduler::port::repository::{
    HourRepository, InMemoryHourRepository, StorageError,
};
use training_scheduler::port::stream_processor::{
    InMemoryStreamProcessor, SendError, SendInput, StreamProcessor,
};
use training_scheduler::port::training::{Metrics, TrainingError, TrainingPort};

fn now() -> Timestamp {
    Timestamp { millis: Utc::now().timestamp_millis() }
}

fn port_with(
    hour_repo: InMemoryHourRepository,
    stream_processor: InMemoryStreamProcessor,
) -> TrainingPort<InMemoryHourRepository, InMemoryStreamProcessor> {
    TrainingPort { hour_repo, stream_processor, metrics: Metrics::new() }
}

#[test]
fn schedule_hour_doesnt_exist() {
    // Given
    let hour_repo = InMemoryHourRepository::new();
    let stream_processor = InMemoryStreamProcessor::new();

    let time = now();

    // When
    let mut port = port_with(hour_repo, stream_processor);

    let actual = port.schedule(&Context::new(), time);

    // Then
    assert_eq!(Err(TrainingError::HourNotFound(time)), actual);
    assert!(port.stream_processor.sent_messages().is_empty());
}

#[test]
fn schedule_missing_hour_at_a_fixed_time_reports_not_found() {
    // Storage has no record for 2024-01-01T09:00Z.
    let fixed = Utc.with_ymd_and_hms(2024, 1, 1, 9, 0, 0).unwrap();
    let time = Timestamp { millis: fixed.timestamp_millis() };
    assert_eq!(1704099600000, time.millis);

    let mut port = port_with(InMemoryHourRepository::new(), InMemoryStreamProcessor::new());

    let actual = port.schedule(&Context::new(), time);

    assert_eq!(Err(TrainingError::HourNotFound(time)), actual);
    assert!(port.stream_processor.sent_messages().is_empty());
}

#[test]
fn schedule_hour_already_has_training_scheduled() {
    // Given
    let mut hour_repo = InMemoryHourRepository::new();
    let stream_processor = InMemoryStreamProcessor::new();

    let time = now();

    let scheduled_hour = Hour::new(time).schedule_traning().unwrap();
    hour_repo.save(scheduled_hour).unwrap();

    // When
    let mut port = port_with(hour_repo, stream_processor);

    let actual = port.schedule(&Context::new(), time);

    // Then
    assert_eq!(
        Err(TrainingError::Hour(HourError::HourAlreadyScheduled)),
        actual
    );
    assert!(port.stream_processor.sent_messages().is_empty());
}

#[test]
fn schedules_hour_and_publishes_message() {
    let time = now();

    let hour = Hour::new(time);

    let mut hour_repo = InMemoryHourRepository::new();

    // Hour is available
    hour_repo.save(hour).unwrap();

    let stream_processor = InMemoryStreamProcessor::new();

    let ctx = Context::new();

    let mut port = port_with(hour_repo, stream_processor);

    let result = port.schedule(&ctx, time);

    assert!(result.is_ok());

    // Should store the scheduled hour in the repository
    let stored = port.hour_repo.get_by_time(time).unwrap().unwrap();
    assert!(stored.has_training_scheduled());

    // Should publish one message
    assert_eq!(
        vec![SendInput {
            topic: ctx.topics.training_scheduled.clone(),
            key: None,
            payload: "hello world".as_bytes().to_vec(),
        }],
        *port.stream_processor.sent_messages()
    );

    // Should count the scheduled training
    assert_eq!(1, port.metrics.training_scheduled);
    assert_eq!(0, port.metrics.training_cancelled);
}

#[test]
fn schedule_publish_failure_leaves_slot_scheduled_but_unannounced() {
    let time = Timestamp { millis: 1704099600000 };

    let mut hour_repo = InMemoryHourRepository::new();
    hour_repo.save(Hour::new(time)).unwrap();

    let mut stream_processor = InMemoryStreamProcessor::new();
    stream_processor.set_fail_send(true);

    let mut port = port_with(hour_repo, stream_processor);

    let actual = port.schedule(&Context::new(), time);

    // The send error is propagated ...
    assert_eq!(Err(TrainingError::Send(SendError::Transport)), actual);
    assert!(port.stream_processor.sent_messages().is_empty());
    assert_eq!(0, port.metrics.training_scheduled);

    // ... but the slot is already durably marked scheduled.
    let stored = port.hour_repo.get_by_time(time).unwrap().unwrap();
    assert!(stored.has_training_scheduled());
}

#[test]
fn schedule_storage_fetch_failure_is_propagated() {
    let time = now();

    let mut hour_repo = InMemoryHourRepository::new();
    hour_repo.save(Hour::new(time)).unwrap();
    hour_repo.set_fail_get(true);

    let mut port = port_with(hour_repo, InMemoryStreamProcessor::new());

    let actual = port.schedule(&Context::new(), time);

    assert_eq!(Err(TrainingError::Storage(StorageError::Backend)), actual);
    assert!(port.stream_processor.sent_messages().is_empty());
}

#[test]
fn schedule_storage_save_failure_skips_publish() {
    let time = now();

    let mut hour_repo = InMemoryHourRepository::new();
    hour_repo.save(Hour::new(time)).unwrap();
    hour_repo.set_fail_save(true);

    let mut port = port_with(hour_repo, InMemoryStreamProcessor::new());

    let actual = port.schedule(&Context::new(), time);

    assert_eq!(Err(TrainingError::Storage(StorageError::Backend)), actual);
    assert!(port.stream_processor.sent_messages().is_empty());

    // The fetched slot was never overwritten.
    port.hour_repo.set_fail_save(false);
    port.hour_repo.set_fail_get(false);
    let stored = port.hour_repo.get_by_time(time).unwrap().unwrap();
    assert!(stored.is_available());
}

#[test]
fn cancel_always_succeeds_and_adjusts_the_metrics() {
    let mut hour_repo = InMemoryHourRepository::new();
    let time = now();
    hour_repo.save(Hour::new(time).schedule_traning().unwrap()).unwrap();

    let mut port = port_with(hour_repo, InMemoryStreamProcessor::new());

    // Whatever the training identifier, cancelling reports success and
    // only moves the two counters.
    assert_eq!(Ok(()), port.cancel(7));
    assert_eq!(-1, port.metrics.training_scheduled);
    assert_eq!(1, port.metrics.training_cancelled);

    assert_eq!(Ok(()), port.cancel(u64::MAX));
    assert_eq!(-2, port.metrics.training_scheduled);
    assert_eq!(2, port.metrics.training_cancelled);

    // Storage contents are untouched: no record was looked up or changed.
    let stored = port.hour_repo.get_by_time(time).unwrap().unwrap();
    assert!(stored.has_training_scheduled());
    assert!(port.stream_processor.sent_messages().is_empty());
}

#[test]
fn cancel_gauge_saturates_at_the_representable_minimum() {
    let mut port = port_with(
        InMemoryHourRepository::new(),
        InMemoryStreamProcessor::new(),
    );
    port.metrics.training_scheduled = i64::MIN;

    assert_eq!(Ok(()), port.cancel(1));

    assert_eq!(i64::MIN, port.metrics.training_scheduled);
    assert_eq!(1, port.metrics.training_cancelled);
}

#[test]
fn in_memory_stream_recv_has_no_inbound_messages() {
    let mut stream_processor = InMemoryStreamProcessor::new();
    assert!(stream_processor.recv().is_err());
}
