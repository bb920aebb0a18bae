use farmhand::broker::{
    AckPolicy, ConsumerCursor, DeliveryPolicy, LogDescriptor, Lookup, Teardown,
    EVENT_RETENTION_SECONDS,
    KEEP_FOREVER, MAX_DELIVERY_ATTEMPTS,
};
use farmhand::error::{QueueError, StreamError};
use farmhand::queue::{Queue, JOB_STREAM};
use farmhand::stream::{Stream, EVENT_STREAM};
use farmhand::video::ProcessingStatus;

fn subjects() -> Vec<String> {
    vec!["farmhand.events.>".to_string()]
}

#[test]
fn well_known_names() {
    assert_eq!(EVENT_STREAM, "FARMHAND_EVENTS");
    assert_eq!(JOB_STREAM, "FARMHAND_JOBS");
}

#[test]
fn stream_connect_gives_the_event_log_where_it_exists() {
    let stream = Stream::connect(Ok(())).unwrap();
    assert_eq!(stream.name(), "FARMHAND_EVENTS");
}

#[test]
fn stream_connect_fails_where_the_log_is_missing() {
    match Stream::connect(Err("stream not found".to_string())) {
        Err(StreamError::InvalidConnection(reason)) => assert_eq!(reason, "stream not found"),
        other => panic!("connected: {:?}", other),
    }
}

#[test]
fn stream_descriptor_keeps_messages_for_thirty_days() {
    let descriptor = Stream::descriptor(
        "FARMHAND_EVENTS".to_string(),
        Some("All events".to_string()),
        subjects(),
    );
    assert_eq!(
        descriptor,
        LogDescriptor {
            name: "FARMHAND_EVENTS".to_string(),
            subjects: subjects(),
            description: Some("All events".to_string()),
            max_age_seconds: 2_592_000,
        }
    );
    assert_eq!(EVENT_RETENTION_SECONDS, 2_592_000);
}

#[test]
fn stream_new_gives_the_log_of_the_descriptor() {
    let descriptor = Stream::descriptor("EVENTS_B".to_string(), None, subjects());
    let stream = Stream::new(descriptor, Ok(())).unwrap();
    assert_eq!(stream.name(), "EVENTS_B");
}

#[test]
fn stream_new_fails_on_a_transport_error() {
    let descriptor = Stream::descriptor("EVENTS_B".to_string(), None, subjects());
    match Stream::new(descriptor, Err("timed out".to_string())) {
        Err(StreamError::InvalidConnection(reason)) => assert_eq!(reason, "timed out"),
        other => panic!("created: {:?}", other),
    }
}

#[test]
fn deleting_a_log_that_does_not_exist_asks_nothing_and_succeeds() {
    assert_eq!(Stream::teardown(Lookup::NotFound), Teardown::Absent);
    assert_eq!(Queue::teardown(Lookup::NotFound), Teardown::Absent);
    assert!(Stream::delete(Teardown::Absent, Ok(())).is_ok());
    assert!(Stream::delete(Teardown::Absent, Err("never asked".to_string())).is_ok());
    assert!(Queue::delete(Teardown::Absent, Ok(())).is_ok());
    assert!(Queue::delete(Teardown::Absent, Err("never asked".to_string())).is_ok());
    assert_eq!(Teardown::Absent.finish(Err("never asked".to_string())), Ok(()));
}

#[test]
fn deleting_a_log_that_exists_removes_it() {
    assert_eq!(Stream::teardown(Lookup::Found), Teardown::Remove);
    assert_eq!(Queue::teardown(Lookup::Found), Teardown::Remove);
    assert_eq!(Teardown::decide(Lookup::Found), Teardown::Remove);
    assert!(Stream::delete(Teardown::Remove, Ok(())).is_ok());
    assert!(Queue::delete(Teardown::Remove, Ok(())).is_ok());
}

#[test]
fn deleting_hands_on_the_failure_of_the_removal() {
    match Stream::delete(Teardown::Remove, Err("no responders".to_string())) {
        Err(StreamError::InvalidConnection(reason)) => assert_eq!(reason, "no responders"),
        other => panic!("deleted: {:?}", other),
    }
    match Queue::delete(Teardown::Remove, Err("no responders".to_string())) {
        Err(QueueError::InvalidConnection(reason)) => assert_eq!(reason, "no responders"),
        other => panic!("deleted: {:?}", other),
    }
    assert_eq!(
        Teardown::Remove.finish(Err("no responders".to_string())),
        Err("no responders".to_string())
    );
}

#[test]
fn deleting_fails_where_the_lookup_failed() {
    let unreachable = || Lookup::Failed("no responders".to_string());
    assert_eq!(
        Stream::teardown(unreachable()),
        Teardown::Unknown("no responders".to_string())
    );
    assert_eq!(
        Queue::teardown(unreachable()),
        Teardown::Unknown("no responders".to_string())
    );
    match Stream::delete(Stream::teardown(unreachable()), Ok(())) {
        Err(StreamError::InvalidConnection(reason)) => assert_eq!(reason, "no responders"),
        other => panic!("deleted: {:?}", other),
    }
    match Stream::delete(Stream::teardown(unreachable()), Err("never asked".to_string())) {
        Err(StreamError::InvalidConnection(reason)) => assert_eq!(reason, "no responders"),
        other => panic!("deleted: {:?}", other),
    }
    match Queue::delete(Queue::teardown(unreachable()), Ok(())) {
        Err(QueueError::InvalidConnection(reason)) => assert_eq!(reason, "no responders"),
        other => panic!("deleted: {:?}", other),
    }
    assert_eq!(
        Teardown::Unknown("timed out".to_string()).finish(Ok(())),
        Err("timed out".to_string())
    );
}

#[test]
fn stream_consumer_is_bounded_and_acknowledged() {
    let stream = Stream::connect(Ok(())).unwrap();
    let cursor = stream.cursor(Some("reader".to_string()), "farmhand.events.>".to_string());
    assert_eq!(
        cursor,
        ConsumerCursor {
            durable_name: Some("reader".to_string()),
            filter_subject: "farmhand.events.>".to_string(),
            delivery_policy: DeliveryPolicy::FromNow,
            ack_policy: AckPolicy::Explicit,
            max_delivery_attempts: 3,
        }
    );
    let made = stream.create_consumer(cursor.clone(), Ok(())).unwrap();
    assert_eq!(made, cursor);
}

#[test]
fn stream_create_consumer_fails_on_a_transport_error() {
    let stream = Stream::connect(Ok(())).unwrap();
    let cursor = stream.cursor(None, "farmhand.events.>".to_string());
    assert_eq!(cursor.durable_name, None);
    match stream.create_consumer(cursor, Err("timed out".to_string())) {
        Err(StreamError::InvalidConnection(reason)) => assert_eq!(reason, "timed out"),
        other => panic!("created: {:?}", other),
    }
}

#[test]
fn publication_holds_the_bytes_of_the_message() {
    let stream = Stream::connect(Ok(())).unwrap();
    let publication = stream.publication(
        "farmhand.events.twitch.events.alice.chat".to_string(),
        "héllo".to_string(),
    );
    assert_eq!(publication.subject, "farmhand.events.twitch.events.alice.chat");
    assert_eq!(publication.payload, vec![0x68, 0xc3, 0xa9, 0x6c, 0x6c, 0x6f]);
    assert!(stream.publish(publication, Ok(())).is_ok());
}

#[test]
fn publish_fails_on_a_transport_error() {
    let stream = Stream::connect(Ok(())).unwrap();
    let publication = stream.publication("a.b".to_string(), String::new());
    assert!(publication.payload.is_empty());
    match stream.publish(publication, Err("connection closed".to_string())) {
        Err(StreamError::InvalidConnection(reason)) => assert_eq!(reason, "connection closed"),
        other => panic!("published: {:?}", other),
    }
}

#[test]
fn queue_connect_gives_the_queue_where_it_exists() {
    let queue = Queue::connect("FARMHAND_JOBS".to_string(), Ok(())).unwrap();
    assert_eq!(queue.name(), JOB_STREAM);
}

#[test]
fn queue_connect_fails_where_the_queue_is_missing() {
    match Queue::connect("FARMHAND_JOBS".to_string(), Err("stream not found".to_string())) {
        Err(QueueError::InvalidConnection(reason)) => assert_eq!(reason, "stream not found"),
        other => panic!("connected: {:?}", other),
    }
}

#[test]
fn queue_descriptor_keeps_jobs_until_consumed() {
    let descriptor = Queue::descriptor(
        "FARMHAND_JOBS".to_string(),
        None,
        vec!["farmhand.jobs.>".to_string()],
    );
    assert_eq!(
        descriptor,
        LogDescriptor {
            name: "FARMHAND_JOBS".to_string(),
            subjects: vec!["farmhand.jobs.>".to_string()],
            description: None,
            max_age_seconds: 0,
        }
    );
    assert_eq!(KEEP_FOREVER, 0);
}

#[test]
fn queue_new_gives_the_queue_or_the_transport_error() {
    let descriptor = Queue::descriptor("JOBS_B".to_string(), None, Vec::new());
    assert_eq!(Queue::new(descriptor.clone(), Ok(())).unwrap().name(), "JOBS_B");
    match Queue::new(descriptor, Err("timed out".to_string())) {
        Err(QueueError::InvalidConnection(reason)) => assert_eq!(reason, "timed out"),
        other => panic!("created: {:?}", other),
    }
}

#[test]
fn queue_consumer_retries_three_times_by_default() {
    let queue = Queue::connect("FARMHAND_JOBS".to_string(), Ok(())).unwrap();
    let cursor = queue.cursor(
        Some("farmhand_runner_1".to_string()),
        "farmhand.jobs.>".to_string(),
    );
    assert_eq!(cursor.durable_name, Some("farmhand_runner_1".to_string()));
    assert_eq!(cursor.filter_subject, "farmhand.jobs.>");
    assert_eq!(cursor.delivery_policy, DeliveryPolicy::FromNow);
    assert_eq!(cursor.ack_policy, AckPolicy::Explicit);
    assert_eq!(cursor.max_delivery_attempts, 3);
    assert_eq!(MAX_DELIVERY_ATTEMPTS, 3);
    assert_eq!(queue.create_consumer(cursor.clone(), Ok(())).unwrap(), cursor);
    match queue.create_consumer(cursor, Err("timed out".to_string())) {
        Err(QueueError::InvalidConnection(reason)) => assert_eq!(reason, "timed out"),
        other => panic!("created: {:?}", other),
    }
}

#[test]
fn processing_status_has_four_states() {
    let all = [
        ProcessingStatus::Pending,
        ProcessingStatus::Processing,
        ProcessingStatus::Completed,
        ProcessingStatus::Failed,
    ];
    assert_eq!(all.len(), 4);
    assert_ne!(ProcessingStatus::Pending, ProcessingStatus::Failed);
}
