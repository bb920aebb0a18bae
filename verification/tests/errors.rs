use async_nats::jetstream::consumer::pull::BatchErrorKind;
use farmhand::error::{QueueError, StreamError};
use farmhand::timestamp::Timestamp;

#[test]
fn queue_error_message_keeps_the_reason() {
    let error = QueueError::InvalidConnection("stream not found".to_string());
    assert_eq!(error.message(), "Invalid Connection: stream not found");
    assert_eq!(
        QueueError::InvalidConnection(String::new()).message(),
        "Invalid Connection: "
    );
}

#[test]
fn stream_error_messages_are_fixed_texts() {
    let range = Timestamp { seconds: i64::MAX, nanoseconds: 0 }
        .checked_offset()
        .unwrap_err();
    assert_eq!(
        StreamError::ParseTimeOffset(range).message(),
        "Error parsing event time offset"
    );
    let json = serde_json::from_str::<serde_json::Value>("{").unwrap_err();
    assert_eq!(StreamError::ParseEvent(json).message(), "Error parsing event");
    let batch = async_nats::error::Error::new(BatchErrorKind::Pull);
    assert_eq!(StreamError::Batch(batch).message(), "NATS stream batch error");
    assert_eq!(
        StreamError::InvalidConnection("timed out".to_string()).message(),
        "Invalid Connection: timed out"
    );
}

#[test]
fn stream_error_is_made_from_each_outside_error() {
    let range = Timestamp { seconds: 0, nanoseconds: 1_000_000_000 }
        .checked_offset()
        .unwrap_err();
    assert!(matches!(
        StreamError::from(range),
        StreamError::ParseTimeOffset(_)
    ));
    let json = serde_json::from_str::<serde_json::Value>("nope").unwrap_err();
    assert!(matches!(StreamError::from(json), StreamError::ParseEvent(_)));
    let batch = async_nats::error::Error::new(BatchErrorKind::Flush);
    match StreamError::from(batch) {
        StreamError::Batch(error) => assert_eq!(error.kind(), BatchErrorKind::Flush),
        other => panic!("not a batch error: {:?}", other),
    }
}
