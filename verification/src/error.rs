//! What can go wrong between this system and its broker.
use vstd::prelude::*;
use vstd::std_specs::convert::FromSpecImpl;
use vstd::string::StringExecFns;

verus! {

/// Declares `serde_json::Error`, the error of a payload that does not decode.
#[verifier::external_type_specification]
#[verifier::external_body]
pub struct ExJsonError(serde_json::Error);

/// Declares `async_nats::jetstream::consumer::pull::BatchErrorKind`.
#[verifier::external_type_specification]
#[verifier::external_body]
pub struct ExBatchErrorKind(async_nats::jetstream::consumer::pull::BatchErrorKind);

/// Declares `async_nats::error::Error`, the broker client's error.
#[verifier::external_type_specification]
#[verifier::external_body]
#[verifier::reject_recursive_types(Kind)]
pub struct ExBrokerError<Kind: Clone + std::fmt::Debug + std::fmt::Display + PartialEq>(
    async_nats::error::Error<Kind>,
);

/// Failure of an operation on the job queue.
#[derive(Debug)]
pub enum QueueError {
    /// The queue is missing or the broker is unreachable; the broker's own
    /// words are kept.
    InvalidConnection(String),
}

/// Failure of an operation on the event log.
#[derive(Debug)]
pub enum StreamError {
    /// An instant lies outside what the broker's clock can hold. No query
    /// fails with it: a query reads from the nearest instant that the clock
    /// holds.
    ParseTimeOffset(time::error::ComponentRange),
    /// A payload is no event.
    ParseEvent(serde_json::Error),
    /// The broker failed to hand out a batch.
    Batch(async_nats::error::Error<async_nats::jetstream::consumer::pull::BatchErrorKind>),
    /// The log is missing or the broker is unreachable; the broker's own
    /// words are kept.
    InvalidConnection(String),
}

/// Text of an `InvalidConnection` error that carries `reason`.
pub open spec fn invalid_connection_text(reason: Seq<char>) -> Seq<char> {
    "Invalid Connection: "@ + reason
}

fn invalid_connection_message(reason: &String) -> (text: String)
    ensures
        text@ == invalid_connection_text(reason@),
{
    String::from_str("Invalid Connection: ").concat(reason.as_str())
}

impl QueueError {
    /// The text that describes this error.
    pub open spec fn text(self) -> Seq<char> {
        match self {
            QueueError::InvalidConnection(reason) => invalid_connection_text(reason@),
        }
    }

    /// Describes this error in words.
    pub fn message(&self) -> (text: String)
        ensures
            text@ == self.text(),
    {
        match self {
            QueueError::InvalidConnection(reason) => invalid_connection_message(reason),
        }
    }
}

impl StreamError {
    /// The text that describes this error.
    pub open spec fn text(self) -> Seq<char> {
        match self {
            StreamError::ParseTimeOffset(_) => "Error parsing event time offset"@,
            StreamError::ParseEvent(_) => "Error parsing event"@,
            StreamError::Batch(_) => "NATS stream batch error"@,
            StreamError::InvalidConnection(reason) => invalid_connection_text(reason@),
        }
    }

    /// Describes this error in words.
    pub fn message(&self) -> (text: String)
        ensures
            text@ == self.text(),
    {
        match self {
            StreamError::ParseTimeOffset(_) => String::from_str("Error parsing event time offset"),
            StreamError::ParseEvent(_) => String::from_str("Error parsing event"),
            StreamError::Batch(_) => String::from_str("NATS stream batch error"),
            StreamError::InvalidConnection(reason) => invalid_connection_message(reason),
        }
    }
}

impl From<time::error::ComponentRange> for StreamError {
    fn from(error: time::error::ComponentRange) -> (r: Self) {
        StreamError::ParseTimeOffset(error)
    }
}

impl FromSpecImpl<time::error::ComponentRange> for StreamError {
    open spec fn obeys_from_spec() -> bool {
        true
    }

    open spec fn from_spec(error: time::error::ComponentRange) -> Self {
        StreamError::ParseTimeOffset(error)
    }
}

impl From<serde_json::Error> for StreamError {
    fn from(error: serde_json::Error) -> (r: Self) {
        StreamError::ParseEvent(error)
    }
}

impl FromSpecImpl<serde_json::Error> for StreamError {
    open spec fn obeys_from_spec() -> bool {
        true
    }

    open spec fn from_spec(error: serde_json::Error) -> Self {
        StreamError::ParseEvent(error)
    }
}

impl From<
    async_nats::error::Error<async_nats::jetstream::consumer::pull::BatchErrorKind>,
> for StreamError {
    fn from(
        error: async_nats::error::Error<async_nats::jetstream::consumer::pull::BatchErrorKind>,
    ) -> (r: Self) {
        StreamError::Batch(error)
    }
}

impl FromSpecImpl<
    async_nats::error::Error<async_nats::jetstream::consumer::pull::BatchErrorKind>,
> for StreamError {
    open spec fn obeys_from_spec() -> bool {
        true
    }

    open spec fn from_spec(
        error: async_nats::error::Error<async_nats::jetstream::consumer::pull::BatchErrorKind>,
    ) -> Self {
        StreamError::Batch(error)
    }
}

} // verus!
