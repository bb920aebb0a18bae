//! The job queue: a durable log from which workers pull jobs, each handed
//! out again until it is done or has been tried often enough.
use crate::broker::{
    AckPolicy, ConsumerCursor, DeliveryPolicy, LogDescriptor, Lookup, Teardown, KEEP_FOREVER,
    MAX_DELIVERY_ATTEMPTS,
};
use crate::error::QueueError;
use vstd::prelude::*;

verus! {

/// Name under which the job queue is known to the broker.
pub const JOB_STREAM: &'static str = "FARMHAND_JOBS";

/// A job queue, known to exist on the broker.
#[derive(Debug)]
pub struct Queue {
    name: String,
}

impl View for Queue {
    type V = Seq<char>;

    /// The name of the queue.
    closed spec fn view(&self) -> Seq<char> {
        self.name@
    }
}

/// The broker's answer to a request as this library's result: its refusal
/// becomes `InvalidConnection` with the broker's words.
pub open spec fn answered(answer: Result<(), String>) -> Result<(), QueueError> {
    match answer {
        Ok(_) => Ok(()),
        Err(reason) => Err(QueueError::InvalidConnection(reason)),
    }
}

impl Queue {
    /// The cursor that `create_consumer` provisions: it reads from now on,
    /// each delivery is acknowledged, and a job is handed out at most
    /// `MAX_DELIVERY_ATTEMPTS` times.
    pub open spec fn cursor_of(name: Option<String>, filter: String) -> ConsumerCursor {
        ConsumerCursor {
            durable_name: name,
            filter_subject: filter,
            delivery_policy: DeliveryPolicy::FromNow,
            ack_policy: AckPolicy::Explicit,
            max_delivery_attempts: MAX_DELIVERY_ATTEMPTS,
        }
    }

    /// The name of the queue.
    pub fn name(&self) -> (name: &String)
        ensures
            name@ == self@,
    {
        &self.name
    }

    /// A job queue as it is provisioned: it keeps a job until it is consumed.
    pub fn descriptor(name: String, description: Option<String>, subjects: Vec<String>) -> (d:
        LogDescriptor)
        ensures
            d == (LogDescriptor { name, subjects, description, max_age_seconds: KEEP_FOREVER }),
    {
        LogDescriptor { name, subjects, description, max_age_seconds: KEEP_FOREVER }
    }

    /// Connects to the queue `name`, `found` being the broker's answer to a
    /// lookup of that name: the queue where it exists, else
    /// `InvalidConnection` with the broker's words.
    pub fn connect(name: String, found: Result<(), String>) -> (r: Result<Queue, QueueError>)
        ensures
            match found {
                Ok(_) => r is Ok && r->Ok_0@ == name@,
                Err(reason) => r == Err::<Queue, QueueError>(
                    QueueError::InvalidConnection(reason),
                ),
            },
    {
        match found {
            Ok(_) => Ok(Queue { name }),
            Err(reason) => Err(QueueError::InvalidConnection(reason)),
        }
    }

    /// The queue that was provisioned as `descriptor`, `created` being the
    /// broker's answer: the queue of that name where the broker made or
    /// already had it, else `InvalidConnection` with the broker's words.
    pub fn new(descriptor: LogDescriptor, created: Result<(), String>) -> (r: Result<
        Queue,
        QueueError,
    >)
        ensures
            match created {
                Ok(_) => r is Ok && r->Ok_0@ == descriptor.name@,
                Err(reason) => r == Err::<Queue, QueueError>(
                    QueueError::InvalidConnection(reason),
                ),
            },
    {
        match created {
            Ok(_) => Ok(Queue { name: descriptor.name }),
            Err(reason) => Err(QueueError::InvalidConnection(reason)),
        }
    }

    /// Decides what to do about a queue when it is to be deleted, `lookup`
    /// being the broker's answer to a lookup of its name.
    pub fn teardown(lookup: Lookup) -> (teardown: Teardown)
        ensures
            teardown == Teardown::decided(lookup),
    {
        Teardown::decide(lookup)
    }

    /// Ends the deletion of a queue, `removal` being the broker's answer to
    /// the removal where `teardown` asked for one: success where the queue
    /// was absent or has been removed; `InvalidConnection` with the broker's
    /// words where the lookup or the removal failed.
    pub fn delete(teardown: Teardown, removal: Result<(), String>) -> (r: Result<(), QueueError>)
        ensures
            r == answered(teardown.outcome(removal)),
    {
        match teardown.finish(removal) {
            Ok(_) => Ok(()),
            Err(reason) => Err(QueueError::InvalidConnection(reason)),
        }
    }

    /// The cursor to provision on this queue for a worker; with `name` it is
    /// durable and shared by the workers of that name, without it private.
    pub fn cursor(&self, name: Option<String>, filter: String) -> (cursor: ConsumerCursor)
        ensures
            cursor == Queue::cursor_of(name, filter),
    {
        ConsumerCursor {
            durable_name: name,
            filter_subject: filter,
            delivery_policy: DeliveryPolicy::FromNow,
            ack_policy: AckPolicy::Explicit,
            max_delivery_attempts: MAX_DELIVERY_ATTEMPTS,
        }
    }

    /// The consumer that was provisioned as `cursor` on this queue,
    /// `created` being the broker's answer: the cursor where the broker made
    /// it or reattached to it, else `InvalidConnection` with the broker's
    /// words.
    pub fn create_consumer(&self, cursor: ConsumerCursor, created: Result<(), String>) -> (r:
        Result<ConsumerCursor, QueueError>)
        ensures
            match created {
                Ok(_) => r == Ok::<ConsumerCursor, QueueError>(cursor),
                Err(reason) => r == Err::<ConsumerCursor, QueueError>(
                    QueueError::InvalidConnection(reason),
                ),
            },
    {
        match created {
            Ok(_) => Ok(cursor),
            Err(reason) => Err(QueueError::InvalidConnection(reason)),
        }
    }
}

} // verus!
