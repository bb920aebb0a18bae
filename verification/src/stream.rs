//! The event log: a durable, time-indexed log of the events of all users.
use crate::broker::{
    AckPolicy, ConsumerCursor, DeliveryPolicy, LogDescriptor, Lookup, Publication, Teardown,
    EVENT_RETENTION_SECONDS, MAX_DELIVERY_ATTEMPTS,
};
use crate::error::StreamError;
use crate::event::{delivery_views, event_views, Event, EventView};
use crate::query::{selected, EventQuery, Fetched, QUERY_BATCH};
use crate::subject::{all_user_events_subject, user_events_filter};
use crate::timestamp::Timestamp;
use vstd::prelude::*;
use vstd::string::*;

verus! {

/// Name under which the event log is known to the broker.
pub const EVENT_STREAM: &'static str = "FARMHAND_EVENTS";

/// The event log, known to exist on the broker.
#[derive(Debug)]
pub struct Stream {
    name: String,
}

impl View for Stream {
    type V = Seq<char>;

    /// The name of the log.
    closed spec fn view(&self) -> Seq<char> {
        self.name@
    }
}

/// The broker's answer to a request as this library's result: its refusal
/// becomes `InvalidConnection` with the broker's words.
pub open spec fn answered(answer: Result<(), String>) -> Result<(), StreamError> {
    match answer {
        Ok(_) => Ok(()),
        Err(reason) => Err(StreamError::InvalidConnection(reason)),
    }
}

impl Stream {
    /// The cursor that `create_consumer` provisions: it reads from now on,
    /// each delivery is acknowledged, and a message is handed out at most
    /// `MAX_DELIVERY_ATTEMPTS` times.
    pub open spec fn cursor_of(name: Option<String>, filter: String) -> ConsumerCursor {
        ConsumerCursor {
            durable_name: name,
            filter_subject: filter,
            delivery_policy: DeliveryPolicy::FromNow,
            ack_policy: AckPolicy::Explicit,
            max_delivery_attempts: MAX_DELIVERY_ATTEMPTS,
        }
    }

    /// The name of the log.
    pub fn name(&self) -> (name: &String)
        ensures
            name@ == self@,
    {
        &self.name
    }

    /// The event log as it is provisioned: it keeps a message for thirty
    /// days.
    pub fn descriptor(name: String, description: Option<String>, subjects: Vec<String>) -> (d:
        LogDescriptor)
        ensures
            d == (LogDescriptor {
                name,
                subjects,
                description,
                max_age_seconds: EVENT_RETENTION_SECONDS,
            }),
    {
        LogDescriptor { name, subjects, description, max_age_seconds: EVENT_RETENTION_SECONDS }
    }

    /// Connects to the event log, `found` being the broker's answer to a
    /// lookup of `EVENT_STREAM`: the log where it exists, else
    /// `InvalidConnection` with the broker's words.
    pub fn connect(found: Result<(), String>) -> (r: Result<Stream, StreamError>)
        ensures
            match found {
                Ok(_) => r is Ok && r->Ok_0@ == EVENT_STREAM@,
                Err(reason) => r == Err::<Stream, StreamError>(
                    StreamError::InvalidConnection(reason),
                ),
            },
    {
        match found {
            Ok(_) => Ok(Stream { name: String::from_str(EVENT_STREAM) }),
            Err(reason) => Err(StreamError::InvalidConnection(reason)),
        }
    }

    /// The log that was provisioned as `descriptor`, `created` being the
    /// broker's answer: the log of that name where the broker made or
    /// already had it, else `InvalidConnection` with the broker's words.
    pub fn new(descriptor: LogDescriptor, created: Result<(), String>) -> (r: Result<
        Stream,
        StreamError,
    >)
        ensures
            match created {
                Ok(_) => r is Ok && r->Ok_0@ == descriptor.name@,
                Err(reason) => r == Err::<Stream, StreamError>(
                    StreamError::InvalidConnection(reason),
                ),
            },
    {
        match created {
            Ok(_) => Ok(Stream { name: descriptor.name }),
            Err(reason) => Err(StreamError::InvalidConnection(reason)),
        }
    }

    /// Decides what to do about the event log when it is to be deleted,
    /// `lookup` being the broker's answer to a lookup of `EVENT_STREAM`.
    pub fn teardown(lookup: Lookup) -> (teardown: Teardown)
        ensures
            teardown == Teardown::decided(lookup),
    {
        Teardown::decide(lookup)
    }

    /// Ends the deletion of the event log, `removal` being the broker's
    /// answer to the removal where `teardown` asked for one: success where
    /// the log was absent or has been removed; `InvalidConnection` with the
    /// broker's words where the lookup or the removal failed.
    pub fn delete(teardown: Teardown, removal: Result<(), String>) -> (r: Result<(), StreamError>)
        ensures
            r == answered(teardown.outcome(removal)),
    {
        match teardown.finish(removal) {
            Ok(_) => Ok(()),
            Err(reason) => Err(StreamError::InvalidConnection(reason)),
        }
    }

    /// The cursor to provision on this log for a consumer; with `name` it is
    /// durable, without it private.
    pub fn cursor(&self, name: Option<String>, filter: String) -> (cursor: ConsumerCursor)
        ensures
            cursor == Stream::cursor_of(name, filter),
    {
        ConsumerCursor {
            durable_name: name,
            filter_subject: filter,
            delivery_policy: DeliveryPolicy::FromNow,
            ack_policy: AckPolicy::Explicit,
            max_delivery_attempts: MAX_DELIVERY_ATTEMPTS,
        }
    }

    /// The consumer that was provisioned as `cursor` on this log, `created`
    /// being the broker's answer: the cursor where the broker made it or
    /// reattached to it, else `InvalidConnection` with the broker's words.
    pub fn create_consumer(&self, cursor: ConsumerCursor, created: Result<(), String>) -> (r:
        Result<ConsumerCursor, StreamError>)
        ensures
            match created {
                Ok(_) => r == Ok::<ConsumerCursor, StreamError>(cursor),
                Err(reason) => r == Err::<ConsumerCursor, StreamError>(
                    StreamError::InvalidConnection(reason),
                ),
            },
    {
        match created {
            Ok(_) => Ok(cursor),
            Err(reason) => Err(StreamError::InvalidConnection(reason)),
        }
    }

    /// The message to append for `message` on `subject`: its bytes, filed
    /// under the subject.
    pub fn publication(&self, subject: String, message: String) -> (publication: Publication)
        ensures
            publication.subject == subject,
            publication.payload@ == vstd::utf8::encode_utf8(message@),
    {
        let payload = message.as_str().as_bytes_vec();
        Publication { subject, payload }
    }

    /// Ends the publishing of `publication`, `sent` being the broker's
    /// answer: success where the broker took the message, else
    /// `InvalidConnection` with the broker's words. Nothing waits for the
    /// message to be stored.
    pub fn publish(&self, publication: Publication, sent: Result<(), String>) -> (r: Result<
        (),
        StreamError,
    >)
        ensures
            r == answered(sent),
    {
        match sent {
            Ok(_) => Ok(()),
            Err(reason) => Err(StreamError::InvalidConnection(reason)),
        }
    }

    /// The filter that matches every event of `username`.
    pub fn get_subject_all_user_events(&self, username: String) -> (subject: String)
        ensures
            subject@ == user_events_filter(username@),
    {
        all_user_events_subject(username.as_str())
    }

    /// The query for the events of `username` from `start_time` on, up to
    /// `end_time` where one is given. Its cursor has no name, filters by the
    /// user's subjects, acknowledges nothing, and reads from the earliest
    /// instant of the broker's clock that is `start_time` or later. Where
    /// `start_time` lies after every such instant nothing can have been
    /// published at or after it, and there is no query to put.
    pub fn event_query(
        &self,
        username: String,
        start_time: Timestamp,
        end_time: Option<Timestamp>,
    ) -> (r: Option<EventQuery>)
        ensures
            r is Some <==> start_time.reads_from() is Some,
            r matches Some(query) ==> {
                &&& query.log@ == self@
                &&& query.cursor.durable_name is None
                &&& query.cursor.filter_subject@ == user_events_filter(username@)
                &&& query.cursor.delivery_policy == DeliveryPolicy::FromTimestamp(
                    start_time.reads_from()->Some_0,
                )
                &&& query.cursor.ack_policy == AckPolicy::Never
                &&& query.cursor.max_delivery_attempts == MAX_DELIVERY_ATTEMPTS
                &&& query.max_messages == QUERY_BATCH
                &&& query.end_time == end_time
            },
    {
        let filter = self.get_subject_all_user_events(username);
        match start_time.cursor_start() {
            Some(from) => Some(
                EventQuery {
                    log: self.name.clone(),
                    cursor: ConsumerCursor {
                        durable_name: None,
                        filter_subject: filter,
                        delivery_policy: DeliveryPolicy::FromTimestamp(from),
                        ack_policy: AckPolicy::Never,
                        max_delivery_attempts: MAX_DELIVERY_ATTEMPTS,
                    },
                    max_messages: QUERY_BATCH,
                    end_time,
                },
            ),
            None => None,
        }
    }

    /// The events of `username` between `start_time` and `end_time`, given
    /// what the broker answered to the query that `event_query` makes of
    /// them. Where there is no query to put, because `start_time` lies
    /// after every instant of the broker's clock, the result is no event,
    /// whatever `fetched` holds. Else the result is `InvalidConnection`
    /// where the broker refused the cursor, `Batch` where it failed to hand
    /// out a batch, and else, of the deliveries before the first one later
    /// than `end_time`, the events that can be taken, in order. No instant
    /// makes the query fail.
    pub fn get_user_events(
        &self,
        username: String,
        start_time: Timestamp,
        end_time: Option<Timestamp>,
        fetched: Fetched,
    ) -> (r: Result<Vec<Event>, StreamError>)
        ensures
            start_time.reads_from() is None ==> r is Ok && event_views(r->Ok_0@) == Seq::<
                EventView,
            >::empty(),
            start_time.reads_from() is Some ==> match fetched {
                Fetched::Refused(reason) => r == Err::<Vec<Event>, StreamError>(
                    StreamError::InvalidConnection(reason),
                ),
                Fetched::Failed(error) => r == Err::<Vec<Event>, StreamError>(
                    StreamError::Batch(error),
                ),
                Fetched::Batch(deliveries) => r is Ok && event_views(r->Ok_0@) == selected(
                    delivery_views(deliveries@),
                    end_time,
                ),
            },
    {
        match self.event_query(username, start_time, end_time) {
            Some(query) => query.collect(fetched),
            None => {
                let events: Vec<Event> = Vec::new();
                assert(event_views(events@) =~= Seq::<EventView>::empty());
                Ok(events)
            },
        }
    }
}

} // verus!
