//! Events of a user, the legacy chat payload that is still accepted, and the
//! deliveries in which the event log hands them out.
use crate::timestamp::{on_calendar, Timestamp};
use vstd::prelude::*;
use vstd::string::StringExecFns;

verus! {

/// Kind of the event that a legacy chat payload becomes.
pub const CHAT_KIND: &'static str = "chat";

/// One thing that happened on a user's channel.
#[derive(Debug, PartialEq, Eq)]
pub struct Event {
    /// What happened, as the last token of the subject names it.
    pub kind: String,
    /// The user on whose channel it happened.
    pub username: String,
    /// When it happened.
    pub timestamp: Timestamp,
    /// What the platform said of it.
    pub body: String,
}

/// A chat message in the shape that was published before events had an
/// envelope: it says whose channel, when and what, but not of which kind.
#[derive(Debug, PartialEq, Eq)]
pub struct ChatMessagePayload {
    /// The user on whose channel the message was sent.
    pub username: String,
    /// When it was sent.
    pub timestamp: Timestamp,
    /// The message.
    pub body: String,
}

/// One message of the event log as a cursor hands it out.
#[derive(Debug, PartialEq, Eq)]
pub struct Delivery {
    /// When the broker took the message; `None` where the delivery or its
    /// metadata could not be read.
    pub published: Option<Timestamp>,
    /// The payload decoded as an event, where it is one.
    pub canonical: Option<Event>,
    /// The payload decoded as a legacy chat message, where it is one.
    pub legacy: Option<ChatMessagePayload>,
}

/// What an `Event` holds.
pub struct EventView {
    pub kind: Seq<char>,
    pub username: Seq<char>,
    pub timestamp: Timestamp,
    pub body: Seq<char>,
}

/// What a `ChatMessagePayload` holds.
pub struct ChatMessageView {
    pub username: Seq<char>,
    pub timestamp: Timestamp,
    pub body: Seq<char>,
}

/// What a `Delivery` holds.
pub struct DeliveryView {
    pub published: Option<Timestamp>,
    pub canonical: Option<EventView>,
    pub legacy: Option<ChatMessageView>,
}

impl View for Event {
    type V = EventView;

    open spec fn view(&self) -> EventView {
        EventView {
            kind: self.kind@,
            username: self.username@,
            timestamp: self.timestamp,
            body: self.body@,
        }
    }
}

impl View for ChatMessagePayload {
    type V = ChatMessageView;

    open spec fn view(&self) -> ChatMessageView {
        ChatMessageView {
            username: self.username@,
            timestamp: self.timestamp,
            body: self.body@,
        }
    }
}

impl View for Delivery {
    type V = DeliveryView;

    open spec fn view(&self) -> DeliveryView {
        DeliveryView {
            published: self.published,
            canonical: match self.canonical {
                Some(event) => Some(event@),
                None => None,
            },
            legacy: match self.legacy {
                Some(message) => Some(message@),
                None => None,
            },
        }
    }
}

/// The events of `events`, each by what it holds.
pub open spec fn event_views(events: Seq<Event>) -> Seq<EventView> {
    events.map_values(|event: Event| event@)
}

/// The deliveries of `deliveries`, each by what it holds.
pub open spec fn delivery_views(deliveries: Seq<Delivery>) -> Seq<DeliveryView> {
    deliveries.map_values(|delivery: Delivery| delivery@)
}

impl ChatMessageView {
    /// The event that this legacy message stands for: a chat event on the
    /// same channel, at the same time, with the message as its body.
    pub open spec fn lifted(self) -> EventView {
        EventView {
            kind: CHAT_KIND@,
            username: self.username,
            timestamp: self.timestamp,
            body: self.body,
        }
    }
}

impl DeliveryView {
    /// When the broker took the message, where that is known and the
    /// calendar has such an instant.
    pub open spec fn instant(self) -> Option<Timestamp> {
        match self.published {
            Some(at) => if on_calendar(at.seconds as int, at.nanoseconds as int) {
                Some(at)
            } else {
                None
            },
            None => None,
        }
    }

    /// The event in the payload: the canonical one where the payload decodes
    /// as such, else the legacy chat message lifted, else none.
    pub open spec fn decoded(self) -> Option<EventView> {
        match self.canonical {
            Some(event) => Some(event),
            None => match self.legacy {
                Some(message) => Some(message.lifted()),
                None => None,
            },
        }
    }

    /// The event that a query takes from this delivery: none where the
    /// instant is unknown or the payload decodes in neither shape.
    pub open spec fn taken(self) -> Option<EventView> {
        if self.instant() is Some {
            self.decoded()
        } else {
            None
        }
    }

    /// Whether this delivery lies beyond `end_time`, so that a query stops
    /// at it: its instant is known and strictly later than the bound.
    pub open spec fn ends(self, end_time: Option<Timestamp>) -> bool {
        match (self.instant(), end_time) {
            (Some(at), Some(end)) => at.later_than(end),
            _ => false,
        }
    }
}

impl Clone for Event {
    fn clone(&self) -> (copy: Self)
        ensures
            copy@ == self@,
    {
        Event {
            kind: self.kind.clone(),
            username: self.username.clone(),
            timestamp: self.timestamp,
            body: self.body.clone(),
        }
    }
}

impl Clone for ChatMessagePayload {
    fn clone(&self) -> (copy: Self)
        ensures
            copy@ == self@,
    {
        ChatMessagePayload {
            username: self.username.clone(),
            timestamp: self.timestamp,
            body: self.body.clone(),
        }
    }
}

impl Clone for Delivery {
    fn clone(&self) -> (copy: Self)
        ensures
            copy@ == self@,
    {
        Delivery {
            published: self.published,
            canonical: match &self.canonical {
                Some(event) => Some(event.clone()),
                None => None,
            },
            legacy: match &self.legacy {
                Some(message) => Some(message.clone()),
                None => None,
            },
        }
    }
}

impl Event {
    /// Lifts a legacy chat message into the event that it stands for.
    pub fn lift(message: ChatMessagePayload) -> (event: Event)
        ensures
            event@ == message@.lifted(),
    {
        Event {
            kind: String::from_str(CHAT_KIND),
            username: message.username,
            timestamp: message.timestamp,
            body: message.body,
        }
    }
}

impl Delivery {
    /// When the broker took the message, where that is known and the
    /// calendar has such an instant.
    pub fn instant(&self) -> (at: Option<Timestamp>)
        ensures
            at == self@.instant(),
    {
        match self.published {
            Some(at) => Timestamp::from_timestamp(at.seconds, at.nanoseconds),
            None => None,
        }
    }

    /// The event in the payload: the canonical one, else the legacy chat
    /// message lifted, else none.
    pub fn decode(&self) -> (event: Option<Event>)
        ensures
            match event {
                Some(event) => self@.decoded() == Some(event@),
                None => self@.decoded() is None,
            },
    {
        match &self.canonical {
            Some(event) => Some(event.clone()),
            None => match &self.legacy {
                Some(message) => Some(Event::lift(message.clone())),
                None => None,
            },
        }
    }

    /// Whether a query bounded by `end_time` stops at this delivery.
    pub fn is_past(&self, end_time: Option<Timestamp>) -> (past: bool)
        ensures
            past == self@.ends(end_time),
    {
        match (self.instant(), end_time) {
            (Some(at), Some(end)) => at.is_after(&end),
            _ => false,
        }
    }
}

} // verus!
