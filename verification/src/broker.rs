//! What is asked of the broker: the description of a log, of a cursor over
//! it, and of a log's removal.
use crate::timestamp::Timestamp;
use vstd::prelude::*;

verus! {

/// How often the broker hands out one message before it gives the message up.
pub const MAX_DELIVERY_ATTEMPTS: i64 = 3;

/// Seconds that the event log keeps a message: thirty days.
pub const EVENT_RETENTION_SECONDS: u64 = 60 * 60 * 24 * 30;

/// Retention of a log that keeps its messages until they are consumed.
pub const KEEP_FOREVER: u64 = 0;

/// A durable log as the broker is asked to provision it.
#[derive(Clone, Debug, PartialEq, Eq)]
pub struct LogDescriptor {
    /// Name by which the log is found again.
    pub name: String,
    /// Subject patterns that the log takes; a producer's subject has to
    /// match one of them.
    pub subjects: Vec<String>,
    /// What the log is for.
    pub description: Option<String>,
    /// Seconds after which a message expires; `KEEP_FOREVER` for none.
    pub max_age_seconds: u64,
}

/// From where a new cursor reads.
#[derive(Clone, Copy, Debug, PartialEq, Eq, Structural)]
pub enum DeliveryPolicy {
    /// Messages published from now on.
    FromNow,
    /// Messages that the broker took at the given instant or later.
    FromTimestamp(Timestamp),
}

/// Whether the broker waits for a delivery to be acknowledged.
#[derive(Clone, Copy, Debug, PartialEq, Eq, Structural)]
pub enum AckPolicy {
    /// Each delivery is acknowledged or refused; a refused one comes again.
    Explicit,
    /// Deliveries are read-only views: nothing is acknowledged, and reading
    /// changes nothing for other readers.
    Never,
}

/// A pull cursor over a log as the broker is asked to provision it.
#[derive(Clone, Debug, PartialEq, Eq)]
pub struct ConsumerCursor {
    /// With a name the cursor's position outlives the process and is shared
    /// by the workers that use the name; without one it is private and
    /// discarded after use.
    pub durable_name: Option<String>,
    /// Subject pattern of the messages that the cursor yields.
    pub filter_subject: String,
    /// From where the cursor reads.
    pub delivery_policy: DeliveryPolicy,
    /// Whether deliveries are acknowledged.
    pub ack_policy: AckPolicy,
    /// How often the broker hands out one message before it gives it up.
    pub max_delivery_attempts: i64,
}

/// A message as the broker is asked to append it.
#[derive(Clone, Debug, PartialEq, Eq)]
pub struct Publication {
    /// Subject under which the message is filed.
    pub subject: String,
    /// The message's bytes.
    pub payload: Vec<u8>,
}

/// What the broker answered when it was asked whether a log exists.
#[derive(Clone, Debug, PartialEq, Eq)]
pub enum Lookup {
    /// The log exists.
    Found,
    /// The broker answered that it has no log of that name.
    NotFound,
    /// The broker could not be asked, or failed otherwise; its words.
    Failed(String),
}

/// What to do about a log that is to be deleted, once the broker has been
/// asked whether the log exists.
#[derive(Clone, Debug, PartialEq, Eq)]
pub enum Teardown {
    /// The log exists: ask the broker to remove it.
    Remove,
    /// The log does not exist: ask nothing, warn, and succeed.
    Absent,
    /// Whether the log exists is not known, the lookup having failed: ask
    /// nothing and fail with the broker's words.
    Unknown(String),
}

impl Teardown {
    /// The decision: a log is removed where it was found and left alone
    /// where there is none; a lookup that failed decides nothing.
    pub open spec fn decided(lookup: Lookup) -> Teardown {
        match lookup {
            Lookup::Found => Teardown::Remove,
            Lookup::NotFound => Teardown::Absent,
            Lookup::Failed(reason) => Teardown::Unknown(reason),
        }
    }

    /// How the deletion ends, `removal` being the broker's answer to the
    /// removal where one was asked: a removal gives what the broker
    /// answered, an absent log gives success and a failed lookup its
    /// failure, both whatever `removal` holds.
    pub open spec fn outcome(self, removal: Result<(), String>) -> Result<(), String> {
        match self {
            Teardown::Remove => removal,
            Teardown::Absent => Ok(()),
            Teardown::Unknown(reason) => Err(reason),
        }
    }

    /// Decides what to do about a log, `lookup` being the broker's answer
    /// to the question whether it exists.
    pub fn decide(lookup: Lookup) -> (teardown: Teardown)
        ensures
            teardown == Teardown::decided(lookup),
    {
        match lookup {
            Lookup::Found => Teardown::Remove,
            Lookup::NotFound => Teardown::Absent,
            Lookup::Failed(reason) => Teardown::Unknown(reason),
        }
    }

    /// Ends the deletion; see `outcome`.
    pub fn finish(self, removal: Result<(), String>) -> (r: Result<(), String>)
        ensures
            r == self.outcome(removal),
    {
        match self {
            Teardown::Remove => removal,
            Teardown::Absent => Ok(()),
            Teardown::Unknown(reason) => Err(reason),
        }
    }
}

/// Where the log to delete does not exist, nothing is asked of the broker
/// and the deletion succeeds, whatever a removal would have answered.
pub proof fn lemma_absent_log_is_left_alone(removal: Result<(), String>)
    ensures
        Teardown::decided(Lookup::NotFound) == Teardown::Absent,
        Teardown::decided(Lookup::NotFound).outcome(removal) == Ok::<(), String>(()),
{
}

/// A deletion succeeds only where the log was found to be absent, or was
/// found and the broker removed it; a lookup or a removal that failed
/// reaches the caller with the broker's words.
pub proof fn lemma_deletion_succeeds_only_without_the_log(
    lookup: Lookup,
    removal: Result<(), String>,
)
    ensures
        Teardown::decided(lookup).outcome(removal) is Ok <==> lookup == Lookup::NotFound || (lookup
            == Lookup::Found && removal is Ok),
        lookup matches Lookup::Failed(reason) ==> Teardown::decided(lookup).outcome(removal)
            == Err::<(), String>(reason),
        lookup == Lookup::Found ==> Teardown::decided(lookup).outcome(removal) == removal,
{
}

} // verus!
