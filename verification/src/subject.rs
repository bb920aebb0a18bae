//! Subjects: the dot-delimited names under which messages are published and
//! by which cursors filter them.
use vstd::prelude::*;
use vstd::string::StringExecFns;

verus! {

/// First token of every subject of this system.
pub const MESSAGE_PREFIX: &'static str = "farmhand";

/// Token under which events are published.
pub const EVENT_PREFIX: &'static str = "events";

/// Token under which jobs are published.
pub const JOB_PREFIX: &'static str = "jobs";

/// Subject of the jobs of one kind: `<message prefix>.jobs.<job kind>`.
pub open spec fn job_subject_of(job_kind: Seq<char>) -> Seq<char> {
    MESSAGE_PREFIX@ + "."@ + JOB_PREFIX@ + "."@ + job_kind
}

/// Filter that matches the jobs of every kind: `<message prefix>.jobs.>`.
pub open spec fn all_jobs_filter() -> Seq<char> {
    MESSAGE_PREFIX@ + "."@ + JOB_PREFIX@ + ".>"@
}

/// Subject of one kind of event of one user:
/// `<message prefix>.<event prefix>.twitch.events.<username>.<event kind>`.
pub open spec fn user_event_subject_of(username: Seq<char>, event_kind: Seq<char>) -> Seq<char> {
    MESSAGE_PREFIX@ + "."@ + EVENT_PREFIX@ + ".twitch.events."@ + username + "."@ + event_kind
}

/// Filter that matches every event of one user:
/// `<message prefix>.<event prefix>.twitch.events.<username>.>`.
pub open spec fn user_events_filter(username: Seq<char>) -> Seq<char> {
    MESSAGE_PREFIX@ + "."@ + EVENT_PREFIX@ + ".twitch.events."@ + username + ".>"@
}

/// The subject on which a job of kind `job_kind` is published.
pub fn job_subject(job_kind: &str) -> (subject: String)
    ensures
        subject@ == job_subject_of(job_kind@),
{
    let mut subject = String::from_str(MESSAGE_PREFIX);
    subject.append(".");
    subject.append(JOB_PREFIX);
    subject.append(".");
    subject.append(job_kind);
    subject
}

/// The filter by which a worker listens for the jobs of every kind.
pub fn all_jobs_subject() -> (subject: String)
    ensures
        subject@ == all_jobs_filter(),
{
    let mut subject = String::from_str(MESSAGE_PREFIX);
    subject.append(".");
    subject.append(JOB_PREFIX);
    subject.append(".>");
    subject
}

/// The subject on which an event of kind `event_kind` of `username` is
/// published.
pub fn user_event_subject(username: &str, event_kind: &str) -> (subject: String)
    ensures
        subject@ == user_event_subject_of(username@, event_kind@),
{
    let mut subject = String::from_str(MESSAGE_PREFIX);
    subject.append(".");
    subject.append(EVENT_PREFIX);
    subject.append(".twitch.events.");
    subject.append(username);
    subject.append(".");
    subject.append(event_kind);
    subject
}

/// The filter by which a query reads every event of `username`.
pub fn all_user_events_subject(username: &str) -> (subject: String)
    ensures
        subject@ == user_events_filter(username@),
{
    let mut subject = String::from_str(MESSAGE_PREFIX);
    subject.append(".");
    subject.append(EVENT_PREFIX);
    subject.append(".twitch.events.");
    subject.append(username);
    subject.append(".>");
    subject
}

} // verus!
