//! Streams as the storage layer records them.
use crate::timestamp::Timestamp;
use vstd::prelude::*;

verus! {

/// One broadcast of a user.
#[derive(Debug, PartialEq, Eq)]
pub struct Stream {
    /// The stream's id.
    pub id: u128,
    /// The id of the user who broadcasts.
    pub user_id: u128,
    /// When the broadcast began.
    pub start_time: Timestamp,
    /// When it ended; `None` while it is live.
    pub end_time: Option<Timestamp>,
    /// The video that holds the broadcast, once there is one.
    pub video_id: Option<String>,
    /// The games that were played, where known.
    pub games: Option<Vec<String>>,
    /// When the record was made.
    pub created_at: Timestamp,
    /// When the record was last changed.
    pub updated_at: Timestamp,
}

impl Stream {
    /// The record of a broadcast of `user_id` that began at `start_time`,
    /// not yet stored: it is live and has no video and no games.
    pub fn new(
        id: u128,
        user_id: u128,
        start_time: Timestamp,
        created_at: Timestamp,
        updated_at: Timestamp,
    ) -> (stream: Stream)
        ensures
            stream == (Stream {
                id,
                user_id,
                start_time,
                end_time: None,
                video_id: None,
                games: None,
                created_at,
                updated_at,
            }),
    {
        Stream {
            id,
            user_id,
            start_time,
            end_time: None,
            video_id: None,
            games: None,
            created_at,
            updated_at,
        }
    }

    /// Records that the broadcast ended at `end_time`, the store having
    /// taken the change `now`.
    pub fn end_stream(&mut self, end_time: Timestamp, now: Timestamp)
        ensures
            *final(self) == (Stream { end_time: Some(end_time), updated_at: now, ..*old(self) }),
    {
        self.end_time = Some(end_time);
        self.updated_at = now;
    }

    /// Records that `video_id` holds the broadcast, the store having taken
    /// the change `now`.
    pub fn set_video(&mut self, video_id: String, now: Timestamp)
        ensures
            *final(self) == (Stream { video_id: Some(video_id), updated_at: now, ..*old(self) }),
    {
        self.video_id = Some(video_id);
        self.updated_at = now;
    }
}

} // verus!
