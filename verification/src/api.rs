//! What the HTTP layer exchanges with its callers, and whom it turns away.
use crate::event::Event;
use vstd::prelude::*;
use vstd::string::*;

verus! {

/// Status of an answer.
#[derive(Clone, Copy, Debug, PartialEq, Eq, Structural)]
pub enum Status {
    /// The caller is not known or not entitled.
    Unauthorized,
    /// The caller is known and may not have what was asked for.
    Forbidden,
    /// What was asked for does not exist.
    NotFound,
    /// The service failed.
    InternalServerError,
}

/// Why a request is turned away.
#[derive(Clone, Copy, Debug, PartialEq, Eq, Structural)]
pub enum Refusal {
    /// Events were asked for and nobody is signed in.
    Unauthorized,
    /// The events of another user were asked for.
    Forbidden,
    /// The stream of another user was asked for.
    NotOwner,
    /// Nobody is signed in where an admin has to be.
    Unauthenticated,
    /// The caller is signed in and no admin.
    NotPermitted,
    /// No user of the name that was asked for is known.
    UserNotFound,
    /// No stream of the id that was asked for is known.
    StreamNotFound,
    /// Streams were asked for and nobody is signed in.
    UserMissing,
    /// The event log failed to answer.
    EventsFailed,
    /// No token could be issued.
    TokenFailed,
}

impl Status {
    /// The number that stands for the status on the wire.
    pub open spec fn code_of(self) -> int {
        match self {
            Status::Unauthorized => 401,
            Status::Forbidden => 403,
            Status::NotFound => 404,
            Status::InternalServerError => 500,
        }
    }

    /// The number that stands for the status on the wire.
    pub fn code(&self) -> (code: u16)
        ensures
            code == self.code_of(),
    {
        match self {
            Status::Unauthorized => 401,
            Status::Forbidden => 403,
            Status::NotFound => 404,
            Status::InternalServerError => 500,
        }
    }
}

impl Refusal {
    /// The status that goes with the refusal.
    pub open spec fn status_of(self) -> Status {
        match self {
            Refusal::Unauthorized => Status::Unauthorized,
            Refusal::Forbidden => Status::Forbidden,
            Refusal::NotOwner => Status::Forbidden,
            Refusal::Unauthenticated => Status::Unauthorized,
            Refusal::NotPermitted => Status::Unauthorized,
            Refusal::UserNotFound => Status::NotFound,
            Refusal::StreamNotFound => Status::NotFound,
            Refusal::UserMissing => Status::InternalServerError,
            Refusal::EventsFailed => Status::InternalServerError,
            Refusal::TokenFailed => Status::InternalServerError,
        }
    }

    /// The words that go with the refusal.
    pub open spec fn text_of(self) -> Seq<char> {
        match self {
            Refusal::Unauthorized => "Unauthorized"@,
            Refusal::Forbidden => "Forbidden"@,
            Refusal::NotOwner => "You do not own this stream"@,
            Refusal::Unauthenticated => "Authentication required"@,
            Refusal::NotPermitted => "User does not have required permissions"@,
            Refusal::UserNotFound => "User not found"@,
            Refusal::StreamNotFound => "Stream not found"@,
            Refusal::UserMissing => "User not found"@,
            Refusal::EventsFailed => "Failed to fetch events"@,
            Refusal::TokenFailed => "Failed to encode JWT"@,
        }
    }

    /// The status that goes with the refusal.
    pub fn status(&self) -> (status: Status)
        ensures
            status == self.status_of(),
    {
        match self {
            Refusal::Unauthorized => Status::Unauthorized,
            Refusal::Forbidden => Status::Forbidden,
            Refusal::NotOwner => Status::Forbidden,
            Refusal::Unauthenticated => Status::Unauthorized,
            Refusal::NotPermitted => Status::Unauthorized,
            Refusal::UserNotFound => Status::NotFound,
            Refusal::StreamNotFound => Status::NotFound,
            Refusal::UserMissing => Status::InternalServerError,
            Refusal::EventsFailed => Status::InternalServerError,
            Refusal::TokenFailed => Status::InternalServerError,
        }
    }

    /// The words that go with the refusal.
    pub fn text(&self) -> (text: &'static str)
        ensures
            text@ == self.text_of(),
    {
        match self {
            Refusal::Unauthorized => "Unauthorized",
            Refusal::Forbidden => "Forbidden",
            Refusal::NotOwner => "You do not own this stream",
            Refusal::Unauthenticated => "Authentication required",
            Refusal::NotPermitted => "User does not have required permissions",
            Refusal::UserNotFound => "User not found",
            Refusal::StreamNotFound => "Stream not found",
            Refusal::UserMissing => "User not found",
            Refusal::EventsFailed => "Failed to fetch events",
            Refusal::TokenFailed => "Failed to encode JWT",
        }
    }
}

/// Whether `caller` may read the events of the user `requested`: a caller
/// who is not signed in is unauthorized, one who asks for another user's
/// events is forbidden.
pub fn may_read_events(caller: Option<&String>, requested: &String) -> (r: Result<(), Refusal>)
    ensures
        r == (match caller {
            None => Err::<(), Refusal>(Refusal::Unauthorized),
            Some(caller) => if caller@ == requested@ {
                Ok::<(), Refusal>(())
            } else {
                Err::<(), Refusal>(Refusal::Forbidden)
            },
        }),
{
    match caller {
        None => Err(Refusal::Unauthorized),
        Some(caller) => if *caller == *requested {
            Ok(())
        } else {
            Err(Refusal::Forbidden)
        },
    }
}

/// Whether the caller with the id `caller` may see the stream of the user
/// with the id `owner`: only the owner may.
pub fn may_see_stream(caller: u128, owner: u128) -> (r: Result<(), Refusal>)
    ensures
        r == (if caller == owner {
            Ok::<(), Refusal>(())
        } else {
            Err::<(), Refusal>(Refusal::NotOwner)
        }),
{
    if caller == owner {
        Ok(())
    } else {
        Err(Refusal::NotOwner)
    }
}

/// Whether the caller may act as another user; `caller` says whether the
/// caller is an admin, and is `None` where nobody is signed in. Only an
/// admin may.
pub fn may_shadow(caller: Option<bool>) -> (r: Result<(), Refusal>)
    ensures
        r == (match caller {
            None => Err::<(), Refusal>(Refusal::Unauthenticated),
            Some(admin) => if admin {
                Ok::<(), Refusal>(())
            } else {
                Err::<(), Refusal>(Refusal::NotPermitted)
            },
        }),
{
    match caller {
        None => Err(Refusal::Unauthenticated),
        Some(admin) => if admin {
            Ok(())
        } else {
            Err(Refusal::NotPermitted)
        },
    }
}

/// Whether `char::is_whitespace` holds of `c`: whether the character has
/// the white space property of Unicode.
pub uninterp spec fn white_space(c: char) -> bool;

/// Calls `char::is_whitespace`. The contract gives its result the name
/// `white_space` and claims nothing else of it.
#[verifier::external_body]
fn is_white_space(c: char) -> (r: bool)
    ensures
        r == white_space(c),
{
    c.is_whitespace()
}

/// For each character of `text` whether it is white space.
pub open spec fn spaces_of(text: Seq<char>) -> Seq<bool> {
    text.map_values(|c: char| white_space(c))
}

/// The first place at or after `from` that holds `space`, or the end of
/// `spaces`.
pub open spec fn next_place(spaces: Seq<bool>, from: int, space: bool) -> int
    decreases spaces.len() - from,
{
    if 0 <= from < spaces.len() && spaces[from] != space {
        next_place(spaces, from + 1, space)
    } else {
        from
    }
}

/// Where the second word of a text begins and where it ends, `spaces`
/// saying of each character whether it is white space; a word is a longest
/// run of characters that are none. None where the text has fewer than two
/// words.
pub open spec fn second_word_of(spaces: Seq<bool>) -> Option<(int, int)> {
    let first = next_place(spaces, 0, false);
    let gap = next_place(spaces, first, true);
    let start = next_place(spaces, gap, false);
    if 0 <= start < spaces.len() {
        Some((start, next_place(spaces, start, true)))
    } else {
        None
    }
}

/// The place that `next_place` finds is not before the one it starts from.
proof fn lemma_next_place_is_later(spaces: Seq<bool>, from: int, space: bool)
    ensures
        next_place(spaces, from, space) >= from,
    decreases spaces.len() - from,
{
    if 0 <= from < spaces.len() && spaces[from] != space {
        lemma_next_place_is_later(spaces, from + 1, space);
    }
}

/// The first place at or after `from` that holds `space`, or the end of
/// `spaces`.
fn seek(spaces: &Vec<bool>, from: usize, space: bool) -> (to: usize)
    requires
        from <= spaces.len(),
    ensures
        from <= to <= spaces.len(),
        to == next_place(spaces@, from as int, space),
        to < spaces.len() ==> spaces@[to as int] == space,
{
    let mut to = from;
    while to < spaces.len() && spaces[to] != space
        invariant
            from <= to <= spaces.len(),
            next_place(spaces@, from as int, space) == next_place(spaces@, to as int, space),
        decreases spaces.len() - to,
    {
        to += 1;
    }
    to
}

/// Where the second word of a text begins and where it ends; see
/// `second_word_of`.
pub fn second_word(spaces: &Vec<bool>) -> (word: Option<(usize, usize)>)
    ensures
        match word {
            Some((start, end)) => second_word_of(spaces@) == Some((start as int, end as int))
                && start < end <= spaces.len(),
            None => second_word_of(spaces@) is None,
        },
{
    let first = seek(spaces, 0, false);
    let gap = seek(spaces, first, true);
    let start = seek(spaces, gap, false);
    if start < spaces.len() {
        let end = seek(spaces, start, true);
        assert(start < end) by {
            assert(next_place(spaces@, start as int, true) == next_place(
                spaces@,
                start + 1,
                true,
            ));
            assert(next_place(spaces@, start + 1, true) >= start + 1) by {
                lemma_next_place_is_later(spaces@, start + 1, true);
            }
        }
        Some((start, end))
    } else {
        None
    }
}

/// The token of an authorization header of the form `Bearer <token>`: the
/// second word of the header, whatever the first; none where the header has
/// fewer than two words.
pub fn bearer_token(header: &str) -> (token: Option<String>)
    ensures
        match second_word_of(spaces_of(header@)) {
            Some((start, end)) => token is Some && token->Some_0@ == header@.subrange(start, end),
            None => token is None,
        },
{
    let len = header.unicode_len();
    let mut spaces: Vec<bool> = Vec::new();
    let mut i: usize = 0;
    while i < len
        invariant
            len == header@.len(),
            i <= len,
            spaces@ =~= spaces_of(header@).take(i as int),
        decreases len - i,
    {
        spaces.push(is_white_space(header.get_char(i)));
        i += 1;
    }
    assert(spaces@ =~= spaces_of(header@));
    match second_word(&spaces) {
        Some((start, end)) => Some(String::from_str(header.substring_char(start, end))),
        None => None,
    }
}

/// Body of the answer to a query for a user's events.
#[derive(Debug, PartialEq, Eq)]
pub struct EventResponse {
    /// The events, in publish order.
    pub events: Vec<Event>,
}

/// Body of a request to act as another user.
#[derive(Debug, PartialEq, Eq)]
pub struct ShadowUserParams {
    username: String,
}

/// Body of the answer to such a request.
#[derive(Debug, PartialEq, Eq)]
pub struct ShadowUserResponse {
    token: String,
}

impl View for ShadowUserParams {
    type V = Seq<char>;

    /// The name of the user to act as.
    closed spec fn view(&self) -> Seq<char> {
        self.username@
    }
}

impl View for ShadowUserResponse {
    type V = Seq<char>;

    /// The token issued for the user.
    closed spec fn view(&self) -> Seq<char> {
        self.token@
    }
}

impl ShadowUserParams {
    /// A request to act as `username`.
    pub fn new(username: String) -> (params: ShadowUserParams)
        ensures
            params@ == username@,
    {
        ShadowUserParams { username }
    }

    /// The name of the user to act as.
    pub fn username(&self) -> (username: &String)
        ensures
            username@ == self@,
    {
        &self.username
    }
}

impl ShadowUserResponse {
    /// The answer that hands out `token`.
    pub fn new(token: String) -> (response: ShadowUserResponse)
        ensures
            response@ == token@,
    {
        ShadowUserResponse { token }
    }

    /// The token issued for the user.
    pub fn token(&self) -> (token: &String)
        ensures
            token@ == self@,
    {
        &self.token
    }
}

} // verus!
