//! Where a listing starts: after, before or around an id.

use crate::model::id::{GuildId, MessageId, UserId};
use vstd::prelude::*;

verus! {

/// Where a listing of guilds starts.
#[derive(Clone, Copy, Debug, PartialEq, Eq, Structural)]
pub enum GuildPagination {
    /// The guilds after the id.
    After(GuildId),
    /// The guilds before the id.
    Before(GuildId),
}

impl GuildPagination {
    /// The name of the query parameter.
    pub open spec fn key(self) -> Seq<char> {
        match self {
            GuildPagination::After(_) => "after"@,
            GuildPagination::Before(_) => "before"@,
        }
    }

    /// The id that the listing starts from.
    pub open spec fn id(self) -> u64 {
        match self {
            GuildPagination::After(id) => id.0,
            GuildPagination::Before(id) => id.0,
        }
    }

    /// The name of the query parameter and the id that it carries.
    pub fn parts(self) -> (p: (&'static str, u64))
        ensures
            p.0@ == self.key(),
            p.1 == self.id(),
    {
        match self {
            GuildPagination::After(id) => ("after", id.get()),
            GuildPagination::Before(id) => ("before", id.get()),
        }
    }
}

/// Where a listing of users starts.
#[derive(Clone, Copy, Debug, PartialEq, Eq, Structural)]
pub enum UserPagination {
    /// The users after the id.
    After(UserId),
    /// The users before the id.
    Before(UserId),
}

impl UserPagination {
    /// The name of the query parameter.
    pub open spec fn key(self) -> Seq<char> {
        match self {
            UserPagination::After(_) => "after"@,
            UserPagination::Before(_) => "before"@,
        }
    }

    /// The id that the listing starts from.
    pub open spec fn id(self) -> u64 {
        match self {
            UserPagination::After(id) => id.0,
            UserPagination::Before(id) => id.0,
        }
    }

    /// The name of the query parameter and the id that it carries.
    pub fn parts(self) -> (p: (&'static str, u64))
        ensures
            p.0@ == self.key(),
            p.1 == self.id(),
    {
        match self {
            UserPagination::After(id) => ("after", id.get()),
            UserPagination::Before(id) => ("before", id.get()),
        }
    }
}

/// Where a listing of messages starts.
#[derive(Clone, Copy, Debug, PartialEq, Eq, Structural)]
pub enum MessagePagination {
    /// The messages after the id.
    After(MessageId),
    /// The messages around the id.
    Around(MessageId),
    /// The messages before the id.
    Before(MessageId),
}

impl MessagePagination {
    /// The name of the query parameter.
    pub open spec fn key(self) -> Seq<char> {
        match self {
            MessagePagination::After(_) => "after"@,
            MessagePagination::Around(_) => "around"@,
            MessagePagination::Before(_) => "before"@,
        }
    }

    /// The id that the listing starts from.
    pub open spec fn id(self) -> u64 {
        match self {
            MessagePagination::After(id) => id.0,
            MessagePagination::Around(id) => id.0,
            MessagePagination::Before(id) => id.0,
        }
    }

    /// The name of the query parameter and the id that it carries.
    pub fn parts(self) -> (p: (&'static str, u64))
        ensures
            p.0@ == self.key(),
            p.1 == self.id(),
    {
        match self {
            MessagePagination::After(id) => ("after", id.get()),
            MessagePagination::Around(id) => ("around", id.get()),
            MessagePagination::Before(id) => ("before", id.get()),
        }
    }
}

} // verus!
