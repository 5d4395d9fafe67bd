//! Collectors: what decides whether an event is collected, and whether a
//! collector goes on.
//!
//! A collector is a callback that a shard calls for each event. The filters
//! here say which events pass; [`collect`] says whether the callback stays
//! registered.

use crate::model::id::{ChannelId, GuildId, MessageId, UserId};
use vstd::prelude::*;

verus! {

/// Decides whether a collector goes on after an event. `delivered` is what
/// became of the event: nothing if the extractor did not take it, else
/// whether the item could be handed to the receiving side. A collector whose
/// item could not be delivered stops; one that took nothing goes on as long
/// as the receiving side is there.
pub fn collect(delivered: Option<bool>, receiver_closed: bool) -> (stays: bool)
    ensures
        stays == (match delivered {
            Some(sent) => sent,
            None => !receiver_closed,
        }),
{
    match delivered {
        Some(sent) => sent,
        None => !receiver_closed,
    }
}

/// Whether an optional id, if there is one, is the wanted one.
pub open spec fn none_or_is<T>(id: Option<T>, wanted: T) -> bool {
    match id {
        Some(x) => x == wanted,
        None => true,
    }
}

/// What a collected event is compared by: who caused it and where.
#[derive(Clone, Copy, Debug, PartialEq, Eq, Structural)]
pub struct EventOrigin {
    pub author_id: Option<UserId>,
    pub channel_id: ChannelId,
    pub guild_id: Option<GuildId>,
    pub message_id: Option<MessageId>,
}

/// The built-in filters of a collector. A filter that is not set lets every
/// event pass.
#[derive(Clone, Copy, Debug, PartialEq, Eq, Structural)]
#[must_use]
pub struct CollectorFilters {
    pub author_id: Option<UserId>,
    pub channel_id: Option<ChannelId>,
    pub guild_id: Option<GuildId>,
    pub message_id: Option<MessageId>,
}

impl CollectorFilters {
    /// No filter set.
    pub fn new() -> (f: Self)
        ensures
            f == (CollectorFilters { author_id: None, channel_id: None, guild_id: None, message_id: None }),
            forall|origin: EventOrigin| f.lets_pass(origin),
    {
        CollectorFilters { author_id: None, channel_id: None, guild_id: None, message_id: None }
    }

    /// Lets only events of this author pass.
    pub fn author_id(self, author_id: UserId) -> (f: Self)
        ensures
            f == (CollectorFilters { author_id: Some(author_id), ..self }),
    {
        CollectorFilters { author_id: Some(author_id), ..self }
    }

    /// Lets only events in this channel pass.
    pub fn channel_id(self, channel_id: ChannelId) -> (f: Self)
        ensures
            f == (CollectorFilters { channel_id: Some(channel_id), ..self }),
    {
        CollectorFilters { channel_id: Some(channel_id), ..self }
    }

    /// Lets only events in this guild pass, and those that are in no guild.
    pub fn guild_id(self, guild_id: GuildId) -> (f: Self)
        ensures
            f == (CollectorFilters { guild_id: Some(guild_id), ..self }),
    {
        CollectorFilters { guild_id: Some(guild_id), ..self }
    }

    /// Lets only events on this message pass, and those that are on no
    /// message.
    pub fn message_id(self, message_id: MessageId) -> (f: Self)
        ensures
            f == (CollectorFilters { message_id: Some(message_id), ..self }),
    {
        CollectorFilters { message_id: Some(message_id), ..self }
    }

    /// Whether an event passes every filter that is set. An event that does
    /// not name its author, guild or message passes the filter for it.
    pub open spec fn lets_pass(self, origin: EventOrigin) -> bool {
        &&& self.author_id matches Some(wanted) ==> none_or_is(origin.author_id, wanted)
        &&& self.channel_id matches Some(wanted) ==> origin.channel_id == wanted
        &&& self.guild_id matches Some(wanted) ==> none_or_is(origin.guild_id, wanted)
        &&& self.message_id matches Some(wanted) ==> none_or_is(origin.message_id, wanted)
    }

    /// Checks an event against every filter that is set.
    pub fn filters_pass(&self, origin: &EventOrigin) -> (passes: bool)
        ensures
            passes == self.lets_pass(*origin),
    {
        if let Some(wanted) = self.author_id {
            if let Some(author) = origin.author_id {
                if author != wanted {
                    return false;
                }
            }
        }
        if let Some(wanted) = self.channel_id {
            if origin.channel_id != wanted {
                return false;
            }
        }
        if let Some(wanted) = self.guild_id {
            if let Some(guild) = origin.guild_id {
                if guild != wanted {
                    return false;
                }
            }
        }
        if let Some(wanted) = self.message_id {
            if let Some(message) = origin.message_id {
                if message != wanted {
                    return false;
                }
            }
        }
        true
    }
}

} // verus!
