//! Channels and what happens in them.

pub mod reaction;

use crate::model::id::{ChannelId, GuildId, RoleId, UserId};
use crate::model::permissions::Permissions;
use vstd::prelude::*;

verus! {

/// The kind of a channel.
#[derive(Clone, Copy, Debug, PartialEq, Eq, Structural, Hash)]
pub enum ChannelType {
    /// A text channel in a guild.
    Text,
    /// A direct message channel.
    Private,
    /// A voice channel in a guild.
    Voice,
    /// A direct message channel of a group.
    GroupDm,
    /// A category that holds channels.
    Category,
    /// A channel whose messages can be followed.
    News,
    /// A thread in a news channel.
    NewsThread,
    /// A public thread.
    PublicThread,
    /// A private thread.
    PrivateThread,
    /// A stage channel.
    Stage,
    /// A directory of hub guilds.
    Directory,
    /// A forum channel.
    Forum,
    /// A kind that this library has no name for.
    Unknown(u8),
}

/// Whom a permission overwrite is for.
#[derive(Clone, Copy, Debug, PartialEq, Eq, Structural, Hash)]
pub enum PermissionOverwriteType {
    /// For one member.
    Member(UserId),
    /// For one role. The role with the id of the guild is everyone.
    Role(RoleId),
}

/// An overwrite of permissions in one channel.
#[derive(Clone, Copy, Debug, PartialEq, Eq, Structural, Hash)]
pub struct PermissionOverwrite {
    pub allow: Permissions,
    pub deny: Permissions,
    pub kind: PermissionOverwriteType,
}

/// A channel of a guild.
#[derive(Clone, Debug)]
pub struct GuildChannel {
    /// The id of the channel.
    pub id: ChannelId,
    /// The guild that the channel belongs to.
    pub guild_id: GuildId,
    /// The kind of the channel.
    pub kind: ChannelType,
    /// The name of the channel.
    pub name: String,
    /// The overwrites of permissions in the channel.
    pub permission_overwrites: Vec<PermissionOverwrite>,
}

impl GuildChannel {
    /// A copy of the channel.
    pub fn duplicate(&self) -> (c: GuildChannel)
        ensures
            c.id == self.id,
            c.guild_id == self.guild_id,
            c.kind == self.kind,
            c.name == self.name,
            c.permission_overwrites@ == self.permission_overwrites@,
    {
        GuildChannel {
            id: self.id,
            guild_id: self.guild_id,
            kind: self.kind,
            name: self.name.clone(),
            permission_overwrites: self.permission_overwrites.clone(),
        }
    }

    /// Whether `other` is this channel or a copy of it.
    pub open spec fn same_as(self, other: GuildChannel) -> bool {
        &&& other.id == self.id
        &&& other.guild_id == self.guild_id
        &&& other.kind == self.kind
        &&& other.name == self.name
        &&& other.permission_overwrites@ == self.permission_overwrites@
    }
}

} // verus!
