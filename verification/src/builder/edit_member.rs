//! The builder for editing a member of a guild.

use crate::model::guild::member::GuildMemberFlags;
use crate::model::id::{ChannelId, RoleId};
use crate::model::timestamp::Timestamp;
use std::borrow::Cow;
use vstd::prelude::*;

verus! {

/// A builder for editing a member of a guild. Only the fields that were set
/// are sent.
#[derive(Clone, Debug)]
#[must_use]
pub struct EditMember<'a> {
    pub deaf: Option<bool>,
    pub mute: Option<bool>,
    pub nick: Option<Cow<'a, str>>,
    pub roles: Option<Vec<RoleId>>,
    /// The voice channel to move the member to; `Some(None)` takes the member
    /// out of voice.
    pub channel_id: Option<Option<ChannelId>>,
    /// Until when the member is timed out; `Some(None)` ends the timeout.
    pub communication_disabled_until: Option<Option<Timestamp>>,
    pub flags: Option<GuildMemberFlags>,
    pub audit_log_reason: Option<&'a str>,
}

impl<'a> EditMember<'a> {
    /// Whether no field is set.
    pub open spec fn is_blank(self) -> bool {
        &&& self.deaf is None
        &&& self.mute is None
        &&& self.nick is None
        &&& self.roles is None
        &&& self.channel_id is None
        &&& self.communication_disabled_until is None
        &&& self.flags is None
        &&& self.audit_log_reason is None
    }

    /// A builder with no field set.
    pub fn new() -> (b: Self)
        ensures
            b.is_blank(),
    {
        EditMember {
            deaf: None,
            mute: None,
            nick: None,
            roles: None,
            channel_id: None,
            communication_disabled_until: None,
            flags: None,
            audit_log_reason: None,
        }
    }

    /// Sets whether the member is deafened.
    pub fn deafen(self, deafen: bool) -> (b: Self)
        ensures
            b == (EditMember { deaf: Some(deafen), ..self }),
    {
        let mut b = self;
        b.deaf = Some(deafen);
        b
    }

    /// Sets whether the member is muted.
    pub fn mute(self, mute: bool) -> (b: Self)
        ensures
            b == (EditMember { mute: Some(mute), ..self }),
    {
        let mut b = self;
        b.mute = Some(mute);
        b
    }

    /// Sets the nickname of the member; an empty one removes it.
    pub fn nickname(self, nickname: Cow<'a, str>) -> (b: Self)
        ensures
            b == (EditMember { nick: Some(nickname), ..self }),
    {
        let mut b = self;
        b.nick = Some(nickname);
        b
    }

    /// Sets the roles of the member.
    pub fn roles(self, roles: Vec<RoleId>) -> (b: Self)
        ensures
            b == (EditMember { roles: Some(roles), ..self }),
    {
        let mut b = self;
        b.roles = Some(roles);
        b
    }

    /// Moves the member to a voice channel.
    pub fn voice_channel(self, channel_id: ChannelId) -> (b: Self)
        ensures
            b == (EditMember { channel_id: Some(Some(channel_id)), ..self }),
    {
        let mut b = self;
        b.channel_id = Some(Some(channel_id));
        b
    }

    /// Takes the member out of the voice channel that they are in.
    pub fn disconnect_member(self) -> (b: Self)
        ensures
            b == (EditMember { channel_id: Some(None), ..self }),
    {
        let mut b = self;
        b.channel_id = Some(None);
        b
    }

    /// Times the member out until `time`.
    pub fn disable_communication_until(self, time: Timestamp) -> (b: Self)
        ensures
            b == (EditMember { communication_disabled_until: Some(Some(time)), ..self }),
    {
        let mut b = self;
        b.communication_disabled_until = Some(Some(time));
        b
    }

    /// Ends the timeout of the member.
    pub fn enable_communication(self) -> (b: Self)
        ensures
            b == (EditMember { communication_disabled_until: Some(None), ..self }),
    {
        let mut b = self;
        b.communication_disabled_until = Some(None);
        b
    }

    /// Sets the flags of the member.
    pub fn flags(self, flags: GuildMemberFlags) -> (b: Self)
        ensures
            b == (EditMember { flags: Some(flags), ..self }),
    {
        let mut b = self;
        b.flags = Some(flags);
        b
    }

    /// Sets the reason that the audit log records for the edit.
    pub fn audit_log_reason(self, reason: &'a str) -> (b: Self)
        ensures
            b == (EditMember { audit_log_reason: Some(reason), ..self }),
    {
        let mut b = self;
        b.audit_log_reason = Some(reason);
        b
    }
}

} // verus!
