//! Guilds and what belongs to them.

pub mod audit_log;
pub mod member;
pub mod role;

use crate::model::channel::{
    ChannelType, GuildChannel, PermissionOverwrite, PermissionOverwriteType,
};
use crate::model::guild::member::Member;
use crate::model::guild::role::{find_role, holds_role, role_with_id, Role};
use crate::model::id::{GuildId, RoleId, UserId};
use crate::model::permissions::{Permissions, ADMINISTRATOR, ALL_PERMISSIONS};
use vstd::prelude::*;

verus! {

/// A guild with what the client remembers of it.
#[derive(Debug)]
pub struct Guild {
    /// The id of the guild.
    pub id: GuildId,
    /// The user who owns the guild.
    pub owner_id: UserId,
    /// The roles of the guild.
    pub roles: Vec<Role>,
    /// The members of the guild.
    pub members: Vec<Member>,
    /// The channels of the guild, in the order in which they are listed.
    pub channels: Vec<GuildChannel>,
}

/// The position of the first guild with the id in a list, or the length of
/// the list if there is none.
pub open spec fn guild_position(guilds: Seq<Guild>, id: GuildId) -> int
    decreases guilds.len(),
{
    if guilds.len() == 0 {
        0
    } else if guilds[0].id == id {
        0
    } else {
        1 + guild_position(guilds.skip(1), id)
    }
}

/// The first guild with the id in a list, if there is one.
pub open spec fn guild_with_id(guilds: Seq<Guild>, id: GuildId) -> Option<Guild> {
    if guild_position(guilds, id) < guilds.len() {
        Some(guilds[guild_position(guilds, id)])
    } else {
        None
    }
}

proof fn lemma_guild_position(guilds: Seq<Guild>, id: GuildId)
    ensures
        0 <= guild_position(guilds, id) <= guilds.len(),
        forall|i: int| 0 <= i < guild_position(guilds, id) ==> (#[trigger] guilds[i]).id != id,
        guild_position(guilds, id) < guilds.len() ==> guilds[guild_position(guilds, id)].id == id,
    decreases guilds.len(),
{
    if guilds.len() > 0 && guilds[0].id != id {
        lemma_guild_position(guilds.skip(1), id);
        assert forall|i: int| 0 <= i < guild_position(guilds, id) implies (#[trigger] guilds[i]).id != id by {
            if i > 0 {
                assert(guilds.skip(1)[i - 1] == guilds[i]);
            }
        }
    }
}

proof fn lemma_guild_position_is(guilds: Seq<Guild>, id: GuildId, p: int)
    requires
        0 <= p <= guilds.len(),
        forall|i: int| 0 <= i < p ==> (#[trigger] guilds[i]).id != id,
        p < guilds.len() ==> guilds[p].id == id,
    ensures
        guild_position(guilds, id) == p,
{
    lemma_guild_position(guilds, id);
    let d = guild_position(guilds, id);
    if d < p {
        assert(guilds[d].id != id);
    } else if p < d {
        assert(guilds[p].id != id);
    }
}

/// Finds the first guild with the id in a list.
pub fn find_guild<'a>(guilds: &'a Vec<Guild>, id: GuildId) -> (g: Option<&'a Guild>)
    ensures
        match g {
            Some(guild) => guild_with_id(guilds@, id) == Some(*guild) && guild.id == id,
            None => guild_with_id(guilds@, id) is None,
        },
{
    let mut i: usize = 0;
    while i < guilds.len()
        invariant
            0 <= i <= guilds.len(),
            forall|j: int| 0 <= j < i ==> (#[trigger] guilds@[j]).id != id,
        decreases guilds.len() - i,
    {
        if guilds[i].id == id {
            proof {
                lemma_guild_position_is(guilds@, id, i as int);
            }
            return Some(&guilds[i]);
        }
        i += 1;
    }
    proof {
        lemma_guild_position_is(guilds@, id, guilds.len() as int);
    }
    None
}

/// The position of the first member with the user id in a list, or the
/// length of the list if there is none.
pub open spec fn member_position(members: Seq<Member>, id: UserId) -> int
    decreases members.len(),
{
    if members.len() == 0 {
        0
    } else if members[0].user.id == id {
        0
    } else {
        1 + member_position(members.skip(1), id)
    }
}

/// The first member with the user id in a list, if there is one.
pub open spec fn member_with_id(members: Seq<Member>, id: UserId) -> Option<Member> {
    if member_position(members, id) < members.len() {
        Some(members[member_position(members, id)])
    } else {
        None
    }
}

proof fn lemma_member_position(members: Seq<Member>, id: UserId)
    ensures
        0 <= member_position(members, id) <= members.len(),
        forall|i: int| 0 <= i < member_position(members, id)
            ==> (#[trigger] members[i]).user.id != id,
        member_position(members, id) < members.len()
            ==> members[member_position(members, id)].user.id == id,
    decreases members.len(),
{
    if members.len() > 0 && members[0].user.id != id {
        lemma_member_position(members.skip(1), id);
        assert forall|i: int| 0 <= i < member_position(members, id) implies (#[trigger] members[i]).user.id
            != id by {
            if i > 0 {
                assert(members.skip(1)[i - 1] == members[i]);
            }
        }
    }
}

proof fn lemma_member_position_is(members: Seq<Member>, id: UserId, p: int)
    requires
        0 <= p <= members.len(),
        forall|i: int| 0 <= i < p ==> (#[trigger] members[i]).user.id != id,
        p < members.len() ==> members[p].user.id == id,
    ensures
        member_position(members, id) == p,
{
    lemma_member_position(members, id);
    let d = member_position(members, id);
    if d < p {
        assert(members[d].user.id != id);
    } else if p < d {
        assert(members[p].user.id != id);
    }
}

/// Finds the first member with the user id in a list.
pub fn find_guild_member<'a>(members: &'a Vec<Member>, id: UserId) -> (m: Option<&'a Member>)
    ensures
        match m {
            Some(member) => member_with_id(members@, id) == Some(*member) && member.user.id == id,
            None => member_with_id(members@, id) is None,
        },
{
    let mut i: usize = 0;
    while i < members.len()
        invariant
            0 <= i <= members.len(),
            forall|j: int| 0 <= j < i ==> (#[trigger] members@[j]).user.id != id,
        decreases members.len() - i,
    {
        if members[i].user.id == id {
            proof {
                lemma_member_position_is(members@, id, i as int);
            }
            return Some(&members[i]);
        }
        i += 1;
    }
    proof {
        lemma_member_position_is(members@, id, members.len() as int);
    }
    None
}

/// The permissions of a role in a list, none if the list has no role with
/// the id.
pub open spec fn role_permissions(roles: Seq<Role>, id: RoleId) -> u64 {
    match role_with_id(roles, id) {
        Some(r) => r.permissions.0,
        None => 0,
    }
}

/// The permissions that the roles with the ids grant together.
pub open spec fn roles_permissions(roles: Seq<Role>, ids: Seq<RoleId>) -> u64
    decreases ids.len(),
{
    if ids.len() == 0 {
        0
    } else {
        roles_permissions(roles, ids.drop_last()) | role_permissions(roles, ids.last())
    }
}

/// What the overwrites of a channel come to for one member: what is allowed
/// and denied to everyone, to the member's roles together, and to the member
/// alone.
#[derive(Clone, Copy, Debug, PartialEq, Eq, Structural)]
pub struct Overwrites {
    pub everyone_allow: u64,
    pub everyone_deny: u64,
    pub roles_allow: u64,
    pub roles_deny: u64,
    pub member_allow: u64,
    pub member_deny: u64,
}

impl Overwrites {
    /// No overwrite.
    pub open spec fn none() -> Overwrites {
        Overwrites {
            everyone_allow: 0,
            everyone_deny: 0,
            roles_allow: 0,
            roles_deny: 0,
            member_allow: 0,
            member_deny: 0,
        }
    }

    /// The overwrites with one more taken in. An overwrite for the member or
    /// for everyone replaces what was there for them; one for a role of the
    /// member is added to those of the other roles; one for anyone else is
    /// passed over.
    pub open spec fn with(
        self,
        overwrite: PermissionOverwrite,
        user_id: UserId,
        member_roles: Seq<RoleId>,
        guild_id: GuildId,
    ) -> Overwrites {
        match overwrite.kind {
            PermissionOverwriteType::Member(id) => if id == user_id {
                Overwrites { member_allow: overwrite.allow.0, member_deny: overwrite.deny.0, ..self }
            } else {
                self
            },
            PermissionOverwriteType::Role(id) => if id.0 == guild_id.0 {
                Overwrites { everyone_allow: overwrite.allow.0, everyone_deny: overwrite.deny.0, ..self }
            } else if member_roles.contains(id) {
                Overwrites {
                    roles_allow: self.roles_allow | overwrite.allow.0,
                    roles_deny: self.roles_deny | overwrite.deny.0,
                    ..self
                }
            } else {
                self
            },
        }
    }

    /// The permissions that are left of `base` once the overwrites are
    /// applied: first those for everyone, then those for the roles, last
    /// those for the member; each time what is denied is taken away before
    /// what is allowed is added.
    pub open spec fn applied_to(self, base: u64) -> u64 {
        (((((base & !self.everyone_deny) | self.everyone_allow) & !self.roles_deny) | self.roles_allow)
            & !self.member_deny) | self.member_allow
    }
}

/// What a list of overwrites comes to for one member.
pub open spec fn overwrites_for(
    overwrites: Seq<PermissionOverwrite>,
    user_id: UserId,
    member_roles: Seq<RoleId>,
    guild_id: GuildId,
) -> Overwrites
    decreases overwrites.len(),
{
    if overwrites.len() == 0 {
        Overwrites::none()
    } else {
        overwrites_for(overwrites.drop_last(), user_id, member_roles, guild_id).with(
            overwrites.last(),
            user_id,
            member_roles,
            guild_id,
        )
    }
}

/// The permissions of a member in a channel. The owner of the guild may do
/// everything. Anyone else starts from what the role of everyone and their
/// own roles grant; if that holds the permission to administrate they may do
/// everything, else the overwrites of the channel are applied to it.
pub open spec fn user_permissions(guild: Guild, channel: GuildChannel, member: Member) -> u64 {
    if member.user.id == guild.owner_id {
        ALL_PERMISSIONS
    } else {
        let base = role_permissions(guild.roles@, RoleId(guild.id.0)) | roles_permissions(
            guild.roles@,
            member.roles@,
        );
        if base & ADMINISTRATOR == ADMINISTRATOR {
            ALL_PERMISSIONS
        } else {
            overwrites_for(channel.permission_overwrites@, member.user.id, member.roles@, guild.id).applied_to(
                base,
            )
        }
    }
}

impl Guild {
    /// The role with the id, if the guild has it.
    pub fn role(&self, id: RoleId) -> (r: Option<&Role>)
        ensures
            match r {
                Some(role) => role_with_id(self.roles@, id) == Some(*role) && role.id == id,
                None => role_with_id(self.roles@, id) is None,
            },
    {
        find_role(&self.roles, id)
    }

    /// The member with the user id, if the guild has them.
    pub fn member(&self, id: UserId) -> (m: Option<&Member>)
        ensures
            match m {
                Some(member) => member_with_id(self.members@, id) == Some(*member)
                    && member.user.id == id,
                None => member_with_id(self.members@, id) is None,
            },
    {
        find_guild_member(&self.members, id)
    }

    fn permissions_of_role(&self, id: RoleId) -> (p: u64)
        ensures
            p == role_permissions(self.roles@, id),
    {
        match find_role(&self.roles, id) {
            Some(role) => role.permissions.bits(),
            None => 0,
        }
    }

    /// Computes the permissions of a member in a channel of the guild.
    pub fn user_permissions_in(&self, channel: &GuildChannel, member: &Member) -> (p: Permissions)
        ensures
            p.0 == user_permissions(*self, *channel, *member),
    {
        if member.user.id == self.owner_id {
            return Permissions::all();
        }
        let mut base: u64 = self.permissions_of_role(RoleId::new(self.id.get()));
        let ghost everyone = base;
        proof {
            assert(member.roles@.subrange(0, 0) =~= Seq::<RoleId>::empty());
            assert(everyone | 0 == everyone) by (bit_vector);
        }
        let mut i: usize = 0;
        while i < member.roles.len()
            invariant
                0 <= i <= member.roles.len(),
                base == everyone | roles_permissions(self.roles@, member.roles@.subrange(0, i as int)),
            decreases member.roles.len() - i,
        {
            let granted = self.permissions_of_role(member.roles[i]);
            proof {
                let next = member.roles@.subrange(0, i + 1);
                assert(next.drop_last() =~= member.roles@.subrange(0, i as int));
                assert(next.last() == member.roles@[i as int]);
                let before = roles_permissions(self.roles@, member.roles@.subrange(0, i as int));
                assert((everyone | before) | granted
                    == everyone | (before | granted)) by (bit_vector);
            }
            base = base | granted;
            i += 1;
        }
        assert(member.roles@.subrange(0, i as int) =~= member.roles@);
        if base & ADMINISTRATOR == ADMINISTRATOR {
            return Permissions::all();
        }
        let mut acc = Overwrites {
            everyone_allow: 0,
            everyone_deny: 0,
            roles_allow: 0,
            roles_deny: 0,
            member_allow: 0,
            member_deny: 0,
        };
        let mut j: usize = 0;
        while j < channel.permission_overwrites.len()
            invariant
                0 <= j <= channel.permission_overwrites.len(),
                acc == overwrites_for(
                    channel.permission_overwrites@.subrange(0, j as int),
                    member.user.id,
                    member.roles@,
                    self.id,
                ),
            decreases channel.permission_overwrites.len() - j,
        {
            let overwrite = channel.permission_overwrites[j];
            proof {
                let next = channel.permission_overwrites@.subrange(0, j + 1);
                assert(next.drop_last() =~= channel.permission_overwrites@.subrange(0, j as int));
                assert(next.last() == overwrite);
            }
            match overwrite.kind {
                PermissionOverwriteType::Member(id) => {
                    if id == member.user.id {
                        acc.member_allow = overwrite.allow.bits();
                        acc.member_deny = overwrite.deny.bits();
                    }
                },
                PermissionOverwriteType::Role(id) => {
                    if id.get() == self.id.get() {
                        acc.everyone_allow = overwrite.allow.bits();
                        acc.everyone_deny = overwrite.deny.bits();
                    } else if holds_role(&member.roles, id) {
                        acc.roles_allow = acc.roles_allow | overwrite.allow.bits();
                        acc.roles_deny = acc.roles_deny | overwrite.deny.bits();
                    }
                },
            }
            j += 1;
        }
        assert(channel.permission_overwrites@.subrange(0, j as int)
            =~= channel.permission_overwrites@);
        let mut p: u64 = base;
        p = p & !acc.everyone_deny;
        p = p | acc.everyone_allow;
        p = p & !acc.roles_deny;
        p = p | acc.roles_allow;
        p = p & !acc.member_deny;
        p = p | acc.member_allow;
        Permissions(p)
    }
}

} // verus!
