//! Members of a guild.

use crate::builder::edit_member::EditMember;
use crate::cache::Cache;
use crate::http::client::{reason_header, Http};
use crate::http::error::DispatchError;
use crate::http::request::{LightMethod, Request};
use crate::http::routing::Route;
use crate::model::channel::{ChannelType, GuildChannel};
use crate::model::colour::Colour;
use crate::model::error::ModelError;
use crate::model::guild::role::{find_role, holds_role, role_with_id, Role};
use crate::model::guild::{
    find_guild_member, guild_with_id, member_with_id, user_permissions, Guild,
};
use crate::model::id::{ChannelId, GuildId, RoleId, UserId};
use crate::model::misc::ImageHash;
use crate::model::permissions::{Permissions, VIEW_CHANNEL};
use crate::model::timestamp::Timestamp;
use crate::model::user::User;
use crate::model::utils::{avatar_address, avatar_url};
use crate::num::u16_of;
use crate::text::{decimal, decimal_u64};
use vstd::prelude::*;
use vstd::string::StringExecFns;

verus! {

/// The bit of [`PackedBools`] that says that a member cannot hear in
/// voice channels.
pub const DEAF: u8 = 1;

/// The bit of [`PackedBools`] that says that a member cannot speak
/// in voice channels.
pub const MUTE: u8 = 2;

/// The bit of [`PackedBools`] that says that a member has not
/// accepted the rules of the guild yet.
pub const PENDING: u8 = 4;

/// The truth values of a member, packed into one byte.
#[derive(Clone, Copy, Debug, PartialEq, Eq, Structural, Hash)]
pub struct PackedBools(pub u8);

impl PackedBools {
    /// No flag set.
    pub fn empty() -> (f: Self)
        ensures
            f.0 == 0,
            !f.has(DEAF),
            !f.has(MUTE),
            !f.has(PENDING),
    {
        assert(0u8 & 1 == 0 && 0u8 & 2 == 0 && 0u8 & 4 == 0) by (bit_vector);
        PackedBools(0)
    }

    /// Whether the flag `bit` is set.
    pub open spec fn has(self, bit: u8) -> bool {
        self.0 & bit == bit
    }

    /// The flags with the flag `bit` set to `value` and every other flag as
    /// it is.
    pub open spec fn with(self, bit: u8, value: bool) -> PackedBools {
        if value {
            PackedBools(self.0 | bit)
        } else {
            PackedBools(self.0 & !bit)
        }
    }

    /// Whether the flag `bit` is set.
    pub fn contains(self, bit: u8) -> (r: bool)
        ensures
            r == self.has(bit),
    {
        self.0 & bit == bit
    }

    /// Sets the flag `bit` to `value`.
    pub fn set(&mut self, bit: u8, value: bool)
        ensures
            *final(self) == old(self).with(bit, value),
    {
        if value {
            self.0 = self.0 | bit;
        } else {
            self.0 = self.0 & !bit;
        }
    }
}

/// Setting one of the three flags sets that flag and leaves the other two as
/// they are.
pub proof fn lemma_flags_are_independent(flags: PackedBools, value: bool)
    ensures
        flags.with(DEAF, value).has(DEAF) == value,
        flags.with(DEAF, value).has(MUTE) == flags.has(MUTE),
        flags.with(DEAF, value).has(PENDING) == flags.has(PENDING),
        flags.with(MUTE, value).has(MUTE) == value,
        flags.with(MUTE, value).has(DEAF) == flags.has(DEAF),
        flags.with(MUTE, value).has(PENDING) == flags.has(PENDING),
        flags.with(PENDING, value).has(PENDING) == value,
        flags.with(PENDING, value).has(DEAF) == flags.has(DEAF),
        flags.with(PENDING, value).has(MUTE) == flags.has(MUTE),
{
    let x = flags.0;
    assert((x | 1) & 1 == 1 && ((x | 1) & 2 == 2) == (x & 2 == 2)
        && ((x | 1) & 4 == 4) == (x & 4 == 4)) by (bit_vector);
    assert((x & !1u8) & 1 != 1 && ((x & !1u8) & 2 == 2) == (x & 2 == 2)
        && ((x & !1u8) & 4 == 4) == (x & 4 == 4)) by (bit_vector);
    assert((x | 2) & 2 == 2 && ((x | 2) & 1 == 1) == (x & 1 == 1)
        && ((x | 2) & 4 == 4) == (x & 4 == 4)) by (bit_vector);
    assert((x & !2u8) & 2 != 2 && ((x & !2u8) & 1 == 1) == (x & 1 == 1)
        && ((x & !2u8) & 4 == 4) == (x & 4 == 4)) by (bit_vector);
    assert((x | 4) & 4 == 4 && ((x | 4) & 1 == 1) == (x & 1 == 1)
        && ((x | 4) & 2 == 2) == (x & 2 == 2)) by (bit_vector);
    assert((x & !4u8) & 4 != 4 && ((x & !4u8) & 1 == 1) == (x & 1 == 1)
        && ((x & !4u8) & 2 == 2) == (x & 2 == 2)) by (bit_vector);
}

/// The flags of a guild member, one bit each.
#[derive(Clone, Copy, Debug, PartialEq, Eq, Structural, Hash)]
pub struct GuildMemberFlags(pub u32);

impl GuildMemberFlags {
    /// The bits of the flags.
    pub fn bits(self) -> (b: u32)
        ensures
            b == self.0,
    {
        self.0
    }
}

impl Default for GuildMemberFlags {
    fn default() -> (f: Self)
        ensures
            f.0 == 0,
    {
        GuildMemberFlags(0)
    }
}

/// A member of a guild.
#[derive(Clone, Debug)]
#[non_exhaustive]
pub struct Member {
    /// The user that the member is.
    pub user: User,
    /// The nickname of the member in the guild, if they have one.
    pub nick: Option<String>,
    /// The hash of the avatar that the member has in the guild, if they have
    /// one.
    pub avatar: Option<ImageHash>,
    /// The ids of the roles of the member.
    pub roles: Vec<RoleId>,
    /// When the member joined.
    pub joined_at: Option<Timestamp>,
    /// Since when the member boosts the guild.
    pub premium_since: Option<Timestamp>,
    /// The flags of the member.
    pub flags: GuildMemberFlags,
    /// The permissions of the member in a channel, with overwrites. Only
    /// there in the member of an interaction.
    pub permissions: Option<Permissions>,
    /// Until when the member is timed out. Nothing, or a time in the past,
    /// if they are not.
    pub communication_disabled_until: Option<Timestamp>,
    /// The guild that the member belongs to.
    pub guild_id: GuildId,
    /// Until when the member is flagged for unusual direct message activity.
    pub unusual_dm_activity_until: Option<Timestamp>,
    /// Whether the member is deaf, mute or pending, one bit each.
    pub packed: PackedBools,
}

impl Default for Member {
    /// The default user in the default guild, both with the id 1, and nothing
    /// else.
    fn default() -> (m: Self)
        ensures
            m.user.id == UserId(1),
            m.user.name@.len() == 0,
            m.guild_id == GuildId(1),
            m.nick is None,
            m.avatar is None,
            m.roles@.len() == 0,
            m.permissions is None,
            m.communication_disabled_until is None,
            m.flags.0 == 0,
            m.packed.0 == 0,
    {
        Member::new(User::default(), GuildId::new(1))
    }
}

/// A number in at least four digits, with zeros in front if it has fewer.
pub open spec fn padded4(n: nat) -> Seq<char> {
    if n < 10 {
        "000"@ + decimal(n)
    } else if n < 100 {
        "00"@ + decimal(n)
    } else if n < 1000 {
        "0"@ + decimal(n)
    } else {
        decimal(n)
    }
}

impl Member {
    /// A member that is the given user in the given guild, with nothing else
    /// known of them.
    pub fn new(user: User, guild_id: GuildId) -> (m: Member)
        ensures
            m.user == user,
            m.guild_id == guild_id,
            m.nick is None,
            m.avatar is None,
            m.roles@.len() == 0,
            m.joined_at is None,
            m.premium_since is None,
            m.flags.0 == 0,
            m.permissions is None,
            m.communication_disabled_until is None,
            m.unusual_dm_activity_until is None,
            m.packed.0 == 0,
    {
        Member {
            user,
            nick: None,
            avatar: None,
            roles: Vec::new(),
            joined_at: None,
            premium_since: None,
            flags: GuildMemberFlags(0),
            permissions: None,
            communication_disabled_until: None,
            guild_id,
            unusual_dm_activity_until: None,
            packed: PackedBools(0),
        }
    }

    /// Whether the member cannot hear in voice channels.
    pub fn deaf(&self) -> (r: bool)
        ensures
            r == self.packed.has(DEAF),
    {
        self.packed.contains(DEAF)
    }

    /// Whether the member cannot speak in voice channels.
    pub fn mute(&self) -> (r: bool)
        ensures
            r == self.packed.has(MUTE),
    {
        self.packed.contains(MUTE)
    }

    /// Whether the member has not accepted the rules of the guild yet.
    pub fn pending(&self) -> (r: bool)
        ensures
            r == self.packed.has(PENDING),
    {
        self.packed.contains(PENDING)
    }

    /// Sets whether the member cannot hear in voice channels.
    pub fn set_deaf(&mut self, value: bool)
        ensures
            *final(self) == (Member { packed: old(self).packed.with(DEAF, value), ..*old(self) }),
    {
        self.packed.set(DEAF, value);
    }

    /// Sets whether the member cannot speak in voice channels.
    pub fn set_mute(&mut self, value: bool)
        ensures
            *final(self) == (Member { packed: old(self).packed.with(MUTE, value), ..*old(self) }),
    {
        self.packed.set(MUTE, value);
    }

    /// Sets whether the member has not accepted the rules of the guild yet.
    pub fn set_pending(&mut self, value: bool)
        ensures
            *final(self) == (Member {
                packed: old(self).packed.with(PENDING, value),
                ..*old(self)
            }),
    {
        self.packed.set(PENDING, value);
    }

    /// The name that is shown for the member: the nickname if there is one,
    /// else the name that the user shows if there is one, else the unique
    /// name of the user.
    pub open spec fn display_text(self) -> Seq<char> {
        match self.nick {
            Some(nick) => nick@,
            None => match self.user.global_name {
                Some(name) => name@,
                None => self.user.name@,
            },
        }
    }

    /// The name that is shown for the member.
    #[must_use]
    pub fn display_name(&self) -> (name: &str)
        ensures
            name@ == self.display_text(),
    {
        match &self.nick {
            Some(nick) => nick.as_str(),
            None => match &self.user.global_name {
                Some(name) => name.as_str(),
                None => self.user.name.as_str(),
            },
        }
    }

    /// The name that tells the member from every other: the shown name, and
    /// for a user of the older naming system `#` and the discriminator in
    /// four digits.
    pub open spec fn distinct_text(self) -> Seq<char> {
        match self.user.discriminator {
            Some(d) => self.display_text() + "#"@ + padded4(u16_of(d) as nat),
            None => self.display_text(),
        }
    }

    /// The name that tells the member from every other.
    #[must_use]
    pub fn distinct(&self) -> (tag: String)
        ensures
            tag@ == self.distinct_text(),
    {
        let mut tag = String::from_str(self.display_name());
        if let Some(discriminator) = self.user.discriminator {
            let d: u16 = discriminator.get();
            tag.append("#");
            if d < 10 {
                tag.append("000");
            } else if d < 100 {
                tag.append("00");
            } else if d < 1000 {
                tag.append("0");
            }
            let ghost padded = tag@;
            tag.append(decimal_u64(d as u64).as_str());
            assert(tag@ =~= self.display_text() + "#"@ + padded4(d as nat));
        }
        tag
    }

    /// The address of the avatar that the member has in the guild, if they
    /// have one: a WEBP image, or a GIF if the avatar is animated.
    #[must_use]
    pub fn avatar_url(&self) -> (url: Option<String>)
        ensures
            match self.avatar {
                Some(hash) => url matches Some(s)
                    && s@ == avatar_address(Some(self.guild_id), self.user.id, hash),
                None => url is None,
            },
    {
        avatar_url(Some(self.guild_id), self.user.id, self.avatar.as_ref())
    }

    /// The address of the avatar that is shown for the member: the one of
    /// the guild if there is one, else the one that is shown for the user.
    pub open spec fn face_address(self) -> Seq<char> {
        match self.avatar {
            Some(hash) => avatar_address(Some(self.guild_id), self.user.id, hash),
            None => self.user.face_address(),
        }
    }

    /// The address of the avatar that is shown for the member.
    #[must_use]
    pub fn face(&self) -> (url: String)
        ensures
            url@ == self.face_address(),
    {
        match self.avatar_url() {
            Some(url) => url,
            None => self.user.face(),
        }
    }

    /// How the member is mentioned in a message, so that they are notified:
    /// `<@`, the id of the user and `>`.
    pub fn mention(&self) -> (s: String)
        ensures
            s@ == self.user.mention_text(),
    {
        self.user.mention()
    }

    /// The id by which members are told apart: that of the user.
    pub fn extract_key(&self) -> (id: &UserId)
        ensures
            *id == self.user.id,
    {
        &self.user.id
    }
}

/// The roles of a list that a member holds: those whose id is among `ids`,
/// in the order of the list.
pub open spec fn roles_held(roles: Seq<Role>, ids: Seq<RoleId>) -> Seq<Role>
    decreases roles.len(),
{
    if roles.len() == 0 {
        Seq::empty()
    } else if ids.contains(roles.last().id) {
        roles_held(roles.drop_last(), ids).push(roles.last())
    } else {
        roles_held(roles.drop_last(), ids)
    }
}

/// Whether a member may see a channel: it is no category, and the member has
/// the permission to view it.
pub open spec fn can_see(guild: Guild, member: Member, channel: GuildChannel) -> bool {
    channel.kind != ChannelType::Category && user_permissions(guild, channel, member) & VIEW_CHANNEL
        == VIEW_CHANNEL
}

/// The position of the first of `channels` that a member may see, or the
/// number of channels if they may see none.
pub open spec fn first_visible(guild: Guild, member: Member, channels: Seq<GuildChannel>) -> int
    decreases channels.len(),
{
    if channels.len() == 0 {
        0
    } else if can_see(guild, member, channels[0]) {
        0
    } else {
        1 + first_visible(guild, member, channels.skip(1))
    }
}

proof fn lemma_first_visible(guild: Guild, member: Member, channels: Seq<GuildChannel>)
    ensures
        0 <= first_visible(guild, member, channels) <= channels.len(),
        forall|i: int|
            0 <= i < first_visible(guild, member, channels)
                ==> !can_see(guild, member, #[trigger] channels[i]),
        first_visible(guild, member, channels) < channels.len() ==> can_see(
            guild,
            member,
            channels[first_visible(guild, member, channels)],
        ),
    decreases channels.len(),
{
    if channels.len() > 0 && !can_see(guild, member, channels[0]) {
        lemma_first_visible(guild, member, channels.skip(1));
        assert forall|i: int| 0 <= i < first_visible(guild, member, channels) implies !can_see(
            guild,
            member,
            #[trigger] channels[i],
        ) by {
            if i > 0 {
                assert(channels.skip(1)[i - 1] == channels[i]);
            }
        }
    }
}

proof fn lemma_first_visible_is(guild: Guild, member: Member, channels: Seq<GuildChannel>, p: int)
    requires
        0 <= p <= channels.len(),
        forall|i: int| 0 <= i < p ==> !can_see(guild, member, #[trigger] channels[i]),
        p < channels.len() ==> can_see(guild, member, channels[p]),
    ensures
        first_visible(guild, member, channels) == p,
{
    lemma_first_visible(guild, member, channels);
    let d = first_visible(guild, member, channels);
    if d < p {
        assert(!can_see(guild, member, channels[d]));
    } else if p < d {
        assert(!can_see(guild, member, channels[p]));
    }
}

impl Member {
    /// The role that the `i`-th of the member's role ids names in a guild, if
    /// the guild has it and it has a colour of its own.
    pub open spec fn coloured_role(self, guild: Guild, i: int) -> Option<Role> {
        match role_with_id(guild.roles@, self.roles@[i]) {
            Some(r) => if r.colour.0 != 0 {
                Some(r)
            } else {
                None
            },
            None => None,
        }
    }

    /// Whether `c` is the colour of the member in a guild: the colour of the
    /// one among the member's coloured roles that outranks the others.
    pub open spec fn is_top_colour(self, guild: Guild, c: Colour) -> bool {
        exists|i: int|
            0 <= i < self.roles@.len() && (#[trigger] self.coloured_role(guild, i)) is Some
                && self.coloured_role(guild, i)->0.colour == c && forall|j: int|
                0 <= j < self.roles@.len() && (#[trigger] self.coloured_role(guild, j)) is Some
                    ==> self.coloured_role(guild, i)->0.outranks(self.coloured_role(guild, j)->0)
    }

    /// Whether the member has a role with a colour of its own in a guild.
    pub open spec fn has_colour(self, guild: Guild) -> bool {
        exists|i: int| 0 <= i < self.roles@.len()
            && (#[trigger] self.coloured_role(guild, i)) is Some
    }

    /// Determines the colour of the member: that of the highest of their
    /// roles that has a colour of its own. There is none if the cache does
    /// not remember the member's guild, or if no role of the member there
    /// has a colour.
    pub fn colour(&self, cache: &Cache) -> (c: Option<Colour>)
        ensures
            match c {
                Some(colour) => guild_with_id(cache.guilds@, self.guild_id) matches Some(g)
                    && self.is_top_colour(
                    g,
                    colour,
                ),
                None => guild_with_id(cache.guilds@, self.guild_id) matches Some(g)
                    ==> !self.has_colour(g),
            },
    {
        let guild = match cache.guild(self.guild_id) {
            Some(g) => g,
            None => return None,
        };
        let mut best: Option<&Role> = None;
        let ghost mut at: int = 0;
        let mut i: usize = 0;
        while i < self.roles.len()
            invariant
                0 <= i <= self.roles.len(),
                best is None ==> forall|j: int| 0 <= j < i
                    ==> (#[trigger] self.coloured_role(*guild, j)) is None,
                best matches Some(r)
                    ==> 0 <= at < i && self.coloured_role(*guild, at) == Some(*r) && forall|j: int|
                    0 <= j < i && (#[trigger] self.coloured_role(*guild, j)) is Some ==> r.outranks(
                        self.coloured_role(*guild, j)->0,
                    ),
            decreases self.roles.len() - i,
        {
            if let Some(role) = guild.role(self.roles[i]) {
                if role.colour.0 != 0 {
                    let better = match best {
                        Some(b) => role.ranks_above(b),
                        None => true,
                    };
                    if better {
                        best = Some(role);
                        proof {
                            at = i as int;
                        }
                    }
                }
            }
            i += 1;
        }
        match best {
            Some(r) => Some(r.colour),
            None => None,
        }
    }

    /// Whether `found` is the default channel of the member: a copy of the
    /// first channel of the member's guild that the member, as the cache
    /// remembers them, may see.
    pub open spec fn is_default_channel(self, cache: Cache, found: GuildChannel) -> bool {
        &&& guild_with_id(cache.guilds@, self.guild_id) matches Some(g)
        &&& member_with_id(g.members@, self.user.id) matches Some(m)
        &&& first_visible(g, m, g.channels@) < g.channels@.len()
        &&& g.channels@[first_visible(g, m, g.channels@)].same_as(found)
    }

    /// Whether the member has no default channel: the cache does not
    /// remember the guild, or not the member in it, or the member may see no
    /// channel of the guild.
    pub open spec fn lacks_default_channel(self, cache: Cache) -> bool {
        match guild_with_id(cache.guilds@, self.guild_id) {
            None => true,
            Some(g) => match member_with_id(g.members@, self.user.id) {
                None => true,
                Some(m) => first_visible(g, m, g.channels@) == g.channels@.len(),
            },
        }
    }

    /// Gives the default channel of the member: the first channel of the
    /// guild that the member may see, if there is one.
    pub fn default_channel(&self, cache: &Cache) -> (found: Option<GuildChannel>)
        ensures
            match found {
                Some(c) => self.is_default_channel(*cache, c),
                None => self.lacks_default_channel(*cache),
            },
    {
        let guild = match cache.guild(self.guild_id) {
            Some(g) => g,
            None => return None,
        };
        let member = match guild.member(self.user.id) {
            Some(m) => m,
            None => return None,
        };
        let mut i: usize = 0;
        while i < guild.channels.len()
            invariant
                0 <= i <= guild.channels.len(),
                guild_with_id(cache.guilds@, self.guild_id) == Some(*guild),
                member_with_id(guild.members@, self.user.id) == Some(*member),
                forall|j: int| 0 <= j < i
                    ==> !can_see(*guild, *member, #[trigger] guild.channels@[j]),
            decreases guild.channels.len() - i,
        {
            let channel = &guild.channels[i];
            if channel.kind != ChannelType::Category
                && guild.user_permissions_in(channel, member).view_channel() {
                proof {
                    lemma_first_visible_is(*guild, *member, guild.channels@, i as int);
                }
                return Some(channel.duplicate());
            }
            i += 1;
        }
        proof {
            lemma_first_visible_is(*guild, *member, guild.channels@, guild.channels.len() as int);
        }
        None
    }

    /// Gives the roles of the member in full: those roles of the member's
    /// guild whose id the member holds, in the guild's order. There are none
    /// to give if the cache does not remember the guild.
    pub fn roles(&self, cache: &Cache) -> (held: Option<Vec<Role>>)
        ensures
            match held {
                Some(roles) => guild_with_id(cache.guilds@, self.guild_id) matches Some(g)
                    && roles@ == roles_held(
                    g.roles@,
                    self.roles@,
                ),
                None => guild_with_id(cache.guilds@, self.guild_id) is None,
            },
    {
        let guild = match cache.guild(self.guild_id) {
            Some(g) => g,
            None => return None,
        };
        let mut held: Vec<Role> = Vec::new();
        let mut i: usize = 0;
        while i < guild.roles.len()
            invariant
                0 <= i <= guild.roles.len(),
                held@ == roles_held(guild.roles@.subrange(0, i as int), self.roles@),
            decreases guild.roles.len() - i,
        {
            proof {
                let next = guild.roles@.subrange(0, i + 1);
                assert(next.drop_last() =~= guild.roles@.subrange(0, i as int));
                assert(next.last() == guild.roles@[i as int]);
            }
            if holds_role(&self.roles, guild.roles[i].id) {
                held.push(guild.roles[i].duplicate());
            }
            i += 1;
        }
        assert(guild.roles@.subrange(0, i as int) =~= guild.roles@);
        Some(held)
    }
}

/// The most days of messages that a ban can remove.
pub const MAX_DELETE_MESSAGE_DAYS: u8 = 7;

impl Member {
    /// Whether `req` is the request that gives the member a role, with
    /// `PUT`, or takes it from them, with `DELETE`: to the role of the member
    /// in the guild, with the reason as its only header and nothing else.
    pub open spec fn is_role_request(
        self,
        req: Request,
        method: LightMethod,
        role_id: RoleId,
        reason: Option<&str>,
    ) -> bool {
        &&& req.method == method
        &&& req.route == (Route::GuildMemberRole {
            guild_id: self.guild_id,
            user_id: self.user.id,
            role_id,
        })
        &&& req.body is None
        &&& req.multipart is None
        &&& req.extra_headers() == reason_header(reason)
        &&& req.params is None
    }

    /// The request that gives the member a role.
    pub fn add_role(
        &self,
        http: &Http,
        role_id: RoleId,
        reason: Option<&str>,
    ) -> (req: Request<'static>)
        ensures
            self.is_role_request(req, LightMethod::Put, role_id, reason),
            req.wf(),
    {
        http.add_member_role(self.guild_id, self.user.id, role_id, reason)
    }

    /// The requests that give the member several roles, one request for each
    /// role, in the order of the roles. They are to be sent one after the
    /// other, and none after one that has failed.
    pub fn add_roles(
        &self,
        http: &Http,
        role_ids: &[RoleId],
        reason: Option<&str>,
    ) -> (reqs: Vec<Request<'static>>)
        ensures
            reqs@.len() == role_ids@.len(),
            forall|i: int|
                0 <= i < reqs@.len() ==> self.is_role_request(
                    #[trigger] reqs@[i],
                    LightMethod::Put,
                    role_ids@[i],
                    reason,
                ),
    {
        let mut reqs: Vec<Request<'static>> = Vec::new();
        let mut i: usize = 0;
        while i < role_ids.len()
            invariant
                0 <= i <= role_ids.len(),
                reqs@.len() == i,
                forall|k: int|
                    0 <= k < i ==> self.is_role_request(
                        #[trigger] reqs@[k],
                        LightMethod::Put,
                        role_ids@[k],
                        reason,
                    ),
            decreases role_ids.len() - i,
        {
            reqs.push(self.add_role(http, role_ids[i], reason));
            i += 1;
        }
        reqs
    }

    /// The request that bans the member from the guild and removes their
    /// messages of the last `dmd` days. More than seven days cannot be asked
    /// for.
    pub fn ban(
        &self,
        http: &Http,
        dmd: u8,
        audit_log_reason: Option<&str>,
    ) -> (r: Result<Request<'static>, ModelError>)
        ensures
            match r {
                Ok(req) => {
                    &&& dmd <= MAX_DELETE_MESSAGE_DAYS
                    &&& req.method == LightMethod::Put
                    &&& req.route
                        == (Route::GuildBan { guild_id: self.guild_id, user_id: self.user.id })
                    &&& req.body is None
                    &&& req.multipart is None
                    &&& req.extra_headers() == reason_header(audit_log_reason)
                    &&& req.query()
                        == Some(seq![("delete_message_seconds"@, decimal((dmd * 86400) as nat))])
                },
                Err(e) => dmd > MAX_DELETE_MESSAGE_DAYS && e == (ModelError::TooLarge {
                    maximum: MAX_DELETE_MESSAGE_DAYS as u64,
                    value: dmd as u64,
                }),
            },
    {
        if dmd > MAX_DELETE_MESSAGE_DAYS {
            return Err(ModelError::TooLarge { maximum: MAX_DELETE_MESSAGE_DAYS as u64, value: dmd as u64 });
        }
        Ok(http.ban_user(self.guild_id, self.user.id, dmd, audit_log_reason))
    }

    /// Takes in how a request to time the member out until `time` ended: if
    /// it succeeded the member is timed out until then, else the member is as
    /// before. The payload of that request is
    /// [`EditMember::disable_communication_until`].
    pub fn disable_communication_until(
        &mut self,
        time: Timestamp,
        outcome: Result<(), DispatchError>,
    ) -> (r: Result<(), DispatchError>)
        ensures
            match outcome {
                Ok(_) => r is Ok && *final(self) == (Member {
                    communication_disabled_until: Some(time),
                    ..*old(self)
                }),
                Err(e) => r == Err::<(), DispatchError>(e) && *final(self) == *old(self),
            },
    {
        match outcome {
            Ok(()) => {
                self.communication_disabled_until = Some(time);
                Ok(())
            },
            Err(why) => Err(why),
        }
    }

    /// The request that edits the member. `map` is the serialised
    /// [`EditMember`].
    pub fn edit_request(
        &self,
        http: &Http,
        map: Vec<u8>,
        audit_log_reason: Option<&str>,
    ) -> (req: Request<'static>)
        ensures
            req.method == LightMethod::Patch,
            req.route == (Route::GuildMember { guild_id: self.guild_id, user_id: self.user.id }),
            req.body == Some(map),
            req.multipart is None,
            req.extra_headers() == reason_header(audit_log_reason),
            req.params is None,
            req.wf(),
    {
        http.edit_member(self.guild_id, self.user.id, map, audit_log_reason)
    }

    /// Takes in how a request to edit the member ended: if it succeeded the
    /// member is what the server answered, else the member is as before.
    pub fn edit(&mut self, outcome: Result<Member, DispatchError>) -> (r: Result<(), DispatchError>)
        ensures
            match outcome {
                Ok(m) => r is Ok && *final(self) == m,
                Err(e) => r == Err::<(), DispatchError>(e) && *final(self) == *old(self),
            },
    {
        match outcome {
            Ok(m) => {
                *self = m;
                Ok(())
            },
            Err(e) => Err(e),
        }
    }

    /// Takes in how a request to end the member's timeout ended: if it
    /// succeeded the member is what the server answered, else the member is
    /// as before. The payload of that request is
    /// [`EditMember::enable_communication`].
    pub fn enable_communication(
        &mut self,
        outcome: Result<Member, DispatchError>,
    ) -> (r: Result<(), DispatchError>)
        ensures
            match outcome {
                Ok(m) => r is Ok && *final(self) == m,
                Err(e) => r == Err::<(), DispatchError>(e) && *final(self) == *old(self),
            },
    {
        self.edit(outcome)
    }

    /// The request that kicks the member from the guild.
    pub fn kick(&self, http: &Http, reason: Option<&str>) -> (req: Request<'static>)
        ensures
            req.method == LightMethod::Delete,
            req.route == (Route::GuildMember { guild_id: self.guild_id, user_id: self.user.id }),
            req.body is None,
            req.multipart is None,
            req.extra_headers() == reason_header(reason),
            req.params is None,
            req.wf(),
    {
        http.kick_member(self.guild_id, self.user.id, reason)
    }

    /// The payload that moves the member to a voice channel.
    pub fn move_to_voice_channel(&self, channel: ChannelId) -> (b: EditMember<'static>)
        ensures
            b.channel_id == Some(Some(channel)),
            (EditMember { channel_id: None, ..b }).is_blank(),
    {
        EditMember::new().voice_channel(channel)
    }

    /// The payload that takes the member out of the voice channel that they
    /// are in.
    pub fn disconnect_from_voice(&self) -> (b: EditMember<'static>)
        ensures
            b.channel_id == Some(None::<ChannelId>),
            (EditMember { channel_id: None, ..b }).is_blank(),
    {
        EditMember::new().disconnect_member()
    }

    /// The request that takes a role from the member.
    pub fn remove_role(
        &self,
        http: &Http,
        role_id: RoleId,
        reason: Option<&str>,
    ) -> (req: Request<'static>)
        ensures
            self.is_role_request(req, LightMethod::Delete, role_id, reason),
            req.wf(),
    {
        http.remove_member_role(self.guild_id, self.user.id, role_id, reason)
    }

    /// The requests that take several roles from the member, one request for
    /// each role, in the order of the roles. They are to be sent one after
    /// the other, and none after one that has failed.
    pub fn remove_roles(
        &self,
        http: &Http,
        role_ids: &[RoleId],
        reason: Option<&str>,
    ) -> (reqs: Vec<Request<'static>>)
        ensures
            reqs@.len() == role_ids@.len(),
            forall|i: int|
                0 <= i < reqs@.len() ==> self.is_role_request(
                    #[trigger] reqs@[i],
                    LightMethod::Delete,
                    role_ids@[i],
                    reason,
                ),
    {
        let mut reqs: Vec<Request<'static>> = Vec::new();
        let mut i: usize = 0;
        while i < role_ids.len()
            invariant
                0 <= i <= role_ids.len(),
                reqs@.len() == i,
                forall|k: int|
                    0 <= k < i ==> self.is_role_request(
                        #[trigger] reqs@[k],
                        LightMethod::Delete,
                        role_ids@[k],
                        reason,
                    ),
            decreases role_ids.len() - i,
        {
            reqs.push(self.remove_role(http, role_ids[i], reason));
            i += 1;
        }
        reqs
    }

    /// The request that lifts the ban of the member's user from the guild.
    pub fn unban(&self, http: &Http, reason: Option<&str>) -> (req: Request<'static>)
        ensures
            req.method == LightMethod::Delete,
            req.route == (Route::GuildBan { guild_id: self.guild_id, user_id: self.user.id }),
            req.body is None,
            req.multipart is None,
            req.extra_headers() == reason_header(reason),
            req.params is None,
            req.wf(),
    {
        http.remove_ban(self.guild_id, self.user.id, reason)
    }
}

/// A part of the data of a member, as messages from guilds carry it.
#[derive(Clone, Debug)]
#[non_exhaustive]
pub struct PartialMember {
    /// When the member joined.
    pub joined_at: Option<Timestamp>,
    /// The nickname of the member in the guild, if they have one.
    pub nick: Option<String>,
    /// The ids of the roles of the member.
    pub roles: Vec<RoleId>,
    /// Since when the member boosts the guild.
    pub premium_since: Option<Timestamp>,
    /// The guild that the member belongs to, if it is known.
    pub guild_id: Option<GuildId>,
    /// The user that the member is, if it is known.
    pub user: Option<User>,
    /// The permissions of the member in a channel, with overwrites. Only
    /// there in the member of an interaction.
    pub permissions: Option<Permissions>,
    /// Until when the member is flagged for unusual direct message activity.
    pub unusual_dm_activity_until: Option<Timestamp>,
    /// Whether the member is deaf, mute or pending, one bit each.
    pub packed: PackedBools,
}

impl PartialMember {
    /// A partial member of which nothing is known.
    pub fn new() -> (p: PartialMember)
        ensures
            p.joined_at is None,
            p.nick is None,
            p.roles@.len() == 0,
            p.premium_since is None,
            p.guild_id is None,
            p.user is None,
            p.permissions is None,
            p.unusual_dm_activity_until is None,
            p.packed.0 == 0,
    {
        PartialMember {
            joined_at: None,
            nick: None,
            roles: Vec::new(),
            premium_since: None,
            guild_id: None,
            user: None,
            permissions: None,
            unusual_dm_activity_until: None,
            packed: PackedBools(0),
        }
    }

    /// Whether the member cannot hear in voice channels.
    pub fn deaf(&self) -> (r: bool)
        ensures
            r == self.packed.has(DEAF),
    {
        self.packed.contains(DEAF)
    }

    /// Whether the member cannot speak in voice channels.
    pub fn mute(&self) -> (r: bool)
        ensures
            r == self.packed.has(MUTE),
    {
        self.packed.contains(MUTE)
    }

    /// Whether the member has not accepted the rules of the guild yet.
    pub fn pending(&self) -> (r: bool)
        ensures
            r == self.packed.has(PENDING),
    {
        self.packed.contains(PENDING)
    }

    /// Sets whether the member cannot hear in voice channels.
    pub fn set_deaf(&mut self, value: bool)
        ensures
            *final(self) == (PartialMember {
                packed: old(self).packed.with(DEAF, value),
                ..*old(self)
            }),
    {
        self.packed.set(DEAF, value);
    }

    /// Sets whether the member cannot speak in voice channels.
    pub fn set_mute(&mut self, value: bool)
        ensures
            *final(self) == (PartialMember {
                packed: old(self).packed.with(MUTE, value),
                ..*old(self)
            }),
    {
        self.packed.set(MUTE, value);
    }

    /// Sets whether the member has not accepted the rules of the guild yet.
    pub fn set_pending(&mut self, value: bool)
        ensures
            *final(self) == (PartialMember {
                packed: old(self).packed.with(PENDING, value),
                ..*old(self)
            }),
    {
        self.packed.set(PENDING, value);
    }

    /// Makes the partial member of a member. Everything that a partial
    /// member has is taken over; the rest is dropped.
    pub fn from(member: Member) -> (partial: PartialMember)
        ensures
            partial.joined_at == member.joined_at,
            partial.nick == member.nick,
            partial.roles == member.roles,
            partial.premium_since == member.premium_since,
            partial.guild_id == Some(member.guild_id),
            partial.user == Some(member.user),
            partial.permissions == member.permissions,
            partial.unusual_dm_activity_until == member.unusual_dm_activity_until,
            partial.packed.has(DEAF) == member.packed.has(DEAF),
            partial.packed.has(MUTE) == member.packed.has(MUTE),
            partial.packed.has(PENDING) == member.packed.has(PENDING),
    {
        let (pending, deaf, mute) = (member.pending(), member.deaf(), member.mute());
        let mut partial = PartialMember {
            packed: PackedBools::empty(),
            joined_at: member.joined_at,
            nick: member.nick,
            roles: member.roles,
            premium_since: member.premium_since,
            guild_id: Some(member.guild_id),
            user: Some(member.user),
            permissions: member.permissions,
            unusual_dm_activity_until: member.unusual_dm_activity_until,
        };
        proof {
            lemma_flags_are_independent(partial.packed, deaf);
            lemma_flags_are_independent(partial.packed.with(DEAF, deaf), mute);
            lemma_flags_are_independent(partial.packed.with(DEAF, deaf).with(MUTE, mute), pending);
        }
        partial.set_deaf(deaf);
        partial.set_mute(mute);
        partial.set_pending(pending);
        partial
    }
}

impl Member {
    /// Makes a member of a partial member. What the partial member has is
    /// taken over; a user or a guild that it does not know becomes the
    /// default one, with the id 1; the member has no avatar of its own, no
    /// flags and no timeout.
    pub fn from(partial: PartialMember) -> (member: Member)
        ensures
            match partial.user {
                Some(u) => member.user == u,
                None => member.user.id == UserId(1) && member.user.name@.len() == 0
                    && member.user.discriminator is None
                    && member.user.global_name is None && member.user.avatar is None
                        && !member.user.bot,
            },
            member.nick == partial.nick,
            member.avatar is None,
            member.roles == partial.roles,
            member.joined_at == partial.joined_at,
            member.premium_since == partial.premium_since,
            member.flags.0 == 0,
            member.permissions == partial.permissions,
            member.communication_disabled_until is None,
            member.guild_id == (match partial.guild_id {
                Some(id) => id,
                None => GuildId(1),
            }),
            member.unusual_dm_activity_until == partial.unusual_dm_activity_until,
            member.packed.has(DEAF) == partial.packed.has(DEAF),
            member.packed.has(MUTE) == partial.packed.has(MUTE),
            member.packed.has(PENDING) == partial.packed.has(PENDING),
    {
        let (pending, deaf, mute) = (partial.pending(), partial.deaf(), partial.mute());
        let user = match partial.user {
            Some(u) => u,
            None => User::default(),
        };
        let guild_id = match partial.guild_id {
            Some(id) => id,
            None => GuildId::new(1),
        };
        let mut member = Member {
            packed: PackedBools::empty(),
            user,
            nick: partial.nick,
            avatar: None,
            roles: partial.roles,
            joined_at: partial.joined_at,
            premium_since: partial.premium_since,
            flags: GuildMemberFlags::default(),
            permissions: partial.permissions,
            communication_disabled_until: None,
            guild_id,
            unusual_dm_activity_until: partial.unusual_dm_activity_until,
        };
        proof {
            lemma_flags_are_independent(member.packed, pending);
            lemma_flags_are_independent(member.packed.with(PENDING, pending), deaf);
            lemma_flags_are_independent(member.packed.with(PENDING, pending).with(DEAF, deaf), mute);
        }
        member.set_pending(pending);
        member.set_deaf(deaf);
        member.set_mute(mute);
        member
    }
}

/// The settings of the current user in a thread, one bit each.
#[derive(Clone, Copy, Debug, PartialEq, Eq, Structural, Hash)]
pub struct ThreadMemberFlags(pub u64);

impl ThreadMemberFlags {
    /// The bits of the flags.
    pub fn bits(self) -> (b: u64)
        ensures
            b == self.0,
    {
        self.0
    }
}

impl Default for ThreadMemberFlags {
    fn default() -> (f: Self)
        ensures
            f.0 == 0,
    {
        ThreadMemberFlags(0)
    }
}

/// What a thread tells of the current user in it.
#[derive(Clone, Debug)]
#[non_exhaustive]
pub struct PartialThreadMember {
    /// When the current user last joined the thread.
    pub join_timestamp: Timestamp,
    /// The settings of the user in the thread.
    pub flags: ThreadMemberFlags,
}

impl PartialThreadMember {
    /// What a thread tells of the current user who joined it at
    /// `join_timestamp`.
    pub fn new(join_timestamp: Timestamp, flags: ThreadMemberFlags) -> (m: PartialThreadMember)
        ensures
            m.join_timestamp == join_timestamp,
            m.flags == flags,
    {
        PartialThreadMember { join_timestamp, flags }
    }
}

/// A user in a thread of a guild.
#[derive(Clone, Debug)]
#[non_exhaustive]
pub struct ThreadMember {
    pub inner: PartialThreadMember,
    /// The id of the thread.
    pub id: ChannelId,
    /// The id of the user.
    pub user_id: UserId,
    /// More about the user, where the listing was asked to give it.
    pub member: Option<Member>,
    /// The guild of the thread, where the event names it.
    pub guild_id: Option<GuildId>,
}

impl ThreadMember {
    /// The user `user_id` in the thread `id`, with nothing more known of
    /// them.
    pub fn new(inner: PartialThreadMember, id: ChannelId, user_id: UserId) -> (m: ThreadMember)
        ensures
            m.inner == inner,
            m.id == id,
            m.user_id == user_id,
            m.member is None,
            m.guild_id is None,
    {
        ThreadMember { inner, id, user_id, member: None, guild_id: None }
    }
}

} // verus!
