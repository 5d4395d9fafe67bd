use nonmax::NonMaxU16;
use serenity::builder::edit_member::EditMember;
use serenity::cache::Cache;
use serenity::http::client::Http;
use serenity::http::error::DispatchError;
use serenity::http::request::LightMethod;
use serenity::model::channel::reaction::ReactionType;
use serenity::model::channel::{
    ChannelType, GuildChannel, PermissionOverwrite, PermissionOverwriteType,
};
use serenity::model::colour::Colour;
use serenity::model::error::ModelError;
use serenity::model::guild::member::{
    GuildMemberFlags, Member, PackedBools, PartialMember, PartialThreadMember, ThreadMember,
    ThreadMemberFlags, DEAF, MUTE, PENDING,
};
use serenity::model::guild::role::Role;
use serenity::model::guild::Guild;
use serenity::model::id::{ChannelId, EmojiId, GuildId, RoleId, UserId};
use serenity::model::misc::ImageHash;
use serenity::model::permissions::{Permissions, ADMINISTRATOR, ALL_PERMISSIONS, VIEW_CHANNEL};
use serenity::model::timestamp::Timestamp;
use serenity::model::user::User;

fn user(id: u64, name: &str) -> User {
    User {
        id: UserId::new(id),
        name: name.to_string(),
        discriminator: None,
        global_name: None,
        avatar: None,
        bot: false,
    }
}

fn member(id: u64, name: &str, roles: &[u64]) -> Member {
    let mut partial = PartialMember::new();
    partial.roles = roles.iter().map(|r| RoleId::new(*r)).collect();
    partial.guild_id = Some(GuildId::new(100));
    partial.user = Some(user(id, name));
    Member::from(partial)
}

fn role(id: u64, position: i16, colour: u32, permissions: u64) -> Role {
    Role {
        id: RoleId::new(id),
        guild_id: GuildId::new(100),
        colour: Colour::new(colour),
        name: format!("role{}", id),
        permissions: Permissions(permissions),
        position,
    }
}

fn channel(id: u64, kind: ChannelType, overwrites: Vec<PermissionOverwrite>) -> GuildChannel {
    GuildChannel {
        id: ChannelId::new(id),
        guild_id: GuildId::new(100),
        kind,
        name: format!("channel{}", id),
        permission_overwrites: overwrites,
    }
}

fn guild(roles: Vec<Role>, members: Vec<Member>, channels: Vec<GuildChannel>) -> Guild {
    Guild { id: GuildId::new(100), owner_id: UserId::new(1), roles, members, channels }
}

fn hash(animated: bool) -> ImageHash {
    ImageHash {
        hash: [0x00, 0x01, 0x0a, 0x0f, 0x10, 0x7f, 0x80, 0xab, 0xcd, 0xef, 0xff, 0x12, 0x34, 0x56, 0x78, 0x9a],
        is_animated: animated,
    }
}

#[test]
fn display_name_prefers_nick_then_global_name() {
    let mut m = member(2, "unique", &[]);
    assert_eq!(m.display_name(), "unique");
    m.user.global_name = Some("Shown".to_string());
    assert_eq!(m.display_name(), "Shown");
    m.nick = Some("Nick".to_string());
    assert_eq!(m.display_name(), "Nick");
}

#[test]
fn distinct_pads_the_discriminator() {
    let mut m = member(2, "name", &[]);
    assert_eq!(m.distinct(), "name");
    m.user.discriminator = NonMaxU16::new(42);
    assert_eq!(m.distinct(), "name#0042");
    m.user.discriminator = NonMaxU16::new(0);
    assert_eq!(m.distinct(), "name#0000");
    m.user.discriminator = NonMaxU16::new(7);
    assert_eq!(m.distinct(), "name#0007");
    m.user.discriminator = NonMaxU16::new(999);
    assert_eq!(m.distinct(), "name#0999");
    m.user.discriminator = NonMaxU16::new(1000);
    assert_eq!(m.distinct(), "name#1000");
    m.user.discriminator = NonMaxU16::new(65534);
    assert_eq!(m.distinct(), "name#65534");
    m.nick = Some("Nick".to_string());
    m.user.discriminator = NonMaxU16::new(1);
    assert_eq!(m.distinct(), "Nick#0001");
}

#[test]
fn image_hash_text() {
    assert_eq!(hash(false).to_text(), "00010a0f107f80abcdefff123456789a");
    assert_eq!(hash(true).to_text(), "a_00010a0f107f80abcdefff123456789a");
}

#[test]
fn member_avatar_url() {
    let mut m = member(2, "name", &[]);
    assert_eq!(m.avatar_url(), None);
    m.avatar = Some(hash(false));
    assert_eq!(
        m.avatar_url().unwrap(),
        "https://cdn.discordapp.com/guilds/100/users/2/avatars/00010a0f107f80abcdefff123456789a.webp?size=1024"
    );
    m.avatar = Some(hash(true));
    assert_eq!(
        m.avatar_url().unwrap(),
        "https://cdn.discordapp.com/guilds/100/users/2/avatars/a_00010a0f107f80abcdefff123456789a.gif?size=1024"
    );
}

#[test]
fn face_falls_back_to_the_user_and_then_the_default() {
    let mut m = member(2, "name", &[]);
    m.user.id = UserId::new(5 << 22);
    assert_eq!(m.face(), "https://cdn.discordapp.com/embed/avatars/5.png");
    m.user.id = UserId::new(6 << 22);
    assert_eq!(m.face(), "https://cdn.discordapp.com/embed/avatars/0.png");
    m.user.discriminator = NonMaxU16::new(7);
    assert_eq!(m.face(), "https://cdn.discordapp.com/embed/avatars/2.png");
    m.user.avatar = Some(hash(false));
    assert_eq!(
        m.face(),
        format!("https://cdn.discordapp.com/avatars/{}/00010a0f107f80abcdefff123456789a.webp?size=1024", 6u64 << 22)
    );
    m.avatar = Some(hash(true));
    assert_eq!(
        m.face(),
        format!(
            "https://cdn.discordapp.com/guilds/100/users/{}/avatars/a_00010a0f107f80abcdefff123456789a.gif?size=1024",
            6u64 << 22
        )
    );
}

#[test]
fn mention_names_the_user() {
    let m = member(1234, "name", &[]);
    assert_eq!(m.mention(), "<@1234>");
    assert_eq!(*m.extract_key(), UserId::new(1234));
}

#[test]
fn colour_is_that_of_the_highest_coloured_role() {
    let g = guild(
        vec![
            role(100, 0, 0, 0),
            role(10, 1, 0x111111, 0),
            role(11, 5, 0, 0),
            role(12, 3, 0x333333, 0),
            role(13, 3, 0x444444, 0),
            role(14, 9, 0x999999, 0),
        ],
        Vec::new(),
        Vec::new(),
    );
    let cache = Cache { guilds: vec![g] };
    assert_eq!(member(2, "m", &[10, 11, 12]).colour(&cache), Some(Colour::new(0x333333)));
    assert_eq!(member(2, "m", &[12, 13, 10]).colour(&cache), Some(Colour::new(0x444444)));
    assert_eq!(member(2, "m", &[13, 12]).colour(&cache), Some(Colour::new(0x444444)));
    assert_eq!(member(2, "m", &[11]).colour(&cache), None);
    assert_eq!(member(2, "m", &[]).colour(&cache), None);
    assert_eq!(member(2, "m", &[999]).colour(&cache), None);
    assert_eq!(member(2, "m", &[10, 14, 12]).colour(&cache), Some(Colour::new(0x999999)));
}

#[test]
fn colour_needs_the_guild_in_the_cache() {
    assert_eq!(member(2, "m", &[10]).colour(&Cache::new()), None);
}

#[test]
fn roles_are_given_in_the_order_of_the_guild() {
    let g = guild(vec![role(10, 1, 0, 0), role(11, 2, 0, 0), role(12, 3, 0, 0)], Vec::new(), Vec::new());
    let cache = Cache { guilds: vec![g] };
    let held = member(2, "m", &[12, 10, 77]).roles(&cache).unwrap();
    let ids: Vec<u64> = held.iter().map(|r| r.id.get()).collect();
    assert_eq!(ids, vec![10, 12]);
    assert_eq!(held[1].name, "role12");
    assert!(member(2, "m", &[]).roles(&cache).unwrap().is_empty());
    assert!(member(2, "m", &[10]).roles(&Cache::new()).is_none());
}

fn deny_view_for_everyone() -> PermissionOverwrite {
    PermissionOverwrite {
        allow: Permissions(0),
        deny: Permissions(VIEW_CHANNEL),
        kind: PermissionOverwriteType::Role(RoleId::new(100)),
    }
}

#[test]
fn default_channel_is_the_first_that_the_member_sees() {
    let m = member(2, "m", &[10]);
    let g = guild(
        vec![role(100, 0, 0, VIEW_CHANNEL), role(10, 1, 0, 0)],
        vec![member(2, "m", &[10])],
        vec![
            channel(1, ChannelType::Category, Vec::new()),
            channel(2, ChannelType::Text, vec![deny_view_for_everyone()]),
            channel(3, ChannelType::Voice, Vec::new()),
            channel(4, ChannelType::Text, Vec::new()),
        ],
    );
    let cache = Cache { guilds: vec![g] };
    let found = m.default_channel(&cache).unwrap();
    assert_eq!(found.id, ChannelId::new(3));
    assert_eq!(found.name, "channel3");
    assert_eq!(found.kind, ChannelType::Voice);
}

#[test]
fn default_channel_may_be_missing() {
    let m = member(2, "m", &[]);
    assert!(m.default_channel(&Cache::new()).is_none());
    let no_member = guild(vec![role(100, 0, 0, VIEW_CHANNEL)], Vec::new(), vec![channel(1, ChannelType::Text, Vec::new())]);
    assert!(m.default_channel(&Cache { guilds: vec![no_member] }).is_none());
    let hidden = guild(
        vec![role(100, 0, 0, 0)],
        vec![member(2, "m", &[])],
        vec![channel(1, ChannelType::Text, Vec::new()), channel(2, ChannelType::Category, Vec::new())],
    );
    assert!(m.default_channel(&Cache { guilds: vec![hidden] }).is_none());
}

#[test]
fn permissions_of_owner_and_administrator() {
    let g = guild(
        vec![role(100, 0, 0, 0), role(10, 1, 0, ADMINISTRATOR)],
        Vec::new(),
        Vec::new(),
    );
    let c = channel(1, ChannelType::Text, vec![deny_view_for_everyone()]);
    assert_eq!(g.user_permissions_in(&c, &member(1, "owner", &[])).bits(), ALL_PERMISSIONS);
    assert_eq!(g.user_permissions_in(&c, &member(2, "admin", &[10])).bits(), ALL_PERMISSIONS);
    assert_eq!(g.user_permissions_in(&c, &member(3, "nobody", &[])).bits(), 0);
}

#[test]
fn permission_overwrites_apply_in_order() {
    let g = guild(
        vec![role(100, 0, 0, 0b0011), role(10, 1, 0, 0b0100), role(11, 2, 0, 0b1_0000)],
        Vec::new(),
        Vec::new(),
    );
    let c = channel(
        1,
        ChannelType::Text,
        vec![
            PermissionOverwrite {
                allow: Permissions(0b1000_0000),
                deny: Permissions(0b0001),
                kind: PermissionOverwriteType::Role(RoleId::new(100)),
            },
            PermissionOverwrite {
                allow: Permissions(0b0001),
                deny: Permissions(0b0100),
                kind: PermissionOverwriteType::Role(RoleId::new(10)),
            },
            PermissionOverwrite {
                allow: Permissions(0b10_0000),
                deny: Permissions(0),
                kind: PermissionOverwriteType::Role(RoleId::new(11)),
            },
            PermissionOverwrite {
                allow: Permissions(0b100_0000),
                deny: Permissions(0b1000_0000),
                kind: PermissionOverwriteType::Member(UserId::new(2)),
            },
            PermissionOverwrite {
                allow: Permissions(0b1_0000_0000),
                deny: Permissions(0),
                kind: PermissionOverwriteType::Member(UserId::new(3)),
            },
        ],
    );
    assert_eq!(g.user_permissions_in(&c, &member(2, "m", &[10])).bits(), 0b0100_0011);
    assert_eq!(g.user_permissions_in(&c, &member(4, "other", &[])).bits(), 0b1000_0010);
    assert_eq!(g.user_permissions_in(&c, &member(3, "third", &[10, 11])).bits(), 0b1_1011_0011);
}

#[test]
fn permissions_set_operations() {
    let p = Permissions::from_bits_truncate(u64::MAX);
    assert_eq!(p, Permissions::all());
    assert!(p.administrator());
    assert!(p.view_channel());
    assert!(p.contains(Permissions(VIEW_CHANNEL | ADMINISTRATOR)));
    assert!(!Permissions::empty().contains(Permissions(1)));
    assert!(Permissions::empty().contains(Permissions::empty()));
    assert_eq!(Permissions(0b0110).union(Permissions(0b0011)), Permissions(0b0111));
    assert_eq!(Permissions(0b0110).difference(Permissions(0b0011)), Permissions(0b0100));
    assert_eq!(Permissions::default(), Permissions::empty());
}

#[test]
fn flags_are_set_one_by_one() {
    let mut m = member(2, "m", &[]);
    assert!(!m.deaf() && !m.mute() && !m.pending());
    m.set_mute(true);
    assert!(!m.deaf() && m.mute() && !m.pending());
    m.set_pending(true);
    m.set_deaf(true);
    assert!(m.deaf() && m.mute() && m.pending());
    assert_eq!(m.packed, PackedBools(DEAF | MUTE | PENDING));
    m.set_mute(false);
    assert!(m.deaf() && !m.mute() && m.pending());
    m.set_deaf(false);
    m.set_pending(false);
    assert_eq!(m.packed, PackedBools::empty());
}

#[test]
fn member_of_partial_and_back() {
    let mut partial = PartialMember::new();
    partial.joined_at = Some(Timestamp::from_unix_timestamp(5));
    partial.nick = Some("n".to_string());
    partial.roles = vec![RoleId::new(3)];
    partial.premium_since = Some(Timestamp::from_unix_timestamp(6));
    partial.guild_id = Some(GuildId::new(7));
    partial.user = Some(user(8, "u"));
    partial.permissions = Some(Permissions(9));
    partial.unusual_dm_activity_until = Some(Timestamp::from_unix_timestamp(10));
    partial.set_deaf(true);
    partial.set_pending(true);
    let m = Member::from(partial);
    assert_eq!(m.user.id, UserId::new(8));
    assert_eq!(m.nick.as_deref(), Some("n"));
    assert_eq!(m.roles, vec![RoleId::new(3)]);
    assert_eq!(m.joined_at, Some(Timestamp(5)));
    assert_eq!(m.premium_since, Some(Timestamp(6)));
    assert_eq!(m.guild_id, GuildId::new(7));
    assert_eq!(m.permissions, Some(Permissions(9)));
    assert_eq!(m.unusual_dm_activity_until, Some(Timestamp(10)));
    assert_eq!(m.flags, GuildMemberFlags(0));
    assert!(m.avatar.is_none());
    assert!(m.communication_disabled_until.is_none());
    assert!(m.deaf() && !m.mute() && m.pending());
    let back = PartialMember::from(m);
    assert_eq!(back.guild_id, Some(GuildId::new(7)));
    assert_eq!(back.user.as_ref().unwrap().name, "u");
    assert_eq!(back.roles, vec![RoleId::new(3)]);
    assert!(back.deaf() && !back.mute() && back.pending());
}

#[test]
fn member_of_partial_without_user_and_guild() {
    let m = Member::from(PartialMember::new());
    assert_eq!(m.user.id, UserId::new(1));
    assert_eq!(m.user.name, "");
    assert_eq!(m.guild_id, GuildId::new(1));
}

#[test]
fn member_requests() {
    let http = Http::without_token();
    let m = member(2, "m", &[]);
    let req = m.add_role(&http, RoleId::new(5), Some("r"));
    assert_eq!(req.method, LightMethod::Put);
    assert_eq!(req.route.path(), "https://discord.com/api/v10/guilds/100/members/2/roles/5");
    let req = m.remove_role(&http, RoleId::new(5), None);
    assert_eq!(req.method, LightMethod::Delete);
    assert_eq!(req.route.path(), "https://discord.com/api/v10/guilds/100/members/2/roles/5");
    let req = m.kick(&http, None);
    assert_eq!(req.method, LightMethod::Delete);
    assert_eq!(req.route.path(), "https://discord.com/api/v10/guilds/100/members/2");
    let req = m.unban(&http, None);
    assert_eq!(req.method, LightMethod::Delete);
    assert_eq!(req.route.path(), "https://discord.com/api/v10/guilds/100/bans/2");
    let req = m.edit_request(&http, b"{}".to_vec(), None);
    assert_eq!(req.method, LightMethod::Patch);
    assert_eq!(req.body, Some(b"{}".to_vec()));
}

#[test]
fn several_roles_are_several_requests() {
    let http = Http::without_token();
    let m = member(2, "m", &[]);
    let reqs = m.add_roles(&http, &[RoleId::new(5), RoleId::new(6), RoleId::new(7)], None);
    let paths: Vec<String> = reqs.iter().map(|r| r.route.path()).collect();
    assert_eq!(
        paths,
        vec![
            "https://discord.com/api/v10/guilds/100/members/2/roles/5",
            "https://discord.com/api/v10/guilds/100/members/2/roles/6",
            "https://discord.com/api/v10/guilds/100/members/2/roles/7",
        ]
    );
    assert!(reqs.iter().all(|r| r.method == LightMethod::Put));
    let reqs = m.remove_roles(&http, &[RoleId::new(5)], Some("x"));
    assert_eq!(reqs.len(), 1);
    assert_eq!(reqs[0].method, LightMethod::Delete);
    assert!(m.add_roles(&http, &[], None).is_empty());
}

#[test]
fn ban_refuses_more_than_seven_days() {
    let http = Http::without_token();
    let m = member(2, "m", &[]);
    match m.ban(&http, 8, None) {
        Err(e) => assert_eq!(e, ModelError::TooLarge { maximum: 7, value: 8 }),
        Ok(_) => panic!("a ban over seven days was taken"),
    }
    let req = m.ban(&http, 7, None).unwrap();
    assert_eq!(req.route.path(), "https://discord.com/api/v10/guilds/100/bans/2");
    assert_eq!(req.params.as_ref().unwrap()[0].1, "604800");
    assert!(m.ban(&http, 0, None).is_ok());
}

#[test]
fn timeout_is_recorded_only_on_success() {
    let mut m = member(2, "m", &[]);
    let until = Timestamp::from_unix_timestamp(1_700_000_000);
    let r = m.disable_communication_until(until, Err(DispatchError::ServerError { status: 500, body: None }));
    assert!(matches!(r, Err(DispatchError::ServerError { status: 500, .. })));
    assert_eq!(m.communication_disabled_until, None);
    assert!(m.disable_communication_until(until, Ok(())).is_ok());
    assert_eq!(m.communication_disabled_until, Some(until));
}

#[test]
fn edit_replaces_the_member_only_on_success() {
    let mut m = member(2, "old", &[]);
    assert!(m.edit(Err(DispatchError::Decode)).is_err());
    assert_eq!(m.user.name, "old");
    assert!(m.edit(Ok(member(2, "new", &[9]))).is_ok());
    assert_eq!(m.user.name, "new");
    assert!(m.enable_communication(Ok(member(2, "newer", &[]))).is_ok());
    assert_eq!(m.user.name, "newer");
}

#[test]
fn voice_payloads() {
    let m = member(2, "m", &[]);
    let b = m.move_to_voice_channel(ChannelId::new(4));
    assert_eq!(b.channel_id, Some(Some(ChannelId::new(4))));
    assert!(b.nick.is_none() && b.deaf.is_none());
    let b = m.disconnect_from_voice();
    assert_eq!(b.channel_id, Some(None));
    let b = EditMember::new()
        .deafen(true)
        .mute(false)
        .nickname("n".into())
        .roles(vec![RoleId::new(1)])
        .disable_communication_until(Timestamp(3))
        .flags(GuildMemberFlags(4))
        .audit_log_reason("why");
    assert_eq!(b.deaf, Some(true));
    assert_eq!(b.mute, Some(false));
    assert_eq!(b.nick.as_deref(), Some("n"));
    assert_eq!(b.communication_disabled_until, Some(Some(Timestamp(3))));
    assert_eq!(b.enable_communication().communication_disabled_until, Some(None));
}

#[test]
fn new_member_knows_only_user_and_guild() {
    let m = Member::new(user(3, "u"), GuildId::new(4));
    assert_eq!(m.user.id, UserId::new(3));
    assert_eq!(m.guild_id, GuildId::new(4));
    assert!(m.roles.is_empty());
    assert!(!m.deaf() && !m.mute() && !m.pending());
    let inner = PartialThreadMember::new(Timestamp(9), ThreadMemberFlags(1));
    let t = ThreadMember::new(inner, ChannelId::new(5), UserId::new(3));
    assert_eq!(t.inner.join_timestamp, Timestamp(9));
    assert_eq!(t.inner.flags.bits(), 1);
    assert_eq!(t.id, ChannelId::new(5));
    assert!(t.member.is_none());
}

#[test]
fn reaction_data() {
    let custom = ReactionType::Custom { animated: false, id: EmojiId::new(77), name: Some("blob".to_string()) };
    assert_eq!(custom.as_data(), "blob:77");
    let unnamed = ReactionType::Custom { animated: true, id: EmojiId::new(5), name: None };
    assert_eq!(unnamed.as_data(), ":5");
    assert_eq!(ReactionType::Unicode("👍".to_string()).as_data(), "%F0%9F%91%8D");
    assert_eq!(ReactionType::Unicode("a b".to_string()).as_data(), "a%20b");
}
