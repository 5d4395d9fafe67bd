//! The routes of the API: one variant per endpoint family, the path that each
//! stands for, and the rate-limit bucket that each falls in.

use crate::model::id::{
    AnswerId, ApplicationId, ChannelId, CommandId, EmojiId, EntitlementId, GuildId, IntegrationId,
    InteractionId, MessageId, RoleId, RuleId, ScheduledEventId, StickerId, StickerPackId, TargetId,
    UserId, WebhookId,
};
use crate::text::{decimal, decimal_u64};
use vstd::prelude::*;
use vstd::string::StringExecFns;

verus! {

/// The server that a route is on.
#[derive(Clone, Copy, Debug, PartialEq, Eq, Structural)]
pub enum Root {
    /// The API proper.
    Api,
    /// The status page.
    Status,
}

impl Root {
    /// The scheme and host of the server.
    pub open spec fn host(self) -> Seq<char> {
        match self {
            Root::Api => "https://discord.com"@,
            Root::Status => "https://status.discord.com"@,
        }
    }

    /// The path under which the server's routes stand.
    pub open spec fn prefix(self) -> Seq<char> {
        match self {
            Root::Api => "/api/v10"@,
            Root::Status => "/api/v2"@,
        }
    }

    /// The scheme and host of the server.
    pub fn host_text(self) -> (s: &'static str)
        ensures
            s@ == self.host(),
    {
        match self {
            Root::Api => "https://discord.com",
            Root::Status => "https://status.discord.com",
        }
    }

    /// The path under which the server's routes stand.
    pub fn prefix_text(self) -> (s: &'static str)
        ensures
            s@ == self.prefix(),
    {
        match self {
            Root::Api => "/api/v10",
            Root::Status => "/api/v2",
        }
    }
}

/// The template of a route: which endpoint family it is, without its
/// parameters.
#[derive(Clone, Copy, Debug, PartialEq, Eq, Structural, Hash)]
pub enum RouteKind {
    Channel,
    ChannelInvites,
    ChannelMessage,
    ChannelMessageCrosspost,
    ChannelMessageReaction,
    ChannelMessageReactionMe,
    ChannelMessageReactionEmoji,
    ChannelMessageReactions,
    ChannelMessages,
    ChannelMessagesBulkDelete,
    ChannelFollowNews,
    ChannelPermission,
    ChannelPin,
    ChannelPins,
    ChannelTyping,
    ChannelWebhooks,
    ChannelMessageThreads,
    ChannelThreads,
    ChannelForumPosts,
    ChannelThreadMember,
    ChannelThreadMemberMe,
    ChannelThreadMembers,
    ChannelArchivedPublicThreads,
    ChannelArchivedPrivateThreads,
    ChannelJoinedPrivateThreads,
    ChannelPollGetAnswerVoters,
    ChannelPollExpire,
    ChannelVoiceStatus,
    Gateway,
    GatewayBot,
    Guild,
    GuildAuditLogs,
    GuildAutomodRule,
    GuildAutomodRules,
    GuildBan,
    GuildBulkBan,
    GuildBans,
    GuildChannels,
    GuildWidget,
    GuildPreview,
    GuildEmojis,
    GuildEmoji,
    GuildIntegration,
    GuildIntegrationSync,
    GuildIntegrations,
    GuildInvites,
    GuildMember,
    GuildMemberRole,
    GuildMembers,
    GuildMembersSearch,
    GuildMemberMe,
    GuildMfa,
    GuildPrune,
    GuildRegions,
    GuildRole,
    GuildRoles,
    GuildScheduledEvent,
    GuildScheduledEvents,
    GuildScheduledEventUsers,
    GuildSticker,
    GuildStickers,
    GuildVanityUrl,
    GuildVoiceStates,
    GuildVoiceStateMe,
    GuildWebhooks,
    GuildWelcomeScreen,
    GuildThreadsActive,
    Guilds,
    Invite,
    OAuth2ApplicationCurrent,
    StatusIncidentsUnresolved,
    StatusMaintenancesActive,
    StatusMaintenancesUpcoming,
    Sticker,
    StickerPacks,
    StickerPack,
    User,
    UserMe,
    UserMeConnections,
    UserMeDmChannels,
    UserMeGuild,
    UserMeGuildMember,
    UserMeGuilds,
    VoiceRegions,
    Webhook,
    WebhookWithToken,
    WebhookMessage,
    WebhookOriginalInteractionResponse,
    WebhookFollowupMessage,
    WebhookFollowupMessages,
    InteractionResponse,
    Command,
    Commands,
    GuildCommand,
    GuildCommandPermissions,
    GuildCommands,
    GuildCommandsPermissions,
    Skus,
    Emoji,
    Emojis,
    Entitlement,
    Entitlements,
    StageInstances,
    StageInstance,
}

/// The number of route templates.
pub const ROUTE_KINDS: u16 = 104;

impl RouteKind {
    /// The position of the template in the list of templates.
    pub open spec fn index(self) -> u16 {
        match self {
            RouteKind::Channel => 0,
            RouteKind::ChannelInvites => 1,
            RouteKind::ChannelMessage => 2,
            RouteKind::ChannelMessageCrosspost => 3,
            RouteKind::ChannelMessageReaction => 4,
            RouteKind::ChannelMessageReactionMe => 5,
            RouteKind::ChannelMessageReactionEmoji => 6,
            RouteKind::ChannelMessageReactions => 7,
            RouteKind::ChannelMessages => 8,
            RouteKind::ChannelMessagesBulkDelete => 9,
            RouteKind::ChannelFollowNews => 10,
            RouteKind::ChannelPermission => 11,
            RouteKind::ChannelPin => 12,
            RouteKind::ChannelPins => 13,
            RouteKind::ChannelTyping => 14,
            RouteKind::ChannelWebhooks => 15,
            RouteKind::ChannelMessageThreads => 16,
            RouteKind::ChannelThreads => 17,
            RouteKind::ChannelForumPosts => 18,
            RouteKind::ChannelThreadMember => 19,
            RouteKind::ChannelThreadMemberMe => 20,
            RouteKind::ChannelThreadMembers => 21,
            RouteKind::ChannelArchivedPublicThreads => 22,
            RouteKind::ChannelArchivedPrivateThreads => 23,
            RouteKind::ChannelJoinedPrivateThreads => 24,
            RouteKind::ChannelPollGetAnswerVoters => 25,
            RouteKind::ChannelPollExpire => 26,
            RouteKind::ChannelVoiceStatus => 27,
            RouteKind::Gateway => 28,
            RouteKind::GatewayBot => 29,
            RouteKind::Guild => 30,
            RouteKind::GuildAuditLogs => 31,
            RouteKind::GuildAutomodRule => 32,
            RouteKind::GuildAutomodRules => 33,
            RouteKind::GuildBan => 34,
            RouteKind::GuildBulkBan => 35,
            RouteKind::GuildBans => 36,
            RouteKind::GuildChannels => 37,
            RouteKind::GuildWidget => 38,
            RouteKind::GuildPreview => 39,
            RouteKind::GuildEmojis => 40,
            RouteKind::GuildEmoji => 41,
            RouteKind::GuildIntegration => 42,
            RouteKind::GuildIntegrationSync => 43,
            RouteKind::GuildIntegrations => 44,
            RouteKind::GuildInvites => 45,
            RouteKind::GuildMember => 46,
            RouteKind::GuildMemberRole => 47,
            RouteKind::GuildMembers => 48,
            RouteKind::GuildMembersSearch => 49,
            RouteKind::GuildMemberMe => 50,
            RouteKind::GuildMfa => 51,
            RouteKind::GuildPrune => 52,
            RouteKind::GuildRegions => 53,
            RouteKind::GuildRole => 54,
            RouteKind::GuildRoles => 55,
            RouteKind::GuildScheduledEvent => 56,
            RouteKind::GuildScheduledEvents => 57,
            RouteKind::GuildScheduledEventUsers => 58,
            RouteKind::GuildSticker => 59,
            RouteKind::GuildStickers => 60,
            RouteKind::GuildVanityUrl => 61,
            RouteKind::GuildVoiceStates => 62,
            RouteKind::GuildVoiceStateMe => 63,
            RouteKind::GuildWebhooks => 64,
            RouteKind::GuildWelcomeScreen => 65,
            RouteKind::GuildThreadsActive => 66,
            RouteKind::Guilds => 67,
            RouteKind::Invite => 68,
            RouteKind::OAuth2ApplicationCurrent => 69,
            RouteKind::StatusIncidentsUnresolved => 70,
            RouteKind::StatusMaintenancesActive => 71,
            RouteKind::StatusMaintenancesUpcoming => 72,
            RouteKind::Sticker => 73,
            RouteKind::StickerPacks => 74,
            RouteKind::StickerPack => 75,
            RouteKind::User => 76,
            RouteKind::UserMe => 77,
            RouteKind::UserMeConnections => 78,
            RouteKind::UserMeDmChannels => 79,
            RouteKind::UserMeGuild => 80,
            RouteKind::UserMeGuildMember => 81,
            RouteKind::UserMeGuilds => 82,
            RouteKind::VoiceRegions => 83,
            RouteKind::Webhook => 84,
            RouteKind::WebhookWithToken => 85,
            RouteKind::WebhookMessage => 86,
            RouteKind::WebhookOriginalInteractionResponse => 87,
            RouteKind::WebhookFollowupMessage => 88,
            RouteKind::WebhookFollowupMessages => 89,
            RouteKind::InteractionResponse => 90,
            RouteKind::Command => 91,
            RouteKind::Commands => 92,
            RouteKind::GuildCommand => 93,
            RouteKind::GuildCommandPermissions => 94,
            RouteKind::GuildCommands => 95,
            RouteKind::GuildCommandsPermissions => 96,
            RouteKind::Skus => 97,
            RouteKind::Emoji => 98,
            RouteKind::Emojis => 99,
            RouteKind::Entitlement => 100,
            RouteKind::Entitlements => 101,
            RouteKind::StageInstances => 102,
            RouteKind::StageInstance => 103,
        }
    }

    /// The position of the template in the list of templates: below
    /// `ROUTE_KINDS`, and different for different templates.
    pub fn ordinal(self) -> (i: u16)
        ensures
            i == self.index(),
            i < ROUTE_KINDS,
    {
        match self {
            RouteKind::Channel => 0,
            RouteKind::ChannelInvites => 1,
            RouteKind::ChannelMessage => 2,
            RouteKind::ChannelMessageCrosspost => 3,
            RouteKind::ChannelMessageReaction => 4,
            RouteKind::ChannelMessageReactionMe => 5,
            RouteKind::ChannelMessageReactionEmoji => 6,
            RouteKind::ChannelMessageReactions => 7,
            RouteKind::ChannelMessages => 8,
            RouteKind::ChannelMessagesBulkDelete => 9,
            RouteKind::ChannelFollowNews => 10,
            RouteKind::ChannelPermission => 11,
            RouteKind::ChannelPin => 12,
            RouteKind::ChannelPins => 13,
            RouteKind::ChannelTyping => 14,
            RouteKind::ChannelWebhooks => 15,
            RouteKind::ChannelMessageThreads => 16,
            RouteKind::ChannelThreads => 17,
            RouteKind::ChannelForumPosts => 18,
            RouteKind::ChannelThreadMember => 19,
            RouteKind::ChannelThreadMemberMe => 20,
            RouteKind::ChannelThreadMembers => 21,
            RouteKind::ChannelArchivedPublicThreads => 22,
            RouteKind::ChannelArchivedPrivateThreads => 23,
            RouteKind::ChannelJoinedPrivateThreads => 24,
            RouteKind::ChannelPollGetAnswerVoters => 25,
            RouteKind::ChannelPollExpire => 26,
            RouteKind::ChannelVoiceStatus => 27,
            RouteKind::Gateway => 28,
            RouteKind::GatewayBot => 29,
            RouteKind::Guild => 30,
            RouteKind::GuildAuditLogs => 31,
            RouteKind::GuildAutomodRule => 32,
            RouteKind::GuildAutomodRules => 33,
            RouteKind::GuildBan => 34,
            RouteKind::GuildBulkBan => 35,
            RouteKind::GuildBans => 36,
            RouteKind::GuildChannels => 37,
            RouteKind::GuildWidget => 38,
            RouteKind::GuildPreview => 39,
            RouteKind::GuildEmojis => 40,
            RouteKind::GuildEmoji => 41,
            RouteKind::GuildIntegration => 42,
            RouteKind::GuildIntegrationSync => 43,
            RouteKind::GuildIntegrations => 44,
            RouteKind::GuildInvites => 45,
            RouteKind::GuildMember => 46,
            RouteKind::GuildMemberRole => 47,
            RouteKind::GuildMembers => 48,
            RouteKind::GuildMembersSearch => 49,
            RouteKind::GuildMemberMe => 50,
            RouteKind::GuildMfa => 51,
            RouteKind::GuildPrune => 52,
            RouteKind::GuildRegions => 53,
            RouteKind::GuildRole => 54,
            RouteKind::GuildRoles => 55,
            RouteKind::GuildScheduledEvent => 56,
            RouteKind::GuildScheduledEvents => 57,
            RouteKind::GuildScheduledEventUsers => 58,
            RouteKind::GuildSticker => 59,
            RouteKind::GuildStickers => 60,
            RouteKind::GuildVanityUrl => 61,
            RouteKind::GuildVoiceStates => 62,
            RouteKind::GuildVoiceStateMe => 63,
            RouteKind::GuildWebhooks => 64,
            RouteKind::GuildWelcomeScreen => 65,
            RouteKind::GuildThreadsActive => 66,
            RouteKind::Guilds => 67,
            RouteKind::Invite => 68,
            RouteKind::OAuth2ApplicationCurrent => 69,
            RouteKind::StatusIncidentsUnresolved => 70,
            RouteKind::StatusMaintenancesActive => 71,
            RouteKind::StatusMaintenancesUpcoming => 72,
            RouteKind::Sticker => 73,
            RouteKind::StickerPacks => 74,
            RouteKind::StickerPack => 75,
            RouteKind::User => 76,
            RouteKind::UserMe => 77,
            RouteKind::UserMeConnections => 78,
            RouteKind::UserMeDmChannels => 79,
            RouteKind::UserMeGuild => 80,
            RouteKind::UserMeGuildMember => 81,
            RouteKind::UserMeGuilds => 82,
            RouteKind::VoiceRegions => 83,
            RouteKind::Webhook => 84,
            RouteKind::WebhookWithToken => 85,
            RouteKind::WebhookMessage => 86,
            RouteKind::WebhookOriginalInteractionResponse => 87,
            RouteKind::WebhookFollowupMessage => 88,
            RouteKind::WebhookFollowupMessages => 89,
            RouteKind::InteractionResponse => 90,
            RouteKind::Command => 91,
            RouteKind::Commands => 92,
            RouteKind::GuildCommand => 93,
            RouteKind::GuildCommandPermissions => 94,
            RouteKind::GuildCommands => 95,
            RouteKind::GuildCommandsPermissions => 96,
            RouteKind::Skus => 97,
            RouteKind::Emoji => 98,
            RouteKind::Emojis => 99,
            RouteKind::Entitlement => 100,
            RouteKind::Entitlements => 101,
            RouteKind::StageInstances => 102,
            RouteKind::StageInstance => 103,
        }
    }
}

/// Two templates with the same position are the same template.
pub proof fn lemma_index_injective(a: RouteKind, b: RouteKind)
    requires
        a.index() == b.index(),
    ensures
        a == b,
{
}

/// A rate-limit domain: the template of a route with its major parameter, the
/// id that subdivides the template into buckets, if it has one.
#[derive(Clone, Copy, Debug, PartialEq, Eq, Structural, Hash)]
pub struct BucketKey {
    pub kind: RouteKind,
    pub major: Option<u64>,
}

/// An endpoint of the API with the parameters of its path.
#[derive(Clone, Copy, Debug)]
pub enum Route<'a> {
    /// A channel.
    Channel { channel_id: ChannelId },
    /// A channel's invites.
    ChannelInvites { channel_id: ChannelId },
    /// A message in a channel.
    ChannelMessage { channel_id: ChannelId, message_id: MessageId },
    /// The crossposting of a message.
    ChannelMessageCrosspost { channel_id: ChannelId, message_id: MessageId },
    /// A user's reaction to a message.
    ChannelMessageReaction { channel_id: ChannelId, message_id: MessageId, user_id: UserId, reaction: &'a str },
    /// The current user's reaction to a message.
    ChannelMessageReactionMe { channel_id: ChannelId, message_id: MessageId, reaction: &'a str },
    /// All reactions to a message with one emoji.
    ChannelMessageReactionEmoji { channel_id: ChannelId, message_id: MessageId, reaction: &'a str },
    /// All reactions to a message.
    ChannelMessageReactions { channel_id: ChannelId, message_id: MessageId },
    /// A channel's messages.
    ChannelMessages { channel_id: ChannelId },
    /// The deletion of several messages at once.
    ChannelMessagesBulkDelete { channel_id: ChannelId },
    /// The followers of a news channel.
    ChannelFollowNews { channel_id: ChannelId },
    /// A permission overwrite of a channel.
    ChannelPermission { channel_id: ChannelId, target_id: TargetId },
    /// A pinned message.
    ChannelPin { channel_id: ChannelId, message_id: MessageId },
    /// A channel's pinned messages.
    ChannelPins { channel_id: ChannelId },
    /// The typing indicator of a channel.
    ChannelTyping { channel_id: ChannelId },
    /// A channel's webhooks.
    ChannelWebhooks { channel_id: ChannelId },
    /// The threads started from a message.
    ChannelMessageThreads { channel_id: ChannelId, message_id: MessageId },
    /// A channel's threads.
    ChannelThreads { channel_id: ChannelId },
    /// A forum channel's posts.
    ChannelForumPosts { channel_id: ChannelId },
    /// A member of a thread.
    ChannelThreadMember { channel_id: ChannelId, user_id: UserId },
    /// The current user as a member of a thread.
    ChannelThreadMemberMe { channel_id: ChannelId },
    /// The members of a thread.
    ChannelThreadMembers { channel_id: ChannelId },
    /// A channel's archived public threads.
    ChannelArchivedPublicThreads { channel_id: ChannelId },
    /// A channel's archived private threads.
    ChannelArchivedPrivateThreads { channel_id: ChannelId },
    /// The archived private threads that the current user has joined.
    ChannelJoinedPrivateThreads { channel_id: ChannelId },
    /// The voters for one answer of a poll.
    ChannelPollGetAnswerVoters { channel_id: ChannelId, message_id: MessageId, answer_id: AnswerId },
    /// The ending of a poll.
    ChannelPollExpire { channel_id: ChannelId, message_id: MessageId },
    /// The status of a voice channel.
    ChannelVoiceStatus { channel_id: ChannelId },
    /// The gateway.
    Gateway,
    /// The gateway, with what a bot needs to connect.
    GatewayBot,
    /// A guild.
    Guild { guild_id: GuildId },
    /// A guild's audit logs.
    GuildAuditLogs { guild_id: GuildId },
    /// An auto moderation rule.
    GuildAutomodRule { guild_id: GuildId, rule_id: RuleId },
    /// A guild's auto moderation rules.
    GuildAutomodRules { guild_id: GuildId },
    /// A ban.
    GuildBan { guild_id: GuildId, user_id: UserId },
    /// The banning of several users at once.
    GuildBulkBan { guild_id: GuildId },
    /// A guild's bans.
    GuildBans { guild_id: GuildId },
    /// A guild's channels.
    GuildChannels { guild_id: GuildId },
    /// A guild's widget.
    GuildWidget { guild_id: GuildId },
    /// A guild's preview.
    GuildPreview { guild_id: GuildId },
    /// A guild's emojis.
    GuildEmojis { guild_id: GuildId },
    /// An emoji of a guild.
    GuildEmoji { guild_id: GuildId, emoji_id: EmojiId },
    /// An integration of a guild.
    GuildIntegration { guild_id: GuildId, integration_id: IntegrationId },
    /// The syncing of an integration.
    GuildIntegrationSync { guild_id: GuildId, integration_id: IntegrationId },
    /// A guild's integrations.
    GuildIntegrations { guild_id: GuildId },
    /// A guild's invites.
    GuildInvites { guild_id: GuildId },
    /// A member of a guild.
    GuildMember { guild_id: GuildId, user_id: UserId },
    /// A role of a member.
    GuildMemberRole { guild_id: GuildId, user_id: UserId, role_id: RoleId },
    /// A guild's members.
    GuildMembers { guild_id: GuildId },
    /// The search among the members of a guild.
    GuildMembersSearch { guild_id: GuildId },
    /// The current user as a member of a guild.
    GuildMemberMe { guild_id: GuildId },
    /// A guild's multi-factor authentication level.
    GuildMfa { guild_id: GuildId },
    /// The pruning of inactive members.
    GuildPrune { guild_id: GuildId },
    /// A guild's voice regions.
    GuildRegions { guild_id: GuildId },
    /// A role of a guild.
    GuildRole { guild_id: GuildId, role_id: RoleId },
    /// A guild's roles.
    GuildRoles { guild_id: GuildId },
    /// A scheduled event.
    GuildScheduledEvent { guild_id: GuildId, event_id: ScheduledEventId },
    /// A guild's scheduled events.
    GuildScheduledEvents { guild_id: GuildId },
    /// The users interested in a scheduled event.
    GuildScheduledEventUsers { guild_id: GuildId, event_id: ScheduledEventId },
    /// A sticker of a guild.
    GuildSticker { guild_id: GuildId, sticker_id: StickerId },
    /// A guild's stickers.
    GuildStickers { guild_id: GuildId },
    /// A guild's vanity invite.
    GuildVanityUrl { guild_id: GuildId },
    /// A user's voice state in a guild.
    GuildVoiceStates { guild_id: GuildId, user_id: UserId },
    /// The current user's voice state in a guild.
    GuildVoiceStateMe { guild_id: GuildId },
    /// A guild's webhooks.
    GuildWebhooks { guild_id: GuildId },
    /// A guild's welcome screen.
    GuildWelcomeScreen { guild_id: GuildId },
    /// A guild's active threads.
    GuildThreadsActive { guild_id: GuildId },
    /// All guilds.
    Guilds,
    /// An invite.
    Invite { code: &'a str },
    /// The current application.
    OAuth2ApplicationCurrent,
    /// The platform's unresolved incidents.
    StatusIncidentsUnresolved,
    /// The platform's active maintenances.
    StatusMaintenancesActive,
    /// The platform's upcoming maintenances.
    StatusMaintenancesUpcoming,
    /// A sticker.
    Sticker { sticker_id: StickerId },
    /// All sticker packs.
    StickerPacks,
    /// A sticker pack.
    StickerPack { sticker_pack_id: StickerPackId },
    /// A user.
    User { user_id: UserId },
    /// The current user.
    UserMe,
    /// The current user's connections.
    UserMeConnections,
    /// The current user's direct message channels.
    UserMeDmChannels,
    /// The current user's membership of a guild.
    UserMeGuild { guild_id: GuildId },
    /// The current user's member object in a guild.
    UserMeGuildMember { guild_id: GuildId },
    /// The current user's guilds.
    UserMeGuilds,
    /// All voice regions.
    VoiceRegions,
    /// A webhook.
    Webhook { webhook_id: WebhookId },
    /// A webhook, reached with its token.
    WebhookWithToken { webhook_id: WebhookId, token: &'a str },
    /// A message sent by a webhook.
    WebhookMessage { webhook_id: WebhookId, token: &'a str, message_id: MessageId },
    /// The first response to an interaction.
    WebhookOriginalInteractionResponse { application_id: ApplicationId, token: &'a str },
    /// A followup message of an interaction.
    WebhookFollowupMessage { application_id: ApplicationId, token: &'a str, message_id: MessageId },
    /// The followup messages of an interaction.
    WebhookFollowupMessages { application_id: ApplicationId, token: &'a str },
    /// The response to an interaction.
    InteractionResponse { interaction_id: InteractionId, token: &'a str },
    /// A global command.
    Command { application_id: ApplicationId, command_id: CommandId },
    /// An application's global commands.
    Commands { application_id: ApplicationId },
    /// A command of a guild.
    GuildCommand { application_id: ApplicationId, guild_id: GuildId, command_id: CommandId },
    /// The permissions of a command of a guild.
    GuildCommandPermissions { application_id: ApplicationId, guild_id: GuildId, command_id: CommandId },
    /// An application's commands in a guild.
    GuildCommands { application_id: ApplicationId, guild_id: GuildId },
    /// The permissions of all commands of a guild.
    GuildCommandsPermissions { application_id: ApplicationId, guild_id: GuildId },
    /// An application's stock keeping units.
    Skus { application_id: ApplicationId },
    /// An emoji of an application.
    Emoji { application_id: ApplicationId, emoji_id: EmojiId },
    /// An application's emojis.
    Emojis { application_id: ApplicationId },
    /// An entitlement.
    Entitlement { application_id: ApplicationId, entitlement_id: EntitlementId },
    /// An application's entitlements.
    Entitlements { application_id: ApplicationId },
    /// All stage instances.
    StageInstances,
    /// The stage instance of a channel.
    StageInstance { channel_id: ChannelId },
}

impl<'a> Route<'a> {
    /// The template of the route.
    pub open spec fn template(self) -> RouteKind {
        match self {
            Route::Channel { .. } => RouteKind::Channel,
            Route::ChannelInvites { .. } => RouteKind::ChannelInvites,
            Route::ChannelMessage { .. } => RouteKind::ChannelMessage,
            Route::ChannelMessageCrosspost { .. } => RouteKind::ChannelMessageCrosspost,
            Route::ChannelMessageReaction { .. } => RouteKind::ChannelMessageReaction,
            Route::ChannelMessageReactionMe { .. } => RouteKind::ChannelMessageReactionMe,
            Route::ChannelMessageReactionEmoji { .. } => RouteKind::ChannelMessageReactionEmoji,
            Route::ChannelMessageReactions { .. } => RouteKind::ChannelMessageReactions,
            Route::ChannelMessages { .. } => RouteKind::ChannelMessages,
            Route::ChannelMessagesBulkDelete { .. } => RouteKind::ChannelMessagesBulkDelete,
            Route::ChannelFollowNews { .. } => RouteKind::ChannelFollowNews,
            Route::ChannelPermission { .. } => RouteKind::ChannelPermission,
            Route::ChannelPin { .. } => RouteKind::ChannelPin,
            Route::ChannelPins { .. } => RouteKind::ChannelPins,
            Route::ChannelTyping { .. } => RouteKind::ChannelTyping,
            Route::ChannelWebhooks { .. } => RouteKind::ChannelWebhooks,
            Route::ChannelMessageThreads { .. } => RouteKind::ChannelMessageThreads,
            Route::ChannelThreads { .. } => RouteKind::ChannelThreads,
            Route::ChannelForumPosts { .. } => RouteKind::ChannelForumPosts,
            Route::ChannelThreadMember { .. } => RouteKind::ChannelThreadMember,
            Route::ChannelThreadMemberMe { .. } => RouteKind::ChannelThreadMemberMe,
            Route::ChannelThreadMembers { .. } => RouteKind::ChannelThreadMembers,
            Route::ChannelArchivedPublicThreads { .. } => RouteKind::ChannelArchivedPublicThreads,
            Route::ChannelArchivedPrivateThreads { .. } => RouteKind::ChannelArchivedPrivateThreads,
            Route::ChannelJoinedPrivateThreads { .. } => RouteKind::ChannelJoinedPrivateThreads,
            Route::ChannelPollGetAnswerVoters { .. } => RouteKind::ChannelPollGetAnswerVoters,
            Route::ChannelPollExpire { .. } => RouteKind::ChannelPollExpire,
            Route::ChannelVoiceStatus { .. } => RouteKind::ChannelVoiceStatus,
            Route::Gateway => RouteKind::Gateway,
            Route::GatewayBot => RouteKind::GatewayBot,
            Route::Guild { .. } => RouteKind::Guild,
            Route::GuildAuditLogs { .. } => RouteKind::GuildAuditLogs,
            Route::GuildAutomodRule { .. } => RouteKind::GuildAutomodRule,
            Route::GuildAutomodRules { .. } => RouteKind::GuildAutomodRules,
            Route::GuildBan { .. } => RouteKind::GuildBan,
            Route::GuildBulkBan { .. } => RouteKind::GuildBulkBan,
            Route::GuildBans { .. } => RouteKind::GuildBans,
            Route::GuildChannels { .. } => RouteKind::GuildChannels,
            Route::GuildWidget { .. } => RouteKind::GuildWidget,
            Route::GuildPreview { .. } => RouteKind::GuildPreview,
            Route::GuildEmojis { .. } => RouteKind::GuildEmojis,
            Route::GuildEmoji { .. } => RouteKind::GuildEmoji,
            Route::GuildIntegration { .. } => RouteKind::GuildIntegration,
            Route::GuildIntegrationSync { .. } => RouteKind::GuildIntegrationSync,
            Route::GuildIntegrations { .. } => RouteKind::GuildIntegrations,
            Route::GuildInvites { .. } => RouteKind::GuildInvites,
            Route::GuildMember { .. } => RouteKind::GuildMember,
            Route::GuildMemberRole { .. } => RouteKind::GuildMemberRole,
            Route::GuildMembers { .. } => RouteKind::GuildMembers,
            Route::GuildMembersSearch { .. } => RouteKind::GuildMembersSearch,
            Route::GuildMemberMe { .. } => RouteKind::GuildMemberMe,
            Route::GuildMfa { .. } => RouteKind::GuildMfa,
            Route::GuildPrune { .. } => RouteKind::GuildPrune,
            Route::GuildRegions { .. } => RouteKind::GuildRegions,
            Route::GuildRole { .. } => RouteKind::GuildRole,
            Route::GuildRoles { .. } => RouteKind::GuildRoles,
            Route::GuildScheduledEvent { .. } => RouteKind::GuildScheduledEvent,
            Route::GuildScheduledEvents { .. } => RouteKind::GuildScheduledEvents,
            Route::GuildScheduledEventUsers { .. } => RouteKind::GuildScheduledEventUsers,
            Route::GuildSticker { .. } => RouteKind::GuildSticker,
            Route::GuildStickers { .. } => RouteKind::GuildStickers,
            Route::GuildVanityUrl { .. } => RouteKind::GuildVanityUrl,
            Route::GuildVoiceStates { .. } => RouteKind::GuildVoiceStates,
            Route::GuildVoiceStateMe { .. } => RouteKind::GuildVoiceStateMe,
            Route::GuildWebhooks { .. } => RouteKind::GuildWebhooks,
            Route::GuildWelcomeScreen { .. } => RouteKind::GuildWelcomeScreen,
            Route::GuildThreadsActive { .. } => RouteKind::GuildThreadsActive,
            Route::Guilds => RouteKind::Guilds,
            Route::Invite { .. } => RouteKind::Invite,
            Route::OAuth2ApplicationCurrent => RouteKind::OAuth2ApplicationCurrent,
            Route::StatusIncidentsUnresolved => RouteKind::StatusIncidentsUnresolved,
            Route::StatusMaintenancesActive => RouteKind::StatusMaintenancesActive,
            Route::StatusMaintenancesUpcoming => RouteKind::StatusMaintenancesUpcoming,
            Route::Sticker { .. } => RouteKind::Sticker,
            Route::StickerPacks => RouteKind::StickerPacks,
            Route::StickerPack { .. } => RouteKind::StickerPack,
            Route::User { .. } => RouteKind::User,
            Route::UserMe => RouteKind::UserMe,
            Route::UserMeConnections => RouteKind::UserMeConnections,
            Route::UserMeDmChannels => RouteKind::UserMeDmChannels,
            Route::UserMeGuild { .. } => RouteKind::UserMeGuild,
            Route::UserMeGuildMember { .. } => RouteKind::UserMeGuildMember,
            Route::UserMeGuilds => RouteKind::UserMeGuilds,
            Route::VoiceRegions => RouteKind::VoiceRegions,
            Route::Webhook { .. } => RouteKind::Webhook,
            Route::WebhookWithToken { .. } => RouteKind::WebhookWithToken,
            Route::WebhookMessage { .. } => RouteKind::WebhookMessage,
            Route::WebhookOriginalInteractionResponse { .. } =>
                RouteKind::WebhookOriginalInteractionResponse,
            Route::WebhookFollowupMessage { .. } => RouteKind::WebhookFollowupMessage,
            Route::WebhookFollowupMessages { .. } => RouteKind::WebhookFollowupMessages,
            Route::InteractionResponse { .. } => RouteKind::InteractionResponse,
            Route::Command { .. } => RouteKind::Command,
            Route::Commands { .. } => RouteKind::Commands,
            Route::GuildCommand { .. } => RouteKind::GuildCommand,
            Route::GuildCommandPermissions { .. } => RouteKind::GuildCommandPermissions,
            Route::GuildCommands { .. } => RouteKind::GuildCommands,
            Route::GuildCommandsPermissions { .. } => RouteKind::GuildCommandsPermissions,
            Route::Skus { .. } => RouteKind::Skus,
            Route::Emoji { .. } => RouteKind::Emoji,
            Route::Emojis { .. } => RouteKind::Emojis,
            Route::Entitlement { .. } => RouteKind::Entitlement,
            Route::Entitlements { .. } => RouteKind::Entitlements,
            Route::StageInstances => RouteKind::StageInstances,
            Route::StageInstance { .. } => RouteKind::StageInstance,
        }
    }

    /// The major parameter of the route: the channel, guild, webhook,
    /// application or interaction whose id subdivides the template into
    /// buckets. No other parameter takes part in the bucket.
    pub open spec fn major(self) -> Option<u64> {
        match self {
            Route::Channel { channel_id } => Some(channel_id.0),
            Route::ChannelInvites { channel_id } => Some(channel_id.0),
            Route::ChannelMessage { channel_id, .. } => Some(channel_id.0),
            Route::ChannelMessageCrosspost { channel_id, .. } => Some(channel_id.0),
            Route::ChannelMessageReaction { channel_id, .. } => Some(channel_id.0),
            Route::ChannelMessageReactionMe { channel_id, .. } => Some(channel_id.0),
            Route::ChannelMessageReactionEmoji { channel_id, .. } => Some(channel_id.0),
            Route::ChannelMessageReactions { channel_id, .. } => Some(channel_id.0),
            Route::ChannelMessages { channel_id } => Some(channel_id.0),
            Route::ChannelMessagesBulkDelete { channel_id } => Some(channel_id.0),
            Route::ChannelFollowNews { channel_id } => Some(channel_id.0),
            Route::ChannelPermission { channel_id, .. } => Some(channel_id.0),
            Route::ChannelPin { channel_id, .. } => Some(channel_id.0),
            Route::ChannelPins { channel_id } => Some(channel_id.0),
            Route::ChannelTyping { channel_id } => Some(channel_id.0),
            Route::ChannelWebhooks { channel_id } => Some(channel_id.0),
            Route::ChannelMessageThreads { channel_id, .. } => Some(channel_id.0),
            Route::ChannelThreads { channel_id } => Some(channel_id.0),
            Route::ChannelForumPosts { channel_id } => Some(channel_id.0),
            Route::ChannelThreadMember { channel_id, .. } => Some(channel_id.0),
            Route::ChannelThreadMemberMe { channel_id } => Some(channel_id.0),
            Route::ChannelThreadMembers { channel_id } => Some(channel_id.0),
            Route::ChannelArchivedPublicThreads { channel_id } => Some(channel_id.0),
            Route::ChannelArchivedPrivateThreads { channel_id } => Some(channel_id.0),
            Route::ChannelJoinedPrivateThreads { channel_id } => Some(channel_id.0),
            Route::ChannelPollGetAnswerVoters { channel_id, .. } => Some(channel_id.0),
            Route::ChannelPollExpire { channel_id, .. } => Some(channel_id.0),
            Route::ChannelVoiceStatus { channel_id } => Some(channel_id.0),
            Route::Gateway => None,
            Route::GatewayBot => None,
            Route::Guild { guild_id } => Some(guild_id.0),
            Route::GuildAuditLogs { guild_id } => Some(guild_id.0),
            Route::GuildAutomodRule { guild_id, .. } => Some(guild_id.0),
            Route::GuildAutomodRules { guild_id } => Some(guild_id.0),
            Route::GuildBan { guild_id, .. } => Some(guild_id.0),
            Route::GuildBulkBan { guild_id } => Some(guild_id.0),
            Route::GuildBans { guild_id } => Some(guild_id.0),
            Route::GuildChannels { guild_id } => Some(guild_id.0),
            Route::GuildWidget { guild_id } => Some(guild_id.0),
            Route::GuildPreview { guild_id } => Some(guild_id.0),
            Route::GuildEmojis { guild_id } => Some(guild_id.0),
            Route::GuildEmoji { guild_id, .. } => Some(guild_id.0),
            Route::GuildIntegration { guild_id, .. } => Some(guild_id.0),
            Route::GuildIntegrationSync { guild_id, .. } => Some(guild_id.0),
            Route::GuildIntegrations { guild_id } => Some(guild_id.0),
            Route::GuildInvites { guild_id } => Some(guild_id.0),
            Route::GuildMember { guild_id, .. } => Some(guild_id.0),
            Route::GuildMemberRole { guild_id, .. } => Some(guild_id.0),
            Route::GuildMembers { guild_id } => Some(guild_id.0),
            Route::GuildMembersSearch { guild_id } => Some(guild_id.0),
            Route::GuildMemberMe { guild_id } => Some(guild_id.0),
            Route::GuildMfa { guild_id } => Some(guild_id.0),
            Route::GuildPrune { guild_id } => Some(guild_id.0),
            Route::GuildRegions { guild_id } => Some(guild_id.0),
            Route::GuildRole { guild_id, .. } => Some(guild_id.0),
            Route::GuildRoles { guild_id } => Some(guild_id.0),
            Route::GuildScheduledEvent { guild_id, .. } => Some(guild_id.0),
            Route::GuildScheduledEvents { guild_id } => Some(guild_id.0),
            Route::GuildScheduledEventUsers { guild_id, .. } => Some(guild_id.0),
            Route::GuildSticker { guild_id, .. } => Some(guild_id.0),
            Route::GuildStickers { guild_id } => Some(guild_id.0),
            Route::GuildVanityUrl { guild_id } => Some(guild_id.0),
            Route::GuildVoiceStates { guild_id, .. } => Some(guild_id.0),
            Route::GuildVoiceStateMe { guild_id } => Some(guild_id.0),
            Route::GuildWebhooks { guild_id } => Some(guild_id.0),
            Route::GuildWelcomeScreen { guild_id } => Some(guild_id.0),
            Route::GuildThreadsActive { guild_id } => Some(guild_id.0),
            Route::Guilds => None,
            Route::Invite { .. } => None,
            Route::OAuth2ApplicationCurrent => None,
            Route::StatusIncidentsUnresolved => None,
            Route::StatusMaintenancesActive => None,
            Route::StatusMaintenancesUpcoming => None,
            Route::Sticker { .. } => None,
            Route::StickerPacks => None,
            Route::StickerPack { .. } => None,
            Route::User { .. } => None,
            Route::UserMe => None,
            Route::UserMeConnections => None,
            Route::UserMeDmChannels => None,
            Route::UserMeGuild { .. } => None,
            Route::UserMeGuildMember { .. } => None,
            Route::UserMeGuilds => None,
            Route::VoiceRegions => None,
            Route::Webhook { webhook_id } => Some(webhook_id.0),
            Route::WebhookWithToken { webhook_id, .. } => Some(webhook_id.0),
            Route::WebhookMessage { webhook_id, .. } => Some(webhook_id.0),
            Route::WebhookOriginalInteractionResponse { application_id, .. } =>
                Some(application_id.0),
            Route::WebhookFollowupMessage { application_id, .. } => Some(application_id.0),
            Route::WebhookFollowupMessages { application_id, .. } => Some(application_id.0),
            Route::InteractionResponse { interaction_id, .. } => Some(interaction_id.0),
            Route::Command { application_id, .. } => Some(application_id.0),
            Route::Commands { application_id } => Some(application_id.0),
            Route::GuildCommand { application_id, .. } => Some(application_id.0),
            Route::GuildCommandPermissions { application_id, .. } => Some(application_id.0),
            Route::GuildCommands { application_id, .. } => Some(application_id.0),
            Route::GuildCommandsPermissions { application_id, .. } => Some(application_id.0),
            Route::Skus { application_id } => Some(application_id.0),
            Route::Emoji { application_id, .. } => Some(application_id.0),
            Route::Emojis { application_id } => Some(application_id.0),
            Route::Entitlement { application_id, .. } => Some(application_id.0),
            Route::Entitlements { application_id } => Some(application_id.0),
            Route::StageInstances => None,
            Route::StageInstance { .. } => None,
        }
    }

    /// The bucket that requests to the route are counted in.
    pub open spec fn bucket(self) -> BucketKey {
        BucketKey { kind: self.template(), major: self.major() }
    }

    /// The server that the route is on.
    pub open spec fn server(self) -> Root {
        match self {
            Route::StatusIncidentsUnresolved
            | Route::StatusMaintenancesActive
            | Route::StatusMaintenancesUpcoming => Root::Status,
            _ => Root::Api,
        }
    }

    /// The path of the route below its server's prefix, with the parameters
    /// filled in: ids in decimal, text as it is.
    pub open spec fn tail(self) -> Seq<char> {
        match self {
            Route::Channel { channel_id } => "/channels/"@ + decimal(channel_id.0 as nat),
            Route::ChannelInvites { channel_id } =>
                "/channels/"@ + decimal(channel_id.0 as nat) + "/invites"@,
            Route::ChannelMessage { channel_id, message_id } =>
                "/channels/"@ + decimal(channel_id.0 as nat) + "/messages/"@
                + decimal(message_id.0 as nat),
            Route::ChannelMessageCrosspost { channel_id, message_id } =>
                "/channels/"@ + decimal(channel_id.0 as nat) + "/messages/"@
                + decimal(message_id.0 as nat) + "/crosspost"@,
            Route::ChannelMessageReaction { channel_id, message_id, user_id, reaction } =>
                "/channels/"@ + decimal(channel_id.0 as nat) + "/messages/"@
                + decimal(message_id.0 as nat) + "/reactions/"@ + reaction@ + "/"@
                + decimal(user_id.0 as nat),
            Route::ChannelMessageReactionMe { channel_id, message_id, reaction } =>
                "/channels/"@ + decimal(channel_id.0 as nat) + "/messages/"@
                + decimal(message_id.0 as nat) + "/reactions/"@ + reaction@ + "/@me"@,
            Route::ChannelMessageReactionEmoji { channel_id, message_id, reaction } =>
                "/channels/"@ + decimal(channel_id.0 as nat) + "/messages/"@
                + decimal(message_id.0 as nat) + "/reactions/"@ + reaction@,
            Route::ChannelMessageReactions { channel_id, message_id } =>
                "/channels/"@ + decimal(channel_id.0 as nat) + "/messages/"@
                + decimal(message_id.0 as nat) + "/reactions"@,
            Route::ChannelMessages { channel_id } =>
                "/channels/"@ + decimal(channel_id.0 as nat) + "/messages"@,
            Route::ChannelMessagesBulkDelete { channel_id } =>
                "/channels/"@ + decimal(channel_id.0 as nat) + "/messages/bulk-delete"@,
            Route::ChannelFollowNews { channel_id } =>
                "/channels/"@ + decimal(channel_id.0 as nat) + "/followers"@,
            Route::ChannelPermission { channel_id, target_id } =>
                "/channels/"@ + decimal(channel_id.0 as nat) + "/permissions/"@
                + decimal(target_id.0 as nat),
            Route::ChannelPin { channel_id, message_id } =>
                "/channels/"@ + decimal(channel_id.0 as nat) + "/pins/"@
                + decimal(message_id.0 as nat),
            Route::ChannelPins { channel_id } =>
                "/channels/"@ + decimal(channel_id.0 as nat) + "/pins"@,
            Route::ChannelTyping { channel_id } =>
                "/channels/"@ + decimal(channel_id.0 as nat) + "/typing"@,
            Route::ChannelWebhooks { channel_id } =>
                "/channels/"@ + decimal(channel_id.0 as nat) + "/webhooks"@,
            Route::ChannelMessageThreads { channel_id, message_id } =>
                "/channels/"@ + decimal(channel_id.0 as nat) + "/messages/"@
                + decimal(message_id.0 as nat) + "/threads"@,
            Route::ChannelThreads { channel_id } =>
                "/channels/"@ + decimal(channel_id.0 as nat) + "/threads"@,
            Route::ChannelForumPosts { channel_id } =>
                "/channels/"@ + decimal(channel_id.0 as nat) + "/threads"@,
            Route::ChannelThreadMember { channel_id, user_id } =>
                "/channels/"@ + decimal(channel_id.0 as nat) + "/thread-members/"@
                + decimal(user_id.0 as nat),
            Route::ChannelThreadMemberMe { channel_id } =>
                "/channels/"@ + decimal(channel_id.0 as nat) + "/thread-members/@me"@,
            Route::ChannelThreadMembers { channel_id } =>
                "/channels/"@ + decimal(channel_id.0 as nat) + "/thread-members"@,
            Route::ChannelArchivedPublicThreads { channel_id } =>
                "/channels/"@ + decimal(channel_id.0 as nat) + "/threads/archived/public"@,
            Route::ChannelArchivedPrivateThreads { channel_id } =>
                "/channels/"@ + decimal(channel_id.0 as nat) + "/threads/archived/private"@,
            Route::ChannelJoinedPrivateThreads { channel_id } =>
                "/channels/"@ + decimal(channel_id.0 as nat)
                + "/users/@me/threads/archived/private"@,
            Route::ChannelPollGetAnswerVoters { channel_id, message_id, answer_id } =>
                "/channels/"@ + decimal(channel_id.0 as nat) + "/polls/"@
                + decimal(message_id.0 as nat) + "/answers/"@ + decimal(answer_id.0 as nat),
            Route::ChannelPollExpire { channel_id, message_id } =>
                "/channels/"@ + decimal(channel_id.0 as nat) + "/polls/"@
                + decimal(message_id.0 as nat) + "/expire"@,
            Route::ChannelVoiceStatus { channel_id } =>
                "/channels/"@ + decimal(channel_id.0 as nat) + "/voice-status"@,
            Route::Gateway => "/gateway"@,
            Route::GatewayBot => "/gateway/bot"@,
            Route::Guild { guild_id } => "/guilds/"@ + decimal(guild_id.0 as nat),
            Route::GuildAuditLogs { guild_id } =>
                "/guilds/"@ + decimal(guild_id.0 as nat) + "/audit-logs"@,
            Route::GuildAutomodRule { guild_id, rule_id } =>
                "/guilds/"@ + decimal(guild_id.0 as nat) + "/auto-moderation/rules/"@
                + decimal(rule_id.0 as nat),
            Route::GuildAutomodRules { guild_id } =>
                "/guilds/"@ + decimal(guild_id.0 as nat) + "/auto-moderation/rules"@,
            Route::GuildBan { guild_id, user_id } =>
                "/guilds/"@ + decimal(guild_id.0 as nat) + "/bans/"@ + decimal(user_id.0 as nat),
            Route::GuildBulkBan { guild_id } =>
                "/guilds/"@ + decimal(guild_id.0 as nat) + "/bulk-ban"@,
            Route::GuildBans { guild_id } => "/guilds/"@ + decimal(guild_id.0 as nat) + "/bans"@,
            Route::GuildChannels { guild_id } =>
                "/guilds/"@ + decimal(guild_id.0 as nat) + "/channels"@,
            Route::GuildWidget { guild_id } =>
                "/guilds/"@ + decimal(guild_id.0 as nat) + "/widget"@,
            Route::GuildPreview { guild_id } =>
                "/guilds/"@ + decimal(guild_id.0 as nat) + "/preview"@,
            Route::GuildEmojis { guild_id } =>
                "/guilds/"@ + decimal(guild_id.0 as nat) + "/emojis"@,
            Route::GuildEmoji { guild_id, emoji_id } =>
                "/guilds/"@ + decimal(guild_id.0 as nat) + "/emojis/"@
                + decimal(emoji_id.0 as nat),
            Route::GuildIntegration { guild_id, integration_id } =>
                "/guilds/"@ + decimal(guild_id.0 as nat) + "/integrations/"@
                + decimal(integration_id.0 as nat),
            Route::GuildIntegrationSync { guild_id, integration_id } =>
                "/guilds/"@ + decimal(guild_id.0 as nat) + "/integrations/"@
                + decimal(integration_id.0 as nat) + "/sync"@,
            Route::GuildIntegrations { guild_id } =>
                "/guilds/"@ + decimal(guild_id.0 as nat) + "/integrations"@,
            Route::GuildInvites { guild_id } =>
                "/guilds/"@ + decimal(guild_id.0 as nat) + "/invites"@,
            Route::GuildMember { guild_id, user_id } =>
                "/guilds/"@ + decimal(guild_id.0 as nat) + "/members/"@
                + decimal(user_id.0 as nat),
            Route::GuildMemberRole { guild_id, user_id, role_id } =>
                "/guilds/"@ + decimal(guild_id.0 as nat) + "/members/"@
                + decimal(user_id.0 as nat) + "/roles/"@ + decimal(role_id.0 as nat),
            Route::GuildMembers { guild_id } =>
                "/guilds/"@ + decimal(guild_id.0 as nat) + "/members"@,
            Route::GuildMembersSearch { guild_id } =>
                "/guilds/"@ + decimal(guild_id.0 as nat) + "/members/search"@,
            Route::GuildMemberMe { guild_id } =>
                "/guilds/"@ + decimal(guild_id.0 as nat) + "/members/@me"@,
            Route::GuildMfa { guild_id } => "/guilds/"@ + decimal(guild_id.0 as nat) + "/mfa"@,
            Route::GuildPrune { guild_id } => "/guilds/"@ + decimal(guild_id.0 as nat) + "/prune"@,
            Route::GuildRegions { guild_id } =>
                "/guilds/"@ + decimal(guild_id.0 as nat) + "/regions"@,
            Route::GuildRole { guild_id, role_id } =>
                "/guilds/"@ + decimal(guild_id.0 as nat) + "/roles/"@ + decimal(role_id.0 as nat),
            Route::GuildRoles { guild_id } => "/guilds/"@ + decimal(guild_id.0 as nat) + "/roles"@,
            Route::GuildScheduledEvent { guild_id, event_id } =>
                "/guilds/"@ + decimal(guild_id.0 as nat) + "/scheduled-events/"@
                + decimal(event_id.0 as nat),
            Route::GuildScheduledEvents { guild_id } =>
                "/guilds/"@ + decimal(guild_id.0 as nat) + "/scheduled-events"@,
            Route::GuildScheduledEventUsers { guild_id, event_id } =>
                "/guilds/"@ + decimal(guild_id.0 as nat) + "/scheduled-events/"@
                + decimal(event_id.0 as nat) + "/users"@,
            Route::GuildSticker { guild_id, sticker_id } =>
                "/guilds/"@ + decimal(guild_id.0 as nat) + "/stickers/"@
                + decimal(sticker_id.0 as nat),
            Route::GuildStickers { guild_id } =>
                "/guilds/"@ + decimal(guild_id.0 as nat) + "/stickers"@,
            Route::GuildVanityUrl { guild_id } =>
                "/guilds/"@ + decimal(guild_id.0 as nat) + "/vanity-url"@,
            Route::GuildVoiceStates { guild_id, user_id } =>
                "/guilds/"@ + decimal(guild_id.0 as nat) + "/voice-states/"@
                + decimal(user_id.0 as nat),
            Route::GuildVoiceStateMe { guild_id } =>
                "/guilds/"@ + decimal(guild_id.0 as nat) + "/voice-states/@me"@,
            Route::GuildWebhooks { guild_id } =>
                "/guilds/"@ + decimal(guild_id.0 as nat) + "/webhooks"@,
            Route::GuildWelcomeScreen { guild_id } =>
                "/guilds/"@ + decimal(guild_id.0 as nat) + "/welcome-screen"@,
            Route::GuildThreadsActive { guild_id } =>
                "/guilds/"@ + decimal(guild_id.0 as nat) + "/threads/active"@,
            Route::Guilds => "/guilds"@,
            Route::Invite { code } => "/invites/"@ + code@,
            Route::OAuth2ApplicationCurrent => "/oauth2/applications/@me"@,
            Route::StatusIncidentsUnresolved => "/incidents/unresolved.json"@,
            Route::StatusMaintenancesActive => "/scheduled-maintenances/active.json"@,
            Route::StatusMaintenancesUpcoming => "/scheduled-maintenances/upcoming.json"@,
            Route::Sticker { sticker_id } => "/stickers/"@ + decimal(sticker_id.0 as nat),
            Route::StickerPacks => "/sticker-packs"@,
            Route::StickerPack { sticker_pack_id } =>
                "/sticker-packs/"@ + decimal(sticker_pack_id.0 as nat),
            Route::User { user_id } => "/users/"@ + decimal(user_id.0 as nat),
            Route::UserMe => "/users/@me"@,
            Route::UserMeConnections => "/users/@me/connections"@,
            Route::UserMeDmChannels => "/users/@me/channels"@,
            Route::UserMeGuild { guild_id } => "/users/@me/guilds/"@ + decimal(guild_id.0 as nat),
            Route::UserMeGuildMember { guild_id } =>
                "/users/@me/guilds/"@ + decimal(guild_id.0 as nat) + "/member"@,
            Route::UserMeGuilds => "/users/@me/guilds"@,
            Route::VoiceRegions => "/voice/regions"@,
            Route::Webhook { webhook_id } => "/webhooks/"@ + decimal(webhook_id.0 as nat),
            Route::WebhookWithToken { webhook_id, token } =>
                "/webhooks/"@ + decimal(webhook_id.0 as nat) + "/"@ + token@,
            Route::WebhookMessage { webhook_id, token, message_id } =>
                "/webhooks/"@ + decimal(webhook_id.0 as nat) + "/"@ + token@ + "/messages/"@
                + decimal(message_id.0 as nat),
            Route::WebhookOriginalInteractionResponse { application_id, token } =>
                "/webhooks/"@ + decimal(application_id.0 as nat) + "/"@ + token@
                + "/messages/@original"@,
            Route::WebhookFollowupMessage { application_id, token, message_id } =>
                "/webhooks/"@ + decimal(application_id.0 as nat) + "/"@ + token@ + "/messages/"@
                + decimal(message_id.0 as nat),
            Route::WebhookFollowupMessages { application_id, token } =>
                "/webhooks/"@ + decimal(application_id.0 as nat) + "/"@ + token@,
            Route::InteractionResponse { interaction_id, token } =>
                "/interactions/"@ + decimal(interaction_id.0 as nat) + "/"@ + token@
                + "/callback"@,
            Route::Command { application_id, command_id } =>
                "/applications/"@ + decimal(application_id.0 as nat) + "/commands/"@
                + decimal(command_id.0 as nat),
            Route::Commands { application_id } =>
                "/applications/"@ + decimal(application_id.0 as nat) + "/commands"@,
            Route::GuildCommand { application_id, guild_id, command_id } =>
                "/applications/"@ + decimal(application_id.0 as nat) + "/guilds/"@
                + decimal(guild_id.0 as nat) + "/commands/"@ + decimal(command_id.0 as nat),
            Route::GuildCommandPermissions { application_id, guild_id, command_id } =>
                "/applications/"@ + decimal(application_id.0 as nat) + "/guilds/"@
                + decimal(guild_id.0 as nat) + "/commands/"@ + decimal(command_id.0 as nat)
                + "/permissions"@,
            Route::GuildCommands { application_id, guild_id } =>
                "/applications/"@ + decimal(application_id.0 as nat) + "/guilds/"@
                + decimal(guild_id.0 as nat) + "/commands"@,
            Route::GuildCommandsPermissions { application_id, guild_id } =>
                "/applications/"@ + decimal(application_id.0 as nat) + "/guilds/"@
                + decimal(guild_id.0 as nat) + "/commands/permissions"@,
            Route::Skus { application_id } =>
                "/applications/"@ + decimal(application_id.0 as nat) + "/skus"@,
            Route::Emoji { application_id, emoji_id } =>
                "/applications/"@ + decimal(application_id.0 as nat) + "/emojis/"@
                + decimal(emoji_id.0 as nat),
            Route::Emojis { application_id } =>
                "/applications/"@ + decimal(application_id.0 as nat) + "/emojis"@,
            Route::Entitlement { application_id, entitlement_id } =>
                "/applications/"@ + decimal(application_id.0 as nat) + "/entitlements/"@
                + decimal(entitlement_id.0 as nat),
            Route::Entitlements { application_id } =>
                "/applications/"@ + decimal(application_id.0 as nat) + "/entitlements"@,
            Route::StageInstances => "/stage-instances"@,
            Route::StageInstance { channel_id } =>
                "/stage-instances/"@ + decimal(channel_id.0 as nat),
        }
    }

    /// The full address of the route on its own server.
    pub open spec fn address(self) -> Seq<char> {
        self.server().host() + self.server().prefix() + self.tail()
    }

    /// The template of the route.
    pub fn kind(self) -> (k: RouteKind)
        ensures
            k == self.template(),
    {
        match self {
            Route::Channel { .. } => RouteKind::Channel,
            Route::ChannelInvites { .. } => RouteKind::ChannelInvites,
            Route::ChannelMessage { .. } => RouteKind::ChannelMessage,
            Route::ChannelMessageCrosspost { .. } => RouteKind::ChannelMessageCrosspost,
            Route::ChannelMessageReaction { .. } => RouteKind::ChannelMessageReaction,
            Route::ChannelMessageReactionMe { .. } => RouteKind::ChannelMessageReactionMe,
            Route::ChannelMessageReactionEmoji { .. } => RouteKind::ChannelMessageReactionEmoji,
            Route::ChannelMessageReactions { .. } => RouteKind::ChannelMessageReactions,
            Route::ChannelMessages { .. } => RouteKind::ChannelMessages,
            Route::ChannelMessagesBulkDelete { .. } => RouteKind::ChannelMessagesBulkDelete,
            Route::ChannelFollowNews { .. } => RouteKind::ChannelFollowNews,
            Route::ChannelPermission { .. } => RouteKind::ChannelPermission,
            Route::ChannelPin { .. } => RouteKind::ChannelPin,
            Route::ChannelPins { .. } => RouteKind::ChannelPins,
            Route::ChannelTyping { .. } => RouteKind::ChannelTyping,
            Route::ChannelWebhooks { .. } => RouteKind::ChannelWebhooks,
            Route::ChannelMessageThreads { .. } => RouteKind::ChannelMessageThreads,
            Route::ChannelThreads { .. } => RouteKind::ChannelThreads,
            Route::ChannelForumPosts { .. } => RouteKind::ChannelForumPosts,
            Route::ChannelThreadMember { .. } => RouteKind::ChannelThreadMember,
            Route::ChannelThreadMemberMe { .. } => RouteKind::ChannelThreadMemberMe,
            Route::ChannelThreadMembers { .. } => RouteKind::ChannelThreadMembers,
            Route::ChannelArchivedPublicThreads { .. } => RouteKind::ChannelArchivedPublicThreads,
            Route::ChannelArchivedPrivateThreads { .. } => RouteKind::ChannelArchivedPrivateThreads,
            Route::ChannelJoinedPrivateThreads { .. } => RouteKind::ChannelJoinedPrivateThreads,
            Route::ChannelPollGetAnswerVoters { .. } => RouteKind::ChannelPollGetAnswerVoters,
            Route::ChannelPollExpire { .. } => RouteKind::ChannelPollExpire,
            Route::ChannelVoiceStatus { .. } => RouteKind::ChannelVoiceStatus,
            Route::Gateway => RouteKind::Gateway,
            Route::GatewayBot => RouteKind::GatewayBot,
            Route::Guild { .. } => RouteKind::Guild,
            Route::GuildAuditLogs { .. } => RouteKind::GuildAuditLogs,
            Route::GuildAutomodRule { .. } => RouteKind::GuildAutomodRule,
            Route::GuildAutomodRules { .. } => RouteKind::GuildAutomodRules,
            Route::GuildBan { .. } => RouteKind::GuildBan,
            Route::GuildBulkBan { .. } => RouteKind::GuildBulkBan,
            Route::GuildBans { .. } => RouteKind::GuildBans,
            Route::GuildChannels { .. } => RouteKind::GuildChannels,
            Route::GuildWidget { .. } => RouteKind::GuildWidget,
            Route::GuildPreview { .. } => RouteKind::GuildPreview,
            Route::GuildEmojis { .. } => RouteKind::GuildEmojis,
            Route::GuildEmoji { .. } => RouteKind::GuildEmoji,
            Route::GuildIntegration { .. } => RouteKind::GuildIntegration,
            Route::GuildIntegrationSync { .. } => RouteKind::GuildIntegrationSync,
            Route::GuildIntegrations { .. } => RouteKind::GuildIntegrations,
            Route::GuildInvites { .. } => RouteKind::GuildInvites,
            Route::GuildMember { .. } => RouteKind::GuildMember,
            Route::GuildMemberRole { .. } => RouteKind::GuildMemberRole,
            Route::GuildMembers { .. } => RouteKind::GuildMembers,
            Route::GuildMembersSearch { .. } => RouteKind::GuildMembersSearch,
            Route::GuildMemberMe { .. } => RouteKind::GuildMemberMe,
            Route::GuildMfa { .. } => RouteKind::GuildMfa,
            Route::GuildPrune { .. } => RouteKind::GuildPrune,
            Route::GuildRegions { .. } => RouteKind::GuildRegions,
            Route::GuildRole { .. } => RouteKind::GuildRole,
            Route::GuildRoles { .. } => RouteKind::GuildRoles,
            Route::GuildScheduledEvent { .. } => RouteKind::GuildScheduledEvent,
            Route::GuildScheduledEvents { .. } => RouteKind::GuildScheduledEvents,
            Route::GuildScheduledEventUsers { .. } => RouteKind::GuildScheduledEventUsers,
            Route::GuildSticker { .. } => RouteKind::GuildSticker,
            Route::GuildStickers { .. } => RouteKind::GuildStickers,
            Route::GuildVanityUrl { .. } => RouteKind::GuildVanityUrl,
            Route::GuildVoiceStates { .. } => RouteKind::GuildVoiceStates,
            Route::GuildVoiceStateMe { .. } => RouteKind::GuildVoiceStateMe,
            Route::GuildWebhooks { .. } => RouteKind::GuildWebhooks,
            Route::GuildWelcomeScreen { .. } => RouteKind::GuildWelcomeScreen,
            Route::GuildThreadsActive { .. } => RouteKind::GuildThreadsActive,
            Route::Guilds => RouteKind::Guilds,
            Route::Invite { .. } => RouteKind::Invite,
            Route::OAuth2ApplicationCurrent => RouteKind::OAuth2ApplicationCurrent,
            Route::StatusIncidentsUnresolved => RouteKind::StatusIncidentsUnresolved,
            Route::StatusMaintenancesActive => RouteKind::StatusMaintenancesActive,
            Route::StatusMaintenancesUpcoming => RouteKind::StatusMaintenancesUpcoming,
            Route::Sticker { .. } => RouteKind::Sticker,
            Route::StickerPacks => RouteKind::StickerPacks,
            Route::StickerPack { .. } => RouteKind::StickerPack,
            Route::User { .. } => RouteKind::User,
            Route::UserMe => RouteKind::UserMe,
            Route::UserMeConnections => RouteKind::UserMeConnections,
            Route::UserMeDmChannels => RouteKind::UserMeDmChannels,
            Route::UserMeGuild { .. } => RouteKind::UserMeGuild,
            Route::UserMeGuildMember { .. } => RouteKind::UserMeGuildMember,
            Route::UserMeGuilds => RouteKind::UserMeGuilds,
            Route::VoiceRegions => RouteKind::VoiceRegions,
            Route::Webhook { .. } => RouteKind::Webhook,
            Route::WebhookWithToken { .. } => RouteKind::WebhookWithToken,
            Route::WebhookMessage { .. } => RouteKind::WebhookMessage,
            Route::WebhookOriginalInteractionResponse { .. } =>
                RouteKind::WebhookOriginalInteractionResponse,
            Route::WebhookFollowupMessage { .. } => RouteKind::WebhookFollowupMessage,
            Route::WebhookFollowupMessages { .. } => RouteKind::WebhookFollowupMessages,
            Route::InteractionResponse { .. } => RouteKind::InteractionResponse,
            Route::Command { .. } => RouteKind::Command,
            Route::Commands { .. } => RouteKind::Commands,
            Route::GuildCommand { .. } => RouteKind::GuildCommand,
            Route::GuildCommandPermissions { .. } => RouteKind::GuildCommandPermissions,
            Route::GuildCommands { .. } => RouteKind::GuildCommands,
            Route::GuildCommandsPermissions { .. } => RouteKind::GuildCommandsPermissions,
            Route::Skus { .. } => RouteKind::Skus,
            Route::Emoji { .. } => RouteKind::Emoji,
            Route::Emojis { .. } => RouteKind::Emojis,
            Route::Entitlement { .. } => RouteKind::Entitlement,
            Route::Entitlements { .. } => RouteKind::Entitlements,
            Route::StageInstances => RouteKind::StageInstances,
            Route::StageInstance { .. } => RouteKind::StageInstance,
        }
    }

    /// The major parameter of the route, if it has one.
    pub fn major_parameter(self) -> (m: Option<u64>)
        ensures
            m == self.major(),
    {
        match self {
            Route::Channel { channel_id } => Some(channel_id.get()),
            Route::ChannelInvites { channel_id } => Some(channel_id.get()),
            Route::ChannelMessage { channel_id, .. } => Some(channel_id.get()),
            Route::ChannelMessageCrosspost { channel_id, .. } => Some(channel_id.get()),
            Route::ChannelMessageReaction { channel_id, .. } => Some(channel_id.get()),
            Route::ChannelMessageReactionMe { channel_id, .. } => Some(channel_id.get()),
            Route::ChannelMessageReactionEmoji { channel_id, .. } => Some(channel_id.get()),
            Route::ChannelMessageReactions { channel_id, .. } => Some(channel_id.get()),
            Route::ChannelMessages { channel_id } => Some(channel_id.get()),
            Route::ChannelMessagesBulkDelete { channel_id } => Some(channel_id.get()),
            Route::ChannelFollowNews { channel_id } => Some(channel_id.get()),
            Route::ChannelPermission { channel_id, .. } => Some(channel_id.get()),
            Route::ChannelPin { channel_id, .. } => Some(channel_id.get()),
            Route::ChannelPins { channel_id } => Some(channel_id.get()),
            Route::ChannelTyping { channel_id } => Some(channel_id.get()),
            Route::ChannelWebhooks { channel_id } => Some(channel_id.get()),
            Route::ChannelMessageThreads { channel_id, .. } => Some(channel_id.get()),
            Route::ChannelThreads { channel_id } => Some(channel_id.get()),
            Route::ChannelForumPosts { channel_id } => Some(channel_id.get()),
            Route::ChannelThreadMember { channel_id, .. } => Some(channel_id.get()),
            Route::ChannelThreadMemberMe { channel_id } => Some(channel_id.get()),
            Route::ChannelThreadMembers { channel_id } => Some(channel_id.get()),
            Route::ChannelArchivedPublicThreads { channel_id } => Some(channel_id.get()),
            Route::ChannelArchivedPrivateThreads { channel_id } => Some(channel_id.get()),
            Route::ChannelJoinedPrivateThreads { channel_id } => Some(channel_id.get()),
            Route::ChannelPollGetAnswerVoters { channel_id, .. } => Some(channel_id.get()),
            Route::ChannelPollExpire { channel_id, .. } => Some(channel_id.get()),
            Route::ChannelVoiceStatus { channel_id } => Some(channel_id.get()),
            Route::Gateway => None,
            Route::GatewayBot => None,
            Route::Guild { guild_id } => Some(guild_id.get()),
            Route::GuildAuditLogs { guild_id } => Some(guild_id.get()),
            Route::GuildAutomodRule { guild_id, .. } => Some(guild_id.get()),
            Route::GuildAutomodRules { guild_id } => Some(guild_id.get()),
            Route::GuildBan { guild_id, .. } => Some(guild_id.get()),
            Route::GuildBulkBan { guild_id } => Some(guild_id.get()),
            Route::GuildBans { guild_id } => Some(guild_id.get()),
            Route::GuildChannels { guild_id } => Some(guild_id.get()),
            Route::GuildWidget { guild_id } => Some(guild_id.get()),
            Route::GuildPreview { guild_id } => Some(guild_id.get()),
            Route::GuildEmojis { guild_id } => Some(guild_id.get()),
            Route::GuildEmoji { guild_id, .. } => Some(guild_id.get()),
            Route::GuildIntegration { guild_id, .. } => Some(guild_id.get()),
            Route::GuildIntegrationSync { guild_id, .. } => Some(guild_id.get()),
            Route::GuildIntegrations { guild_id } => Some(guild_id.get()),
            Route::GuildInvites { guild_id } => Some(guild_id.get()),
            Route::GuildMember { guild_id, .. } => Some(guild_id.get()),
            Route::GuildMemberRole { guild_id, .. } => Some(guild_id.get()),
            Route::GuildMembers { guild_id } => Some(guild_id.get()),
            Route::GuildMembersSearch { guild_id } => Some(guild_id.get()),
            Route::GuildMemberMe { guild_id } => Some(guild_id.get()),
            Route::GuildMfa { guild_id } => Some(guild_id.get()),
            Route::GuildPrune { guild_id } => Some(guild_id.get()),
            Route::GuildRegions { guild_id } => Some(guild_id.get()),
            Route::GuildRole { guild_id, .. } => Some(guild_id.get()),
            Route::GuildRoles { guild_id } => Some(guild_id.get()),
            Route::GuildScheduledEvent { guild_id, .. } => Some(guild_id.get()),
            Route::GuildScheduledEvents { guild_id } => Some(guild_id.get()),
            Route::GuildScheduledEventUsers { guild_id, .. } => Some(guild_id.get()),
            Route::GuildSticker { guild_id, .. } => Some(guild_id.get()),
            Route::GuildStickers { guild_id } => Some(guild_id.get()),
            Route::GuildVanityUrl { guild_id } => Some(guild_id.get()),
            Route::GuildVoiceStates { guild_id, .. } => Some(guild_id.get()),
            Route::GuildVoiceStateMe { guild_id } => Some(guild_id.get()),
            Route::GuildWebhooks { guild_id } => Some(guild_id.get()),
            Route::GuildWelcomeScreen { guild_id } => Some(guild_id.get()),
            Route::GuildThreadsActive { guild_id } => Some(guild_id.get()),
            Route::Guilds => None,
            Route::Invite { .. } => None,
            Route::OAuth2ApplicationCurrent => None,
            Route::StatusIncidentsUnresolved => None,
            Route::StatusMaintenancesActive => None,
            Route::StatusMaintenancesUpcoming => None,
            Route::Sticker { .. } => None,
            Route::StickerPacks => None,
            Route::StickerPack { .. } => None,
            Route::User { .. } => None,
            Route::UserMe => None,
            Route::UserMeConnections => None,
            Route::UserMeDmChannels => None,
            Route::UserMeGuild { .. } => None,
            Route::UserMeGuildMember { .. } => None,
            Route::UserMeGuilds => None,
            Route::VoiceRegions => None,
            Route::Webhook { webhook_id } => Some(webhook_id.get()),
            Route::WebhookWithToken { webhook_id, .. } => Some(webhook_id.get()),
            Route::WebhookMessage { webhook_id, .. } => Some(webhook_id.get()),
            Route::WebhookOriginalInteractionResponse { application_id, .. } =>
                Some(application_id.get()),
            Route::WebhookFollowupMessage { application_id, .. } => Some(application_id.get()),
            Route::WebhookFollowupMessages { application_id, .. } => Some(application_id.get()),
            Route::InteractionResponse { interaction_id, .. } => Some(interaction_id.get()),
            Route::Command { application_id, .. } => Some(application_id.get()),
            Route::Commands { application_id } => Some(application_id.get()),
            Route::GuildCommand { application_id, .. } => Some(application_id.get()),
            Route::GuildCommandPermissions { application_id, .. } => Some(application_id.get()),
            Route::GuildCommands { application_id, .. } => Some(application_id.get()),
            Route::GuildCommandsPermissions { application_id, .. } => Some(application_id.get()),
            Route::Skus { application_id } => Some(application_id.get()),
            Route::Emoji { application_id, .. } => Some(application_id.get()),
            Route::Emojis { application_id } => Some(application_id.get()),
            Route::Entitlement { application_id, .. } => Some(application_id.get()),
            Route::Entitlements { application_id } => Some(application_id.get()),
            Route::StageInstances => None,
            Route::StageInstance { .. } => None,
        }
    }

    /// The bucket that requests to the route are counted in: its template and
    /// its major parameter, and nothing else.
    pub fn bucket_key(self) -> (key: BucketKey)
        ensures
            key == self.bucket(),
            key.kind == self.template(),
            key.major == self.major(),
    {
        BucketKey { kind: self.kind(), major: self.major_parameter() }
    }

    /// The server that the route is on.
    pub fn root(self) -> (r: Root)
        ensures
            r == self.server(),
    {
        match self {
            Route::StatusIncidentsUnresolved
            | Route::StatusMaintenancesActive
            | Route::StatusMaintenancesUpcoming => Root::Status,
            _ => Root::Api,
        }
    }

    /// The path of the route below its server's prefix.
    pub fn path_tail(self) -> (s: String)
        ensures
            s@ == self.tail(),
    {
        match self {
            Route::Channel { channel_id } => {
                let mut s = String::from_str("/channels/");
                s.append(decimal_u64(channel_id.get()).as_str());
                s
            },
            Route::ChannelInvites { channel_id } => {
                let mut s = String::from_str("/channels/");
                s.append(decimal_u64(channel_id.get()).as_str());
                s.append("/invites");
                s
            },
            Route::ChannelMessage { channel_id, message_id } => {
                let mut s = String::from_str("/channels/");
                s.append(decimal_u64(channel_id.get()).as_str());
                s.append("/messages/");
                s.append(decimal_u64(message_id.get()).as_str());
                s
            },
            Route::ChannelMessageCrosspost { channel_id, message_id } => {
                let mut s = String::from_str("/channels/");
                s.append(decimal_u64(channel_id.get()).as_str());
                s.append("/messages/");
                s.append(decimal_u64(message_id.get()).as_str());
                s.append("/crosspost");
                s
            },
            Route::ChannelMessageReaction { channel_id, message_id, user_id, reaction } => {
                let mut s = String::from_str("/channels/");
                s.append(decimal_u64(channel_id.get()).as_str());
                s.append("/messages/");
                s.append(decimal_u64(message_id.get()).as_str());
                s.append("/reactions/");
                s.append(reaction);
                s.append("/");
                s.append(decimal_u64(user_id.get()).as_str());
                s
            },
            Route::ChannelMessageReactionMe { channel_id, message_id, reaction } => {
                let mut s = String::from_str("/channels/");
                s.append(decimal_u64(channel_id.get()).as_str());
                s.append("/messages/");
                s.append(decimal_u64(message_id.get()).as_str());
                s.append("/reactions/");
                s.append(reaction);
                s.append("/@me");
                s
            },
            Route::ChannelMessageReactionEmoji { channel_id, message_id, reaction } => {
                let mut s = String::from_str("/channels/");
                s.append(decimal_u64(channel_id.get()).as_str());
                s.append("/messages/");
                s.append(decimal_u64(message_id.get()).as_str());
                s.append("/reactions/");
                s.append(reaction);
                s
            },
            Route::ChannelMessageReactions { channel_id, message_id } => {
                let mut s = String::from_str("/channels/");
                s.append(decimal_u64(channel_id.get()).as_str());
                s.append("/messages/");
                s.append(decimal_u64(message_id.get()).as_str());
                s.append("/reactions");
                s
            },
            Route::ChannelMessages { channel_id } => {
                let mut s = String::from_str("/channels/");
                s.append(decimal_u64(channel_id.get()).as_str());
                s.append("/messages");
                s
            },
            Route::ChannelMessagesBulkDelete { channel_id } => {
                let mut s = String::from_str("/channels/");
                s.append(decimal_u64(channel_id.get()).as_str());
                s.append("/messages/bulk-delete");
                s
            },
            Route::ChannelFollowNews { channel_id } => {
                let mut s = String::from_str("/channels/");
                s.append(decimal_u64(channel_id.get()).as_str());
                s.append("/followers");
                s
            },
            Route::ChannelPermission { channel_id, target_id } => {
                let mut s = String::from_str("/channels/");
                s.append(decimal_u64(channel_id.get()).as_str());
                s.append("/permissions/");
                s.append(decimal_u64(target_id.get()).as_str());
                s
            },
            Route::ChannelPin { channel_id, message_id } => {
                let mut s = String::from_str("/channels/");
                s.append(decimal_u64(channel_id.get()).as_str());
                s.append("/pins/");
                s.append(decimal_u64(message_id.get()).as_str());
                s
            },
            Route::ChannelPins { channel_id } => {
                let mut s = String::from_str("/channels/");
                s.append(decimal_u64(channel_id.get()).as_str());
                s.append("/pins");
                s
            },
            Route::ChannelTyping { channel_id } => {
                let mut s = String::from_str("/channels/");
                s.append(decimal_u64(channel_id.get()).as_str());
                s.append("/typing");
                s
            },
            Route::ChannelWebhooks { channel_id } => {
                let mut s = String::from_str("/channels/");
                s.append(decimal_u64(channel_id.get()).as_str());
                s.append("/webhooks");
                s
            },
            Route::ChannelMessageThreads { channel_id, message_id } => {
                let mut s = String::from_str("/channels/");
                s.append(decimal_u64(channel_id.get()).as_str());
                s.append("/messages/");
                s.append(decimal_u64(message_id.get()).as_str());
                s.append("/threads");
                s
            },
            Route::ChannelThreads { channel_id } => {
                let mut s = String::from_str("/channels/");
                s.append(decimal_u64(channel_id.get()).as_str());
                s.append("/threads");
                s
            },
            Route::ChannelForumPosts { channel_id } => {
                let mut s = String::from_str("/channels/");
                s.append(decimal_u64(channel_id.get()).as_str());
                s.append("/threads");
                s
            },
            Route::ChannelThreadMember { channel_id, user_id } => {
                let mut s = String::from_str("/channels/");
                s.append(decimal_u64(channel_id.get()).as_str());
                s.append("/thread-members/");
                s.append(decimal_u64(user_id.get()).as_str());
                s
            },
            Route::ChannelThreadMemberMe { channel_id } => {
                let mut s = String::from_str("/channels/");
                s.append(decimal_u64(channel_id.get()).as_str());
                s.append("/thread-members/@me");
                s
            },
            Route::ChannelThreadMembers { channel_id } => {
                let mut s = String::from_str("/channels/");
                s.append(decimal_u64(channel_id.get()).as_str());
                s.append("/thread-members");
                s
            },
            Route::ChannelArchivedPublicThreads { channel_id } => {
                let mut s = String::from_str("/channels/");
                s.append(decimal_u64(channel_id.get()).as_str());
                s.append("/threads/archived/public");
                s
            },
            Route::ChannelArchivedPrivateThreads { channel_id } => {
                let mut s = String::from_str("/channels/");
                s.append(decimal_u64(channel_id.get()).as_str());
                s.append("/threads/archived/private");
                s
            },
            Route::ChannelJoinedPrivateThreads { channel_id } => {
                let mut s = String::from_str("/channels/");
                s.append(decimal_u64(channel_id.get()).as_str());
                s.append("/users/@me/threads/archived/private");
                s
            },
            Route::ChannelPollGetAnswerVoters { channel_id, message_id, answer_id } => {
                let mut s = String::from_str("/channels/");
                s.append(decimal_u64(channel_id.get()).as_str());
                s.append("/polls/");
                s.append(decimal_u64(message_id.get()).as_str());
                s.append("/answers/");
                s.append(decimal_u64(answer_id.get() as u64).as_str());
                s
            },
            Route::ChannelPollExpire { channel_id, message_id } => {
                let mut s = String::from_str("/channels/");
                s.append(decimal_u64(channel_id.get()).as_str());
                s.append("/polls/");
                s.append(decimal_u64(message_id.get()).as_str());
                s.append("/expire");
                s
            },
            Route::ChannelVoiceStatus { channel_id } => {
                let mut s = String::from_str("/channels/");
                s.append(decimal_u64(channel_id.get()).as_str());
                s.append("/voice-status");
                s
            },
            Route::Gateway => String::from_str("/gateway"),
            Route::GatewayBot => String::from_str("/gateway/bot"),
            Route::Guild { guild_id } => {
                let mut s = String::from_str("/guilds/");
                s.append(decimal_u64(guild_id.get()).as_str());
                s
            },
            Route::GuildAuditLogs { guild_id } => {
                let mut s = String::from_str("/guilds/");
                s.append(decimal_u64(guild_id.get()).as_str());
                s.append("/audit-logs");
                s
            },
            Route::GuildAutomodRule { guild_id, rule_id } => {
                let mut s = String::from_str("/guilds/");
                s.append(decimal_u64(guild_id.get()).as_str());
                s.append("/auto-moderation/rules/");
                s.append(decimal_u64(rule_id.get()).as_str());
                s
            },
            Route::GuildAutomodRules { guild_id } => {
                let mut s = String::from_str("/guilds/");
                s.append(decimal_u64(guild_id.get()).as_str());
                s.append("/auto-moderation/rules");
                s
            },
            Route::GuildBan { guild_id, user_id } => {
                let mut s = String::from_str("/guilds/");
                s.append(decimal_u64(guild_id.get()).as_str());
                s.append("/bans/");
                s.append(decimal_u64(user_id.get()).as_str());
                s
            },
            Route::GuildBulkBan { guild_id } => {
                let mut s = String::from_str("/guilds/");
                s.append(decimal_u64(guild_id.get()).as_str());
                s.append("/bulk-ban");
                s
            },
            Route::GuildBans { guild_id } => {
                let mut s = String::from_str("/guilds/");
                s.append(decimal_u64(guild_id.get()).as_str());
                s.append("/bans");
                s
            },
            Route::GuildChannels { guild_id } => {
                let mut s = String::from_str("/guilds/");
                s.append(decimal_u64(guild_id.get()).as_str());
                s.append("/channels");
                s
            },
            Route::GuildWidget { guild_id } => {
                let mut s = String::from_str("/guilds/");
                s.append(decimal_u64(guild_id.get()).as_str());
                s.append("/widget");
                s
            },
            Route::GuildPreview { guild_id } => {
                let mut s = String::from_str("/guilds/");
                s.append(decimal_u64(guild_id.get()).as_str());
                s.append("/preview");
                s
            },
            Route::GuildEmojis { guild_id } => {
                let mut s = String::from_str("/guilds/");
                s.append(decimal_u64(guild_id.get()).as_str());
                s.append("/emojis");
                s
            },
            Route::GuildEmoji { guild_id, emoji_id } => {
                let mut s = String::from_str("/guilds/");
                s.append(decimal_u64(guild_id.get()).as_str());
                s.append("/emojis/");
                s.append(decimal_u64(emoji_id.get()).as_str());
                s
            },
            Route::GuildIntegration { guild_id, integration_id } => {
                let mut s = String::from_str("/guilds/");
                s.append(decimal_u64(guild_id.get()).as_str());
                s.append("/integrations/");
                s.append(decimal_u64(integration_id.get()).as_str());
                s
            },
            Route::GuildIntegrationSync { guild_id, integration_id } => {
                let mut s = String::from_str("/guilds/");
                s.append(decimal_u64(guild_id.get()).as_str());
                s.append("/integrations/");
                s.append(decimal_u64(integration_id.get()).as_str());
                s.append("/sync");
                s
            },
            Route::GuildIntegrations { guild_id } => {
                let mut s = String::from_str("/guilds/");
                s.append(decimal_u64(guild_id.get()).as_str());
                s.append("/integrations");
                s
            },
            Route::GuildInvites { guild_id } => {
                let mut s = String::from_str("/guilds/");
                s.append(decimal_u64(guild_id.get()).as_str());
                s.append("/invites");
                s
            },
            Route::GuildMember { guild_id, user_id } => {
                let mut s = String::from_str("/guilds/");
                s.append(decimal_u64(guild_id.get()).as_str());
                s.append("/members/");
                s.append(decimal_u64(user_id.get()).as_str());
                s
            },
            Route::GuildMemberRole { guild_id, user_id, role_id } => {
                let mut s = String::from_str("/guilds/");
                s.append(decimal_u64(guild_id.get()).as_str());
                s.append("/members/");
                s.append(decimal_u64(user_id.get()).as_str());
                s.append("/roles/");
                s.append(decimal_u64(role_id.get()).as_str());
                s
            },
            Route::GuildMembers { guild_id } => {
                let mut s = String::from_str("/guilds/");
                s.append(decimal_u64(guild_id.get()).as_str());
                s.append("/members");
                s
            },
            Route::GuildMembersSearch { guild_id } => {
                let mut s = String::from_str("/guilds/");
                s.append(decimal_u64(guild_id.get()).as_str());
                s.append("/members/search");
                s
            },
            Route::GuildMemberMe { guild_id } => {
                let mut s = String::from_str("/guilds/");
                s.append(decimal_u64(guild_id.get()).as_str());
                s.append("/members/@me");
                s
            },
            Route::GuildMfa { guild_id } => {
                let mut s = String::from_str("/guilds/");
                s.append(decimal_u64(guild_id.get()).as_str());
                s.append("/mfa");
                s
            },
            Route::GuildPrune { guild_id } => {
                let mut s = String::from_str("/guilds/");
                s.append(decimal_u64(guild_id.get()).as_str());
                s.append("/prune");
                s
            },
            Route::GuildRegions { guild_id } => {
                let mut s = String::from_str("/guilds/");
                s.append(decimal_u64(guild_id.get()).as_str());
                s.append("/regions");
                s
            },
            Route::GuildRole { guild_id, role_id } => {
                let mut s = String::from_str("/guilds/");
                s.append(decimal_u64(guild_id.get()).as_str());
                s.append("/roles/");
                s.append(decimal_u64(role_id.get()).as_str());
                s
            },
            Route::GuildRoles { guild_id } => {
                let mut s = String::from_str("/guilds/");
                s.append(decimal_u64(guild_id.get()).as_str());
                s.append("/roles");
                s
            },
            Route::GuildScheduledEvent { guild_id, event_id } => {
                let mut s = String::from_str("/guilds/");
                s.append(decimal_u64(guild_id.get()).as_str());
                s.append("/scheduled-events/");
                s.append(decimal_u64(event_id.get()).as_str());
                s
            },
            Route::GuildScheduledEvents { guild_id } => {
                let mut s = String::from_str("/guilds/");
                s.append(decimal_u64(guild_id.get()).as_str());
                s.append("/scheduled-events");
                s
            },
            Route::GuildScheduledEventUsers { guild_id, event_id } => {
                let mut s = String::from_str("/guilds/");
                s.append(decimal_u64(guild_id.get()).as_str());
                s.append("/scheduled-events/");
                s.append(decimal_u64(event_id.get()).as_str());
                s.append("/users");
                s
            },
            Route::GuildSticker { guild_id, sticker_id } => {
                let mut s = String::from_str("/guilds/");
                s.append(decimal_u64(guild_id.get()).as_str());
                s.append("/stickers/");
                s.append(decimal_u64(sticker_id.get()).as_str());
                s
            },
            Route::GuildStickers { guild_id } => {
                let mut s = String::from_str("/guilds/");
                s.append(decimal_u64(guild_id.get()).as_str());
                s.append("/stickers");
                s
            },
            Route::GuildVanityUrl { guild_id } => {
                let mut s = String::from_str("/guilds/");
                s.append(decimal_u64(guild_id.get()).as_str());
                s.append("/vanity-url");
                s
            },
            Route::GuildVoiceStates { guild_id, user_id } => {
                let mut s = String::from_str("/guilds/");
                s.append(decimal_u64(guild_id.get()).as_str());
                s.append("/voice-states/");
                s.append(decimal_u64(user_id.get()).as_str());
                s
            },
            Route::GuildVoiceStateMe { guild_id } => {
                let mut s = String::from_str("/guilds/");
                s.append(decimal_u64(guild_id.get()).as_str());
                s.append("/voice-states/@me");
                s
            },
            Route::GuildWebhooks { guild_id } => {
                let mut s = String::from_str("/guilds/");
                s.append(decimal_u64(guild_id.get()).as_str());
                s.append("/webhooks");
                s
            },
            Route::GuildWelcomeScreen { guild_id } => {
                let mut s = String::from_str("/guilds/");
                s.append(decimal_u64(guild_id.get()).as_str());
                s.append("/welcome-screen");
                s
            },
            Route::GuildThreadsActive { guild_id } => {
                let mut s = String::from_str("/guilds/");
                s.append(decimal_u64(guild_id.get()).as_str());
                s.append("/threads/active");
                s
            },
            Route::Guilds => String::from_str("/guilds"),
            Route::Invite { code } => {
                let mut s = String::from_str("/invites/");
                s.append(code);
                s
            },
            Route::OAuth2ApplicationCurrent => String::from_str("/oauth2/applications/@me"),
            Route::StatusIncidentsUnresolved => String::from_str("/incidents/unresolved.json"),
            Route::StatusMaintenancesActive =>
                String::from_str("/scheduled-maintenances/active.json"),
            Route::StatusMaintenancesUpcoming =>
                String::from_str("/scheduled-maintenances/upcoming.json"),
            Route::Sticker { sticker_id } => {
                let mut s = String::from_str("/stickers/");
                s.append(decimal_u64(sticker_id.get()).as_str());
                s
            },
            Route::StickerPacks => String::from_str("/sticker-packs"),
            Route::StickerPack { sticker_pack_id } => {
                let mut s = String::from_str("/sticker-packs/");
                s.append(decimal_u64(sticker_pack_id.get()).as_str());
                s
            },
            Route::User { user_id } => {
                let mut s = String::from_str("/users/");
                s.append(decimal_u64(user_id.get()).as_str());
                s
            },
            Route::UserMe => String::from_str("/users/@me"),
            Route::UserMeConnections => String::from_str("/users/@me/connections"),
            Route::UserMeDmChannels => String::from_str("/users/@me/channels"),
            Route::UserMeGuild { guild_id } => {
                let mut s = String::from_str("/users/@me/guilds/");
                s.append(decimal_u64(guild_id.get()).as_str());
                s
            },
            Route::UserMeGuildMember { guild_id } => {
                let mut s = String::from_str("/users/@me/guilds/");
                s.append(decimal_u64(guild_id.get()).as_str());
                s.append("/member");
                s
            },
            Route::UserMeGuilds => String::from_str("/users/@me/guilds"),
            Route::VoiceRegions => String::from_str("/voice/regions"),
            Route::Webhook { webhook_id } => {
                let mut s = String::from_str("/webhooks/");
                s.append(decimal_u64(webhook_id.get()).as_str());
                s
            },
            Route::WebhookWithToken { webhook_id, token } => {
                let mut s = String::from_str("/webhooks/");
                s.append(decimal_u64(webhook_id.get()).as_str());
                s.append("/");
                s.append(token);
                s
            },
            Route::WebhookMessage { webhook_id, token, message_id } => {
                let mut s = String::from_str("/webhooks/");
                s.append(decimal_u64(webhook_id.get()).as_str());
                s.append("/");
                s.append(token);
                s.append("/messages/");
                s.append(decimal_u64(message_id.get()).as_str());
                s
            },
            Route::WebhookOriginalInteractionResponse { application_id, token } => {
                let mut s = String::from_str("/webhooks/");
                s.append(decimal_u64(application_id.get()).as_str());
                s.append("/");
                s.append(token);
                s.append("/messages/@original");
                s
            },
            Route::WebhookFollowupMessage { application_id, token, message_id } => {
                let mut s = String::from_str("/webhooks/");
                s.append(decimal_u64(application_id.get()).as_str());
                s.append("/");
                s.append(token);
                s.append("/messages/");
                s.append(decimal_u64(message_id.get()).as_str());
                s
            },
            Route::WebhookFollowupMessages { application_id, token } => {
                let mut s = String::from_str("/webhooks/");
                s.append(decimal_u64(application_id.get()).as_str());
                s.append("/");
                s.append(token);
                s
            },
            Route::InteractionResponse { interaction_id, token } => {
                let mut s = String::from_str("/interactions/");
                s.append(decimal_u64(interaction_id.get()).as_str());
                s.append("/");
                s.append(token);
                s.append("/callback");
                s
            },
            Route::Command { application_id, command_id } => {
                let mut s = String::from_str("/applications/");
                s.append(decimal_u64(application_id.get()).as_str());
                s.append("/commands/");
                s.append(decimal_u64(command_id.get()).as_str());
                s
            },
            Route::Commands { application_id } => {
                let mut s = String::from_str("/applications/");
                s.append(decimal_u64(application_id.get()).as_str());
                s.append("/commands");
                s
            },
            Route::GuildCommand { application_id, guild_id, command_id } => {
                let mut s = String::from_str("/applications/");
                s.append(decimal_u64(application_id.get()).as_str());
                s.append("/guilds/");
                s.append(decimal_u64(guild_id.get()).as_str());
                s.append("/commands/");
                s.append(decimal_u64(command_id.get()).as_str());
                s
            },
            Route::GuildCommandPermissions { application_id, guild_id, command_id } => {
                let mut s = String::from_str("/applications/");
                s.append(decimal_u64(application_id.get()).as_str());
                s.append("/guilds/");
                s.append(decimal_u64(guild_id.get()).as_str());
                s.append("/commands/");
                s.append(decimal_u64(command_id.get()).as_str());
                s.append("/permissions");
                s
            },
            Route::GuildCommands { application_id, guild_id } => {
                let mut s = String::from_str("/applications/");
                s.append(decimal_u64(application_id.get()).as_str());
                s.append("/guilds/");
                s.append(decimal_u64(guild_id.get()).as_str());
                s.append("/commands");
                s
            },
            Route::GuildCommandsPermissions { application_id, guild_id } => {
                let mut s = String::from_str("/applications/");
                s.append(decimal_u64(application_id.get()).as_str());
                s.append("/guilds/");
                s.append(decimal_u64(guild_id.get()).as_str());
                s.append("/commands/permissions");
                s
            },
            Route::Skus { application_id } => {
                let mut s = String::from_str("/applications/");
                s.append(decimal_u64(application_id.get()).as_str());
                s.append("/skus");
                s
            },
            Route::Emoji { application_id, emoji_id } => {
                let mut s = String::from_str("/applications/");
                s.append(decimal_u64(application_id.get()).as_str());
                s.append("/emojis/");
                s.append(decimal_u64(emoji_id.get()).as_str());
                s
            },
            Route::Emojis { application_id } => {
                let mut s = String::from_str("/applications/");
                s.append(decimal_u64(application_id.get()).as_str());
                s.append("/emojis");
                s
            },
            Route::Entitlement { application_id, entitlement_id } => {
                let mut s = String::from_str("/applications/");
                s.append(decimal_u64(application_id.get()).as_str());
                s.append("/entitlements/");
                s.append(decimal_u64(entitlement_id.get()).as_str());
                s
            },
            Route::Entitlements { application_id } => {
                let mut s = String::from_str("/applications/");
                s.append(decimal_u64(application_id.get()).as_str());
                s.append("/entitlements");
                s
            },
            Route::StageInstances => String::from_str("/stage-instances"),
            Route::StageInstance { channel_id } => {
                let mut s = String::from_str("/stage-instances/");
                s.append(decimal_u64(channel_id.get()).as_str());
                s
            },
        }
    }

    /// The full address of the route on its own server.
    pub fn path(self) -> (s: String)
        ensures
            s@ == self.address(),
    {
        let root = self.root();
        let mut s = String::from_str(root.host_text());
        s.append(root.prefix_text());
        s.append(self.path_tail().as_str());
        s
    }
}

/// Two routes fall in the same bucket exactly if they have the same template
/// and the same major parameter, whatever their other parameters are.
pub proof fn lemma_same_bucket(a: Route, b: Route)
    ensures
        a.bucket() == b.bucket() <==> (a.template() == b.template() && a.major() == b.major()),
{
}

/// Two routes whose major parameters differ fall in different buckets, also
/// where their template is the same.
pub proof fn lemma_major_parameter_separates(a: Route, b: Route)
    requires
        a.major() != b.major(),
    ensures
        a.bucket() != b.bucket(),
{
}

} // verus!
