use serenity::http::routing::{BucketKey, Root, Route, RouteKind, ROUTE_KINDS};
use serenity::model::id::{
    AnswerId, ApplicationId, ChannelId, CommandId, GuildId, InteractionId, MessageId, RoleId, UserId,
    WebhookId,
};

#[test]
fn paths_fill_in_ids_in_decimal() {
    assert_eq!(
        Route::Channel { channel_id: ChannelId::new(0) }.path(),
        "https://discord.com/api/v10/channels/0"
    );
    assert_eq!(
        Route::ChannelMessage { channel_id: ChannelId::new(123), message_id: MessageId::new(456) }.path(),
        "https://discord.com/api/v10/channels/123/messages/456"
    );
    assert_eq!(
        Route::Guild { guild_id: GuildId::new(u64::MAX) }.path(),
        "https://discord.com/api/v10/guilds/18446744073709551615"
    );
    assert_eq!(
        Route::GuildMemberRole {
            guild_id: GuildId::new(1),
            user_id: UserId::new(20),
            role_id: RoleId::new(300)
        }
        .path(),
        "https://discord.com/api/v10/guilds/1/members/20/roles/300"
    );
}

#[test]
fn paths_take_text_as_it_is() {
    assert_eq!(
        Route::ChannelMessageReaction {
            channel_id: ChannelId::new(1),
            message_id: MessageId::new(2),
            user_id: UserId::new(3),
            reaction: "%F0%9F%91%8D"
        }
        .path(),
        "https://discord.com/api/v10/channels/1/messages/2/reactions/%F0%9F%91%8D/3"
    );
    assert_eq!(
        Route::ChannelMessageReactionMe {
            channel_id: ChannelId::new(1),
            message_id: MessageId::new(2),
            reaction: "blob:77"
        }
        .path(),
        "https://discord.com/api/v10/channels/1/messages/2/reactions/blob:77/@me"
    );
    assert_eq!(
        Route::WebhookWithToken { webhook_id: WebhookId::new(9), token: "tok-en_1" }.path(),
        "https://discord.com/api/v10/webhooks/9/tok-en_1"
    );
    assert_eq!(Route::Invite { code: "abcDEF" }.path(), "https://discord.com/api/v10/invites/abcDEF");
}

#[test]
fn paths_without_parameters() {
    assert_eq!(Route::Gateway.path(), "https://discord.com/api/v10/gateway");
    assert_eq!(Route::GatewayBot.path(), "https://discord.com/api/v10/gateway/bot");
    assert_eq!(Route::UserMe.path(), "https://discord.com/api/v10/users/@me");
    assert_eq!(Route::VoiceRegions.path(), "https://discord.com/api/v10/voice/regions");
    assert_eq!(
        Route::OAuth2ApplicationCurrent.path(),
        "https://discord.com/api/v10/oauth2/applications/@me"
    );
}

#[test]
fn status_routes_are_on_the_status_server() {
    assert_eq!(Route::StatusIncidentsUnresolved.root(), Root::Status);
    assert_eq!(Route::Gateway.root(), Root::Api);
    assert_eq!(
        Route::StatusIncidentsUnresolved.path(),
        "https://status.discord.com/api/v2/incidents/unresolved.json"
    );
    assert_eq!(
        Route::StatusMaintenancesActive.path(),
        "https://status.discord.com/api/v2/scheduled-maintenances/active.json"
    );
    assert_eq!(
        Route::StatusMaintenancesUpcoming.path(),
        "https://status.discord.com/api/v2/scheduled-maintenances/upcoming.json"
    );
}

#[test]
fn path_tail_is_the_path_below_the_prefix() {
    let route = Route::ChannelPollGetAnswerVoters {
        channel_id: ChannelId::new(5),
        message_id: MessageId::new(6),
        answer_id: AnswerId(7),
    };
    assert_eq!(route.path_tail(), "/channels/5/polls/6/answers/7");
    assert_eq!(Root::Api.host_text(), "https://discord.com");
    assert_eq!(Root::Api.prefix_text(), "/api/v10");
    assert_eq!(
        Route::GuildCommandPermissions {
            application_id: ApplicationId::new(1),
            guild_id: GuildId::new(2),
            command_id: CommandId::new(3)
        }
        .path_tail(),
        "/applications/1/guilds/2/commands/3/permissions"
    );
    assert_eq!(
        Route::InteractionResponse { interaction_id: InteractionId::new(8), token: "t" }.path_tail(),
        "/interactions/8/t/callback"
    );
}

#[test]
fn same_template_and_major_parameter_share_a_bucket() {
    let a = Route::ChannelMessage { channel_id: ChannelId::new(1), message_id: MessageId::new(10) };
    let b = Route::ChannelMessage { channel_id: ChannelId::new(1), message_id: MessageId::new(99) };
    assert_eq!(a.bucket_key(), b.bucket_key());
    assert_eq!(a.bucket_key(), BucketKey { kind: RouteKind::ChannelMessage, major: Some(1) });
}

#[test]
fn different_major_parameters_are_different_buckets() {
    let a = Route::ChannelMessage { channel_id: ChannelId::new(1), message_id: MessageId::new(10) };
    let b = Route::ChannelMessage { channel_id: ChannelId::new(2), message_id: MessageId::new(10) };
    assert_ne!(a.bucket_key(), b.bucket_key());
}

#[test]
fn different_templates_are_different_buckets() {
    let a = Route::ChannelMessages { channel_id: ChannelId::new(1) };
    let b = Route::ChannelPins { channel_id: ChannelId::new(1) };
    assert_ne!(a.bucket_key(), b.bucket_key());
    assert_eq!(a.major_parameter(), b.major_parameter());
}

#[test]
fn only_the_major_parameter_takes_part() {
    let by_webhook = Route::WebhookMessage {
        webhook_id: WebhookId::new(4),
        token: "one",
        message_id: MessageId::new(1),
    };
    let other_token = Route::WebhookMessage {
        webhook_id: WebhookId::new(4),
        token: "two",
        message_id: MessageId::new(2),
    };
    assert_eq!(by_webhook.bucket_key(), other_token.bucket_key());
    assert_eq!(Route::User { user_id: UserId::new(1) }.major_parameter(), None);
    assert_eq!(
        Route::User { user_id: UserId::new(1) }.bucket_key(),
        Route::User { user_id: UserId::new(2) }.bucket_key()
    );
    assert_eq!(Route::Gateway.bucket_key(), BucketKey { kind: RouteKind::Gateway, major: None });
}

#[test]
fn kinds_are_numbered_in_order() {
    assert_eq!(RouteKind::Channel.ordinal(), 0);
    assert_eq!(RouteKind::ChannelInvites.ordinal(), 1);
    assert_eq!(RouteKind::StageInstance.ordinal(), ROUTE_KINDS - 1);
    assert_eq!(Route::GuildBans { guild_id: GuildId::new(1) }.kind(), RouteKind::GuildBans);
}
