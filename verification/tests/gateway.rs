use serenity::cache::Cache;
use serenity::collector::{collect, CollectorFilters, EventOrigin};
use serenity::gateway::client::context::Context;
use serenity::gateway::{ActivityData, ActivityType, OnlineStatus, ShardRunnerMessage};
use serenity::http::client::{Http, HttpBuilder};
use serenity::http::error::DispatchError;
use serenity::http::request::LightMethod;
use serenity::model::id::{ApplicationId, ChannelId, EmojiId, GuildId, MessageId, ShardId, UserId};

fn activity() -> ActivityData {
    ActivityData { name: "chess".to_string(), kind: ActivityType::Playing, state: None, url: None }
}

#[test]
fn presence_shortcuts_give_the_message_for_the_shard() {
    let http = Http::without_token();
    let cache = Cache::new();
    let ctx = Context::new(ShardId(3), &http, &cache);
    assert_eq!(ctx.shard_id, ShardId(3));
    assert!(matches!(ctx.online(), ShardRunnerMessage::SetStatus(OnlineStatus::Online)));
    assert!(matches!(ctx.idle(), ShardRunnerMessage::SetStatus(OnlineStatus::Idle)));
    assert!(matches!(ctx.dnd(), ShardRunnerMessage::SetStatus(OnlineStatus::DoNotDisturb)));
    assert!(matches!(ctx.invisible(), ShardRunnerMessage::SetStatus(OnlineStatus::Invisible)));
    assert!(matches!(
        ctx.reset_presence(),
        ShardRunnerMessage::SetPresence { activity: None, status: OnlineStatus::Online }
    ));
    match ctx.set_activity(Some(activity())) {
        ShardRunnerMessage::SetActivity(Some(a)) => assert_eq!(a.name, "chess"),
        other => panic!("unexpected message {:?}", other),
    }
    match ctx.set_presence(Some(activity()), OnlineStatus::Idle) {
        ShardRunnerMessage::SetPresence { activity: Some(a), status } => {
            assert_eq!(a.kind, ActivityType::Playing);
            assert_eq!(status, OnlineStatus::Idle);
        },
        other => panic!("unexpected message {:?}", other),
    }
}

#[test]
fn application_emoji_shortcuts() {
    let cache = Cache::new();
    let http = Http::without_token();
    let ctx = Context::new(ShardId(0), &http, &cache);
    assert!(matches!(ctx.get_application_emojis(), Err(DispatchError::PreconditionMissing)));
    let http = HttpBuilder::without_token().application_id(ApplicationId::new(4)).build();
    let ctx = Context::new(ShardId(0), &http, &cache);
    let req = ctx.get_application_emojis().unwrap();
    assert_eq!(req.method, LightMethod::Get);
    assert_eq!(req.route.path(), "https://discord.com/api/v10/applications/4/emojis");
    let req = ctx.get_application_emoji(EmojiId::new(9)).unwrap();
    assert_eq!(req.route.path(), "https://discord.com/api/v10/applications/4/emojis/9");
    let req = ctx.delete_application_emoji(EmojiId::new(9)).unwrap();
    assert_eq!(req.method, LightMethod::Delete);
    let body = ctx.create_application_emoji("wave", "data:image/png;base64,AAAA");
    assert_eq!(body.name, "wave");
    assert_eq!(body.image, "data:image/png;base64,AAAA");
    assert_eq!(ctx.edit_application_emoji("hello").name, "hello");
}

#[test]
fn collector_stays_while_it_can_deliver() {
    assert!(collect(Some(true), false));
    assert!(!collect(Some(false), false));
    assert!(!collect(Some(false), true));
    assert!(collect(None, false));
    assert!(!collect(None, true));
}

fn origin(
    author: Option<u64>,
    channel: u64,
    guild: Option<u64>,
    message: Option<u64>,
) -> EventOrigin {
    EventOrigin {
        author_id: author.map(UserId::new),
        channel_id: ChannelId::new(channel),
        guild_id: guild.map(GuildId::new),
        message_id: message.map(MessageId::new),
    }
}

#[test]
fn filters_that_are_not_set_let_everything_pass() {
    let f = CollectorFilters::new();
    assert!(f.filters_pass(&origin(Some(1), 2, Some(3), Some(4))));
    assert!(f.filters_pass(&origin(None, 2, None, None)));
}

#[test]
fn filters_compare_what_the_event_names() {
    let f = CollectorFilters::new()
        .author_id(UserId::new(1))
        .channel_id(ChannelId::new(2))
        .guild_id(GuildId::new(3))
        .message_id(MessageId::new(4));
    assert!(f.filters_pass(&origin(Some(1), 2, Some(3), Some(4))));
    assert!(f.filters_pass(&origin(None, 2, None, None)));
    assert!(!f.filters_pass(&origin(Some(9), 2, Some(3), Some(4))));
    assert!(!f.filters_pass(&origin(Some(1), 9, Some(3), Some(4))));
    assert!(!f.filters_pass(&origin(Some(1), 2, Some(9), Some(4))));
    assert!(!f.filters_pass(&origin(Some(1), 2, Some(3), Some(9))));
    let only_channel = CollectorFilters::new().channel_id(ChannelId::new(2));
    assert!(only_channel.filters_pass(&origin(Some(9), 2, Some(9), Some(9))));
    assert!(!only_channel.filters_pass(&origin(Some(9), 3, Some(9), Some(9))));
}
