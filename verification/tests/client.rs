use nonmax::{NonMaxU16, NonMaxU8};
use serenity::builder::create_allowed_mentions::CreateAllowedMentions;
use serenity::http::client::{join_ids, Http, HttpBuilder, SerializeIter};
use serenity::http::error::{DispatchError, ErrorBody};
use serenity::http::multipart::{CreateAttachment, MultipartUpload};
use serenity::http::pagination::{GuildPagination, MessagePagination, UserPagination};
use serenity::http::ratelimiting::{Ratelimiter, Step, Verdict};
use serenity::http::request::{LightMethod, Request, TransportBody, USER_AGENT};
use serenity::http::response::RawResponse;
use serenity::http::routing::Route;
use serenity::model::guild::audit_log::Action;
use serenity::model::id::{
    ApplicationId, AuditLogEntryId, ChannelId, EmojiId, EntitlementId, GuildId, MessageId, RoleId,
    ScheduledEventId, SkuId, UserId, WebhookId,
};
use serenity::model::monetization::{EntitlementOwner, TestEntitlement};
use serenity::secrets::Token;

fn client() -> Http {
    HttpBuilder::new(Token::new("Bot secret")).application_id(ApplicationId::new(42)).build()
}

fn query(req: &Request<'_>) -> Option<Vec<(String, String)>> {
    req.params.as_ref().map(|p| p.iter().map(|(n, v)| (n.to_string(), v.clone())).collect())
}

fn pairs(items: &[(&str, &str)]) -> Option<Vec<(String, String)>> {
    Some(items.iter().map(|(n, v)| (n.to_string(), v.to_string())).collect())
}

fn headers(req: &Request<'_>) -> Option<Vec<(String, String)>> {
    req.headers.as_ref().map(|h| h.iter().map(|x| (x.name.to_string(), x.value.clone())).collect())
}

fn raw(status: u16) -> RawResponse {
    RawResponse { status, headers: Vec::new(), body: Vec::new() }
}

#[test]
fn builder_defaults() {
    let http = Http::new(Token::new("Bot t"));
    assert_eq!(http.application_id(), None);
    assert!(http.proxy.is_none());
    assert!(http.default_allowed_mentions.is_none());
    assert!(!http.ratelimiter.is_disabled());
    let http = Http::without_token();
    let t = http.request(Request::new(Route::Gateway, LightMethod::Get));
    assert_eq!(t.headers.len(), 1);
    assert_eq!(t.headers[0].name, "user-agent");
    assert_eq!(t.headers[0].value, USER_AGENT);
}

#[test]
fn builder_settings_reach_the_client() {
    let http = HttpBuilder::new(Token::new("Bot t"))
        .application_id(ApplicationId::new(7))
        .proxy("http://localhost:3000/".to_string())
        .ratelimiter_disabled(true)
        .default_allowed_mentions(CreateAllowedMentions::new())
        .build();
    assert_eq!(http.application_id(), Some(ApplicationId::new(7)));
    assert_eq!(http.proxy.as_deref(), Some("http://localhost:3000/"));
    assert!(http.ratelimiter.is_disabled());
    assert!(http.default_allowed_mentions.is_some());
    let t = http.request(Request::new(Route::Gateway, LightMethod::Get));
    assert_eq!(t.url, "http://localhost:3000/api/v10/gateway");
    assert_eq!(t.headers[1].name, "authorization");
    assert_eq!(t.headers[1].value, "Bot t");
}

#[test]
fn builder_keeps_a_given_ratelimiter() {
    let mut limiter = Ratelimiter::with_settings(2, false);
    let key = Route::Gateway.bucket_key();
    limiter.apply_update(key, 1, 0, 1000, 0);
    let mut http = HttpBuilder::without_token().ratelimiter(limiter).build();
    assert_eq!(http.ratelimiter.retry_cap(), 2);
    assert_eq!(http.ratelimiter.before_send(key, 5), Step::WaitBucket { until: 1000 });
    let http = HttpBuilder::without_token()
        .ratelimiter(Ratelimiter::with_settings(2, false))
        .ratelimiter_disabled(true)
        .build();
    assert!(http.ratelimiter.is_disabled());
}

#[test]
fn application_id_is_needed_for_application_routes() {
    let mut http = Http::without_token();
    assert!(matches!(http.try_application_id(), Err(DispatchError::PreconditionMissing)));
    assert!(matches!(http.get_global_commands(), Err(DispatchError::PreconditionMissing)));
    assert!(matches!(
        http.create_followup_message("tok", "{}".to_string(), Vec::new()),
        Err(DispatchError::PreconditionMissing)
    ));
    assert!(matches!(
        http.get_entitlements(None, None, None, None, None, None, None),
        Err(DispatchError::PreconditionMissing)
    ));
    http.set_application_id(ApplicationId::new(5));
    assert_eq!(http.application_id(), Some(ApplicationId::new(5)));
    let req = http.get_global_commands().unwrap();
    assert_eq!(req.route.path(), "https://discord.com/api/v10/applications/5/commands");
    http.set_application_id(ApplicationId::new(u64::MAX));
    assert_eq!(http.application_id(), None);
    assert!(matches!(http.get_skus(), Err(DispatchError::PreconditionMissing)));
    let http = HttpBuilder::without_token().application_id(ApplicationId::new(u64::MAX)).build();
    assert_eq!(http.application_id(), None);
}

#[test]
fn add_guild_member_request() {
    let req = client().add_guild_member(GuildId::new(1), UserId::new(2), b"{}".to_vec());
    assert_eq!(req.method, LightMethod::Put);
    assert_eq!(req.route.path(), "https://discord.com/api/v10/guilds/1/members/2");
    assert_eq!(req.body, Some(b"{}".to_vec()));
    assert!(req.multipart.is_none());
    assert!(req.headers.is_none());
    assert!(req.params.is_none());
}

#[test]
fn add_member_role_request_carries_the_reason() {
    let req = client().add_member_role(GuildId::new(1), UserId::new(2), RoleId::new(3), Some("well earned"));
    assert_eq!(req.method, LightMethod::Put);
    assert_eq!(req.route.path(), "https://discord.com/api/v10/guilds/1/members/2/roles/3");
    assert_eq!(headers(&req), pairs(&[("X-Audit-Log-Reason", "well%20earned")]));
    assert!(req.body.is_none());
    let req = client().add_member_role(GuildId::new(1), UserId::new(2), RoleId::new(3), None);
    assert!(req.headers.is_none());
}

#[test]
fn ban_user_request_counts_in_seconds() {
    let req = client().ban_user(GuildId::new(1), UserId::new(2), 7, None);
    assert_eq!(req.method, LightMethod::Put);
    assert_eq!(req.route.path(), "https://discord.com/api/v10/guilds/1/bans/2");
    assert_eq!(query(&req), pairs(&[("delete_message_seconds", "604800")]));
    let req = client().ban_user(GuildId::new(1), UserId::new(2), 0, None);
    assert_eq!(query(&req), pairs(&[("delete_message_seconds", "0")]));
    let req = client().ban_user(GuildId::new(1), UserId::new(2), 255, Some("spam"));
    assert_eq!(query(&req), pairs(&[("delete_message_seconds", "22032000")]));
    assert_eq!(headers(&req), pairs(&[("X-Audit-Log-Reason", "spam")]));
}

#[test]
fn send_message_without_files_is_json() {
    let req = client().send_message(ChannelId::new(1), Vec::new(), "{\"content\":\"héllo\"}".to_string());
    assert_eq!(req.method, LightMethod::Post);
    assert_eq!(req.route.path(), "https://discord.com/api/v10/channels/1/messages");
    assert_eq!(req.body, Some("{\"content\":\"héllo\"}".as_bytes().to_vec()));
    assert!(req.multipart.is_none());
    let t = client().request(req);
    assert!(matches!(t.body, TransportBody::Json(_)));
    assert_eq!(t.headers.last().unwrap().value, "application/json");
}

#[test]
fn send_message_with_files_is_multipart() {
    let file = CreateAttachment::bytes(b"data".to_vec(), "a.txt".to_string());
    let req = client().send_message(ChannelId::new(1), vec![file], "{}".to_string());
    assert!(req.body.is_none());
    let m = req.multipart.as_ref().unwrap();
    assert_eq!(m.payload_json.as_deref(), Some("{}"));
    assert!(m.fields.is_empty());
    match &m.upload {
        MultipartUpload::Attachments(files) => {
            assert_eq!(files.len(), 1);
            assert_eq!(files[0].filename, "a.txt");
        },
        other => panic!("unexpected upload {:?}", other),
    }
    let t = client().request(req);
    match t.body {
        TransportBody::Form(parts) => {
            assert_eq!(parts[0].name, "files[0]");
            assert_eq!(parts[1].name, "payload_json");
        },
        other => panic!("unexpected body {:?}", other),
    }
}

#[test]
fn create_forum_post_is_always_multipart() {
    let req = client().create_forum_post(ChannelId::new(3), "{}".to_string(), Vec::new(), Some("r"));
    assert_eq!(req.method, LightMethod::Post);
    assert_eq!(req.route.path(), "https://discord.com/api/v10/channels/3/threads");
    assert!(req.body.is_none());
    let m = req.multipart.as_ref().unwrap();
    assert!(matches!(&m.upload, MultipartUpload::Attachments(f) if f.is_empty()));
    assert_eq!(m.payload_json.as_deref(), Some("{}"));
}

#[test]
fn create_sticker_sends_file_and_fields() {
    let file = CreateAttachment::bytes(b"png".to_vec(), "s.png".to_string());
    let fields = vec![("name".to_string(), "wave".to_string())];
    let req = client().create_sticker(GuildId::new(9), fields, file, None);
    assert_eq!(req.route.path(), "https://discord.com/api/v10/guilds/9/stickers");
    let m = req.multipart.as_ref().unwrap();
    assert!(matches!(&m.upload, MultipartUpload::File(f) if f.filename == "s.png"));
    assert!(m.payload_json.is_none());
    assert_eq!(m.fields, vec![("name".to_string(), "wave".to_string())]);
}

#[test]
fn execute_webhook_request() {
    let req = client().execute_webhook(WebhookId::new(5), None, "tok", true, Vec::new(), "{}".to_string());
    assert_eq!(req.method, LightMethod::Post);
    assert_eq!(req.route.path(), "https://discord.com/api/v10/webhooks/5/tok");
    assert_eq!(query(&req), pairs(&[("wait", "true")]));
    assert_eq!(req.body, Some(b"{}".to_vec()));
    let req =
        client().execute_webhook(WebhookId::new(5), Some(ChannelId::new(8)), "tok", false, Vec::new(), "{}".to_string());
    assert_eq!(query(&req), pairs(&[("wait", "false"), ("thread_id", "8")]));
    let t = client().request(req);
    assert_eq!(t.url, "https://discord.com/api/v10/webhooks/5/tok?&wait=false&thread_id=8");
}

#[test]
fn webhook_message_requests_have_a_query_only_in_a_thread() {
    let http = client();
    let req = http.get_webhook_message(WebhookId::new(5), None, "tok", MessageId::new(6));
    assert_eq!(req.method, LightMethod::Get);
    assert!(req.params.is_none());
    let req = http.delete_webhook_message(WebhookId::new(5), Some(ChannelId::new(7)), "tok", MessageId::new(6));
    assert_eq!(req.method, LightMethod::Delete);
    assert_eq!(req.route.path(), "https://discord.com/api/v10/webhooks/5/tok/messages/6");
    assert_eq!(query(&req), pairs(&[("thread_id", "7")]));
    let req = http.edit_webhook_message(
        WebhookId::new(5),
        Some(ChannelId::new(7)),
        "tok",
        MessageId::new(6),
        "{}".to_string(),
        Vec::new(),
    );
    assert_eq!(req.method, LightMethod::Patch);
    assert_eq!(query(&req), pairs(&[("thread_id", "7")]));
    assert_eq!(req.body, Some(b"{}".to_vec()));
}

#[test]
fn get_bans_request() {
    let http = client();
    let req = http.get_bans(GuildId::new(1), None, None);
    assert_eq!(req.method, LightMethod::Get);
    assert_eq!(query(&req), pairs(&[]));
    let req = http.get_bans(
        GuildId::new(1),
        Some(UserPagination::After(UserId::new(77))),
        Some(NonMaxU16::new(1000).unwrap()),
    );
    assert_eq!(query(&req), pairs(&[("limit", "1000"), ("after", "77")]));
    let req = http.get_bans(GuildId::new(1), Some(UserPagination::Before(UserId::new(3))), None);
    assert_eq!(query(&req), pairs(&[("before", "3")]));
    assert_eq!(http.request(req).url, "https://discord.com/api/v10/guilds/1/bans?&before=3");
}

#[test]
fn get_audit_logs_request() {
    let req = client().get_audit_logs(
        GuildId::new(1),
        Some(Action(22)),
        Some(UserId::new(4)),
        Some(AuditLogEntryId::new(9)),
        Some(NonMaxU8::new(50).unwrap()),
    );
    assert_eq!(req.route.path(), "https://discord.com/api/v10/guilds/1/audit-logs");
    assert_eq!(
        query(&req),
        pairs(&[("action_type", "22"), ("before", "9"), ("limit", "50"), ("user_id", "4")])
    );
    let req = client().get_audit_logs(GuildId::new(1), None, None, None, Some(NonMaxU8::new(254).unwrap()));
    assert_eq!(query(&req), pairs(&[("limit", "254")]));
}

#[test]
fn get_entitlements_request() {
    let skus = [SkuId::new(10), SkuId::new(20), SkuId::new(30)];
    let req = client()
        .get_entitlements(
            Some(UserId::new(1)),
            Some(&skus),
            Some(EntitlementId::new(2)),
            Some(EntitlementId::new(3)),
            Some(NonMaxU8::new(100).unwrap()),
            Some(GuildId::new(4)),
            Some(true),
        )
        .unwrap();
    assert_eq!(req.method, LightMethod::Get);
    assert_eq!(req.route.path(), "https://discord.com/api/v10/applications/42/entitlements");
    assert_eq!(
        query(&req),
        pairs(&[
            ("user_id", "1"),
            ("sku_ids", "10,20,30"),
            ("before", "2"),
            ("after", "3"),
            ("limit", "100"),
            ("guild_id", "4"),
            ("exclude_ended", "true"),
        ])
    );
    let req = client().get_entitlements(None, Some(&[]), None, None, None, None, Some(false)).unwrap();
    assert_eq!(query(&req), pairs(&[("sku_ids", ""), ("exclude_ended", "false")]));
}

#[test]
fn ids_are_joined_with_commas() {
    assert_eq!(join_ids(&[]), "");
    assert_eq!(join_ids(&[SkuId::new(5)]), "5");
    assert_eq!(join_ids(&[SkuId::new(5), SkuId::new(0), SkuId::new(u64::MAX)]), "5,0,18446744073709551615");
}

#[test]
fn get_guild_members_asks_for_a_thousand_by_default() {
    let req = client().get_guild_members(GuildId::new(1), None, None);
    assert_eq!(query(&req), pairs(&[("limit", "1000")]));
    let req =
        client().get_guild_members(GuildId::new(1), Some(NonMaxU16::new(5).unwrap()), Some(UserId::new(8)));
    assert_eq!(query(&req), pairs(&[("limit", "5"), ("after", "8")]));
    let req = client().search_guild_members(GuildId::new(1), "al", None);
    assert_eq!(req.route.path(), "https://discord.com/api/v10/guilds/1/members/search");
    assert_eq!(query(&req), pairs(&[("query", "al"), ("limit", "1000")]));
}

#[test]
fn get_messages_request() {
    let req = client().get_messages(
        ChannelId::new(1),
        Some(MessagePagination::Around(MessageId::new(5))),
        Some(NonMaxU8::new(10).unwrap()),
    );
    assert_eq!(query(&req), pairs(&[("limit", "10"), ("around", "5")]));
    let req = client().get_guilds(Some(GuildPagination::Before(GuildId::new(6))), None);
    assert_eq!(req.route.path(), "https://discord.com/api/v10/users/@me/guilds");
    assert_eq!(query(&req), pairs(&[("before", "6")]));
}

#[test]
fn get_invite_request() {
    let req = client().get_invite("abc", true, false, Some(ScheduledEventId::new(3)));
    assert_eq!(req.route.path(), "https://discord.com/api/v10/invites/abc");
    assert_eq!(
        query(&req),
        pairs(&[("member_counts", "true"), ("expiration", "false"), ("event_id", "3")])
    );
}

#[test]
fn fixed_and_truth_valued_parameters() {
    let req = client().get_guild_with_counts(GuildId::new(1));
    assert_eq!(query(&req), pairs(&[("with_counts", "true")]));
    let req = client().get_global_commands_with_localizations().unwrap();
    assert_eq!(query(&req), pairs(&[("with_localizations", "true")]));
    let req = client().get_thread_channel_member(ChannelId::new(1), UserId::new(2), false);
    assert_eq!(query(&req), pairs(&[("with_member", "false")]));
    let req = client().get_guild_prune_count(GuildId::new(1), 30);
    assert_eq!(query(&req), pairs(&[("days", "30")]));
    let req = client().start_guild_prune(GuildId::new(1), 7, Some("tidy"));
    assert_eq!(req.method, LightMethod::Post);
    assert_eq!(query(&req), pairs(&[("days", "7")]));
    let req = client().get_channel_archived_public_threads(ChannelId::new(1), Some("2024-01-01T00:00:00Z"), Some(3));
    assert_eq!(query(&req), pairs(&[("before", "2024-01-01T00:00:00Z"), ("limit", "3")]));
}

#[test]
fn reaction_requests_put_the_reaction_in_the_path() {
    let req = client().create_reaction(ChannelId::new(1), MessageId::new(2), "%F0%9F%91%8D");
    assert_eq!(req.method, LightMethod::Put);
    assert_eq!(
        req.route.path(),
        "https://discord.com/api/v10/channels/1/messages/2/reactions/%F0%9F%91%8D/@me"
    );
    let req = client().delete_reaction(ChannelId::new(1), MessageId::new(2), UserId::new(3), "x:9");
    assert_eq!(req.method, LightMethod::Delete);
    assert_eq!(req.route.path(), "https://discord.com/api/v10/channels/1/messages/2/reactions/x:9/3");
    let req = client().get_reaction_users(ChannelId::new(1), MessageId::new(2), "x:9", 25, Some(UserId::new(4)));
    assert_eq!(query(&req), pairs(&[("limit", "25"), ("after", "4")]));
}

#[test]
fn plain_requests_of_each_method() {
    let http = client();
    let req = http.get_channel(ChannelId::new(1));
    assert_eq!((req.method, req.route.path()), (LightMethod::Get, "https://discord.com/api/v10/channels/1".to_string()));
    let req = http.delete_guild(GuildId::new(2));
    assert_eq!((req.method, req.route.path()), (LightMethod::Delete, "https://discord.com/api/v10/guilds/2".to_string()));
    let req = http.edit_profile(b"{}".to_vec());
    assert_eq!((req.method, req.route.path()), (LightMethod::Patch, "https://discord.com/api/v10/users/@me".to_string()));
    let req = http.broadcast_typing(ChannelId::new(3));
    assert_eq!((req.method, req.route.path()), (LightMethod::Post, "https://discord.com/api/v10/channels/3/typing".to_string()));
    let req = http.pin_message(ChannelId::new(3), MessageId::new(4), None);
    assert_eq!((req.method, req.route.path()), (LightMethod::Put, "https://discord.com/api/v10/channels/3/pins/4".to_string()));
    let req = http.get_unresolved_incidents();
    assert_eq!(req.route.path(), "https://status.discord.com/api/v2/incidents/unresolved.json");
    let req = http.delete_application_emoji(EmojiId::new(5)).unwrap();
    assert_eq!((req.method, req.route.path()), (LightMethod::Delete, "https://discord.com/api/v10/applications/42/emojis/5".to_string()));
    let req = http.follow_news_channel(ChannelId::new(6), b"{}".to_vec());
    assert_eq!(req.route.path(), "https://discord.com/api/v10/channels/6/followers");
}

#[test]
fn test_entitlement_payload() {
    let t = TestEntitlement::new(SkuId::new(1), EntitlementOwner::Guild(GuildId::new(9)));
    assert_eq!(t, TestEntitlement { sku_id: SkuId::new(1), owner_id: 9, owner_type: 1 });
    let t = TestEntitlement::new(SkuId::new(1), EntitlementOwner::User(UserId::new(8)));
    assert_eq!(t, TestEntitlement { sku_id: SkuId::new(1), owner_id: 8, owner_type: 2 });
    let req = client().create_test_entitlement(b"{}".to_vec()).unwrap();
    assert_eq!(req.method, LightMethod::Post);
    assert_eq!(req.route.path(), "https://discord.com/api/v10/applications/42/entitlements");
}

#[test]
fn wind_on_no_content_is_silent() {
    let route = Route::ChannelTyping { channel_id: ChannelId::new(1) };
    assert!(matches!(Http::wind(route, Ok(raw(204))), Ok(None)));
}

#[test]
fn wind_on_another_success_succeeds_with_a_diagnostic() {
    let route = Route::ChannelTyping { channel_id: ChannelId::new(1) };
    match Http::wind(route, Ok(raw(200))) {
        Ok(Some(line)) => assert_eq!(
            line,
            "Mismatched successful response status from https://discord.com/api/v10/channels/1/typing! \
             Expected 'No Content' but got 200"
        ),
        other => panic!("unexpected result {:?}", other),
    }
}

#[test]
fn wind_on_a_client_error_carries_the_decoded_body() {
    let mut limiter = Ratelimiter::new();
    let route = Route::ChannelTyping { channel_id: ChannelId::new(1) };
    let body = ErrorBody { code: 50035, message: "Invalid Form Body".to_string(), errors: Vec::new() };
    let outcome = match limiter.after_response(route.bucket_key(), 0, Ok(raw(400)), Some(body), 0) {
        Verdict::Done(outcome) => outcome,
        other => panic!("unexpected verdict {:?}", other),
    };
    match Http::wind(route, outcome) {
        Err(DispatchError::ClientError { status, body: Some(body) }) => {
            assert_eq!(status, 400);
            assert_eq!(body.code, 50035);
            assert_eq!(body.message, "Invalid Form Body");
        },
        other => panic!("unexpected result {:?}", other),
    }
}

#[test]
fn fire_gives_the_decoded_value_or_fails() {
    assert!(matches!(Http::fire(Ok(raw(200)), Some(5u32)), Ok(5)));
    assert!(matches!(Http::fire::<u32>(Ok(raw(200)), None), Err(DispatchError::Decode)));
    assert!(matches!(
        Http::fire(Err(DispatchError::ServerError { status: 500, body: None }), Some(5u32)),
        Err(DispatchError::ServerError { status: 500, body: None })
    ));
    assert!(matches!(
        Http::fire::<u32>(Err(DispatchError::PreconditionMissing), None),
        Err(DispatchError::PreconditionMissing)
    ));
}

#[test]
fn serialize_iter_is_taken_once() {
    let mut s = SerializeIter::new(vec![1, 2, 3].into_iter());
    let first: Option<Vec<i32>> = s.take().map(|it| it.collect());
    assert_eq!(first, Some(vec![1, 2, 3]));
    assert!(s.take().is_none());
}
