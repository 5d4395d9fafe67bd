use serenity::builder::edit_current_application_info::{
    CreateInstallParams, EditCurrentApplicationInfo,
};
use serenity::http::client::Http;
use serenity::http::request::LightMethod;
use serenity::model::application::{
    ApplicationFlags, EventWebhookStatus, EventWebhookType, InstallationContext,
    InstallationContextConfig, Scope,
};
use serenity::model::permissions::Permissions;

#[test]
fn new_builder_sets_nothing() {
    let b = EditCurrentApplicationInfo::new();
    assert!(b.description.is_none());
    assert!(b.custom_install_url.is_none());
    assert!(b.tags.is_none());
}

#[test]
fn description_is_stored() {
    let b = EditCurrentApplicationInfo::new().description("a bot".into());
    assert_eq!(b.description.as_deref(), Some("a bot"));
    assert!(b.icon.is_none());
}

#[test]
fn install_params_replace_parts() {
    let p = CreateInstallParams::new(vec![Scope::Bot], Permissions(8));
    let p = p.scopes(vec![Scope::Identify, Scope::Email]).permissions(Permissions(1024));
    assert_eq!(p.scopes, vec![Scope::Identify, Scope::Email]);
    assert_eq!(p.permissions, Permissions(1024));
}

#[test]
fn every_field_of_the_builder_can_be_set() {
    let mut config = std::collections::HashMap::new();
    config.insert(InstallationContext::Guild, InstallationContextConfig { oauth2_install_params: None });
    let b = EditCurrentApplicationInfo::new()
        .install_url("https://example.com/install".into())
        .verification_url("https://example.com/verify".into())
        .install_params(CreateInstallParams::new(vec![Scope::Bot], Permissions(8)))
        .integration_types_config(config)
        .flags(ApplicationFlags(1 << 13))
        .icon("aWNvbg==".to_string())
        .cover_image("Y292ZXI=".to_string())
        .endpoint_url("https://example.com/interactions".into())
        .tags(vec!["fun".to_string(), "games".to_string()])
        .webhooks_url("https://example.com/events".into())
        .webhook_status(EventWebhookStatus::Enabled)
        .webhook_types(vec![EventWebhookType::ApplicationAuthorized]);
    assert_eq!(b.custom_install_url.as_deref(), Some("https://example.com/install"));
    assert_eq!(b.role_connections_verification_url.as_deref(), Some("https://example.com/verify"));
    assert_eq!(b.install_params.as_ref().unwrap().scopes, vec![Scope::Bot]);
    assert_eq!(b.integration_types_config.as_ref().unwrap().len(), 1);
    assert_eq!(b.flags, Some(ApplicationFlags(1 << 13)));
    assert_eq!(b.icon.as_deref(), Some("aWNvbg=="));
    assert_eq!(b.cover_image.as_deref(), Some("Y292ZXI="));
    assert_eq!(b.interactions_endpoint_url.as_deref(), Some("https://example.com/interactions"));
    assert_eq!(b.tags, Some(vec!["fun".to_string(), "games".to_string()]));
    assert_eq!(b.event_webhooks_url.as_deref(), Some("https://example.com/events"));
    assert_eq!(b.event_webhook_status, Some(EventWebhookStatus::Enabled));
    assert_eq!(b.event_webhook_types, Some(vec![EventWebhookType::ApplicationAuthorized]));
    assert!(b.description.is_none());
}

#[test]
fn setting_a_field_twice_keeps_the_last() {
    let b = EditCurrentApplicationInfo::new().icon("a".to_string()).icon("b".to_string());
    assert_eq!(b.icon.as_deref(), Some("b"));
}

#[test]
fn defaults_set_nothing() {
    let b = EditCurrentApplicationInfo::default();
    assert!(b.icon.is_none() && b.flags.is_none() && b.install_params.is_none());
    let p = CreateInstallParams::default();
    assert!(p.scopes.is_empty());
    assert_eq!(p.permissions, Permissions(0));
}

#[test]
fn execute_gives_the_request_for_the_builder() {
    let http = Http::without_token();
    let req = EditCurrentApplicationInfo::new().icon("a".to_string()).execute(&http, b"{\"icon\":\"a\"}".to_vec());
    assert_eq!(req.method, LightMethod::Patch);
    assert_eq!(req.route.path(), "https://discord.com/api/v10/oauth2/applications/@me");
    assert_eq!(req.body, Some(b"{\"icon\":\"a\"}".to_vec()));
}
