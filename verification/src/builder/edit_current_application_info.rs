//! The builder for editing the current application's information.

use crate::http::client::Http;
use crate::http::request::{LightMethod, Request};
use crate::http::routing::Route;
use crate::model::application::{
    ApplicationFlags, EventWebhookStatus, EventWebhookType, InstallationContext,
    InstallationContextConfig, Scope,
};
use crate::model::permissions::Permissions;
use std::borrow::Cow;
use std::collections::HashMap;
use vstd::prelude::*;

verus! {

/// A builder for editing the current application's information.
///
/// Every field is optional, and only those that were set are sent.
#[derive(Clone, Debug)]
#[must_use]
pub struct EditCurrentApplicationInfo<'a> {
    pub custom_install_url: Option<Cow<'a, str>>,
    pub description: Option<Cow<'a, str>>,
    pub role_connections_verification_url: Option<Cow<'a, str>>,
    pub install_params: Option<CreateInstallParams>,
    pub integration_types_config: Option<HashMap<InstallationContext, InstallationContextConfig>>,
    pub flags: Option<ApplicationFlags>,
    pub icon: Option<String>,
    pub cover_image: Option<String>,
    pub interactions_endpoint_url: Option<Cow<'a, str>>,
    pub tags: Option<Vec<String>>,
    pub event_webhooks_url: Option<Cow<'a, str>>,
    pub event_webhook_status: Option<EventWebhookStatus>,
    pub event_webhook_types: Option<Vec<EventWebhookType>>,
}

impl<'a> EditCurrentApplicationInfo<'a> {
    /// Whether no field is set.
    pub open spec fn is_blank(self) -> bool {
        &&& self.custom_install_url is None
        &&& self.description is None
        &&& self.role_connections_verification_url is None
        &&& self.install_params is None
        &&& self.integration_types_config is None
        &&& self.flags is None
        &&& self.icon is None
        &&& self.cover_image is None
        &&& self.interactions_endpoint_url is None
        &&& self.tags is None
        &&& self.event_webhooks_url is None
        &&& self.event_webhook_status is None
        &&& self.event_webhook_types is None
    }

    /// Creates a builder with no field set.
    pub fn new() -> (b: Self)
        ensures
            b.is_blank(),
    {
        EditCurrentApplicationInfo {
            custom_install_url: None,
            description: None,
            role_connections_verification_url: None,
            install_params: None,
            integration_types_config: None,
            flags: None,
            icon: None,
            cover_image: None,
            interactions_endpoint_url: None,
            tags: None,
            event_webhooks_url: None,
            event_webhook_status: None,
            event_webhook_types: None,
        }
    }

    /// Sets the default custom authorization URL of the app.
    pub fn install_url(self, url: Cow<'a, str>) -> (b: Self)
        ensures
            b == (EditCurrentApplicationInfo { custom_install_url: Some(url), ..self }),
    {
        let mut b = self;
        b.custom_install_url = Some(url);
        b
    }

    /// Sets the description of the app.
    pub fn description(self, description: Cow<'a, str>) -> (b: Self)
        ensures
            b == (EditCurrentApplicationInfo { description: Some(description), ..self }),
    {
        let mut b = self;
        b.description = Some(description);
        b
    }

    /// Sets the role connection verification URL of the app.
    pub fn verification_url(self, url: Cow<'a, str>) -> (b: Self)
        ensures
            b == (EditCurrentApplicationInfo { role_connections_verification_url: Some(url), ..self }),
    {
        let mut b = self;
        b.role_connections_verification_url = Some(url);
        b
    }

    /// Sets the settings of the app's default in-app authorization link.
    pub fn install_params(self, params: CreateInstallParams) -> (b: Self)
        ensures
            b == (EditCurrentApplicationInfo { install_params: Some(params), ..self }),
    {
        let mut b = self;
        b.install_params = Some(params);
        b
    }

    /// Sets the default scopes and permissions for each installation context
    /// that the app supports.
    pub fn integration_types_config(
        self,
        config: HashMap<InstallationContext, InstallationContextConfig>,
    ) -> (b: Self)
        ensures
            b == (EditCurrentApplicationInfo { integration_types_config: Some(config), ..self }),
    {
        let mut b = self;
        b.integration_types_config = Some(config);
        b
    }

    /// Sets the app's public flags.
    ///
    /// Only the limited intent flags can be changed through the API.
    pub fn flags(self, flags: ApplicationFlags) -> (b: Self)
        ensures
            b == (EditCurrentApplicationInfo { flags: Some(flags), ..self }),
    {
        let mut b = self;
        b.flags = Some(flags);
        b
    }

    /// Sets the icon of the app, as base64 image data.
    pub fn icon(self, base64_image_data: String) -> (b: Self)
        ensures
            b == (EditCurrentApplicationInfo { icon: Some(base64_image_data), ..self }),
    {
        let mut b = self;
        b.icon = Some(base64_image_data);
        b
    }

    /// Sets the default rich presence invite cover image, as base64 image
    /// data.
    pub fn cover_image(self, base64_image_data: String) -> (b: Self)
        ensures
            b == (EditCurrentApplicationInfo { cover_image: Some(base64_image_data), ..self }),
    {
        let mut b = self;
        b.cover_image = Some(base64_image_data);
        b
    }

    /// Sets the interactions endpoint URL of the app.
    pub fn endpoint_url(self, url: Cow<'a, str>) -> (b: Self)
        ensures
            b == (EditCurrentApplicationInfo { interactions_endpoint_url: Some(url), ..self }),
    {
        let mut b = self;
        b.interactions_endpoint_url = Some(url);
        b
    }

    /// Sets the tags that describe the content and functionality of the app:
    /// at most 5, of at most 20 characters each.
    pub fn tags(self, tags: Vec<String>) -> (b: Self)
        ensures
            b == (EditCurrentApplicationInfo { tags: Some(tags), ..self }),
    {
        let mut b = self;
        b.tags = Some(tags);
        b
    }

    /// Sets the URL at which the app receives webhook events.
    pub fn webhooks_url(self, url: Cow<'a, str>) -> (b: Self)
        ensures
            b == (EditCurrentApplicationInfo { event_webhooks_url: Some(url), ..self }),
    {
        let mut b = self;
        b.event_webhooks_url = Some(url);
        b
    }

    /// Sets whether webhook events are enabled for the app.
    pub fn webhook_status(self, status: EventWebhookStatus) -> (b: Self)
        ensures
            b == (EditCurrentApplicationInfo { event_webhook_status: Some(status), ..self }),
    {
        let mut b = self;
        b.event_webhook_status = Some(status);
        b
    }

    /// The request that sends the builder's fields to the API. `map` is the
    /// builder, serialised.
    pub fn execute(self, http: &Http, map: Vec<u8>) -> (req: Request<'static>)
        ensures
            req.method == LightMethod::Patch,
            req.route == Route::OAuth2ApplicationCurrent,
            req.body == Some(map),
            req.multipart is None,
            req.headers is None,
            req.params is None,
            req.wf(),
    {
        http.edit_current_application_info(map)
    }

    /// Sets the kinds of webhook event that the app subscribes to.
    pub fn webhook_types(self, types: Vec<EventWebhookType>) -> (b: Self)
        ensures
            b == (EditCurrentApplicationInfo { event_webhook_types: Some(types), ..self }),
    {
        let mut b = self;
        b.event_webhook_types = Some(types);
        b
    }
}

impl<'a> Default for EditCurrentApplicationInfo<'a> {
    /// A builder with no field set.
    fn default() -> (b: Self)
        ensures
            b.is_blank(),
    {
        EditCurrentApplicationInfo::new()
    }
}

/// The scopes and permissions of the app's default in-app authorization
/// link.
#[derive(Clone, Debug)]
pub struct CreateInstallParams {
    pub scopes: Vec<Scope>,
    pub permissions: Permissions,
}

impl CreateInstallParams {
    /// Creates the parameters from their two parts.
    #[must_use]
    pub fn new(scopes: Vec<Scope>, permissions: Permissions) -> (p: Self)
        ensures
            p == (CreateInstallParams { scopes, permissions }),
    {
        CreateInstallParams { scopes, permissions }
    }

    /// Replaces the scopes.
    #[must_use]
    pub fn scopes(self, scopes: Vec<Scope>) -> (p: Self)
        ensures
            p == (CreateInstallParams { scopes, permissions: self.permissions }),
    {
        let mut p = self;
        p.scopes = scopes;
        p
    }

    /// Replaces the permissions.
    #[must_use]
    pub fn permissions(self, permissions: Permissions) -> (p: Self)
        ensures
            p == (CreateInstallParams { scopes: self.scopes, permissions }),
    {
        let mut p = self;
        p.permissions = permissions;
        p
    }
}

impl Default for CreateInstallParams {
    /// No scopes and no permissions.
    fn default() -> (p: Self)
        ensures
            p.scopes@.len() == 0,
            p.permissions.0 == 0,
    {
        CreateInstallParams { scopes: Vec::new(), permissions: Permissions(0) }
    }
}

} // verus!
