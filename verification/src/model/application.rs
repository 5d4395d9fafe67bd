//! What describes an application: where it can be installed, with which
//! scopes, and which events it is told of.

use crate::model::permissions::Permissions;
use vstd::prelude::*;

verus! {

/// An OAuth2 scope.
#[derive(Clone, Debug, PartialEq, Eq, Hash)]
pub enum Scope {
    /// For bots: puts the bot into the guild that the user selects.
    Bot,
    /// Allows the application's commands to be used in a guild.
    ApplicationsCommands,
    /// Allows the application to update its commands with a bearer token.
    ApplicationsCommandsUpdate,
    /// Allows the application to update the permissions of its commands.
    ApplicationsCommandsPermissionsUpdate,
    /// Gives the user without the email.
    Identify,
    /// Gives the user with the email.
    Email,
    /// Gives the user's connections.
    Connections,
    /// Gives the guilds that the user is in.
    Guilds,
    /// Allows to join the user to a guild.
    GuildsJoin,
    /// Gives the user's member object in a guild.
    GuildsMembersRead,
    /// A scope that this library has no name for.
    Unknown(String),
}

/// Where an application can be installed.
#[derive(Clone, Copy, Debug, PartialEq, Eq, Hash)]
pub enum InstallationContext {
    /// In a guild.
    Guild,
    /// For a user.
    User,
    /// A context that this library has no name for.
    Unknown(u8),
}

/// The scopes and permissions that an installation asks for.
#[derive(Clone, Debug)]
pub struct InstallParams {
    pub scopes: Vec<Scope>,
    pub permissions: Permissions,
}

/// How an application is installed in one context.
#[derive(Clone, Debug)]
pub struct InstallationContextConfig {
    pub oauth2_install_params: Option<InstallParams>,
}

/// The public flags of an application, one bit each.
#[derive(Clone, Copy, Debug, PartialEq, Eq, Structural, Hash)]
pub struct ApplicationFlags(pub u32);

impl ApplicationFlags {
    /// The bits of the flags.
    pub fn bits(self) -> (b: u32)
        ensures
            b == self.0,
    {
        self.0
    }
}

/// Whether an application is sent events over its webhook.
#[derive(Clone, Copy, Debug, PartialEq, Eq, Structural, Hash)]
pub enum EventWebhookStatus {
    /// Switched off by the developer.
    Disabled,
    /// Switched on.
    Enabled,
    /// Switched off by the platform.
    DisabledByDiscord,
    /// A status that this library has no name for.
    Unknown(u8),
}

/// A kind of event that an application can be sent over its webhook.
#[derive(Clone, Debug, PartialEq, Eq, Hash)]
pub enum EventWebhookType {
    /// A user has authorised the application.
    ApplicationAuthorized,
    /// An entitlement was created.
    EntitlementCreate,
    /// A user was added to a quest.
    QuestUserEnrollment,
    /// A kind that this library has no name for.
    Unknown(String),
}

} // verus!
