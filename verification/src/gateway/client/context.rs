//! The context of an event dispatch: the shard that received the event, the
//! client and the cache, and shortcuts that need all three.

use crate::cache::Cache;
use crate::gateway::{ActivityData, OnlineStatus, ShardRunnerMessage};
use crate::http::client::Http;
use crate::http::error::DispatchError;
use crate::http::request::{LightMethod, Request};
use crate::http::routing::Route;
use crate::model::id::{EmojiId, ShardId};
use vstd::prelude::*;

verus! {

/// The payload that creates an emoji of the application.
#[derive(Clone, Copy, Debug)]
pub struct CreateEmoji<'a> {
    pub name: &'a str,
    /// The image, base64-encoded.
    pub image: &'a str,
}

/// The payload that renames an emoji of the application.
#[derive(Clone, Copy, Debug)]
pub struct EditEmoji<'a> {
    pub name: &'a str,
}

/// What an event handler is given for the event that it handles. A context
/// lives as long as the dispatch of its event.
///
/// The methods that change the presence give the message for the runner of
/// the shard; the caller sends it.
pub struct Context<'a> {
    /// The id of the shard that received the event.
    pub shard_id: ShardId,
    pub http: &'a Http,
    pub cache: &'a Cache,
}

impl<'a> Context<'a> {
    /// A context for an event that the shard `shard_id` received.
    pub fn new(shard_id: ShardId, http: &'a Http, cache: &'a Cache) -> (ctx: Self)
        ensures
            ctx.shard_id == shard_id,
            ctx.http == http,
            ctx.cache == cache,
    {
        Context { shard_id, http, cache }
    }

    /// Shows the current user as online. The activity stays.
    pub fn online(&self) -> (m: ShardRunnerMessage)
        ensures
            m == ShardRunnerMessage::SetStatus(OnlineStatus::Online),
    {
        ShardRunnerMessage::SetStatus(OnlineStatus::Online)
    }

    /// Shows the current user as idle. The activity stays.
    pub fn idle(&self) -> (m: ShardRunnerMessage)
        ensures
            m == ShardRunnerMessage::SetStatus(OnlineStatus::Idle),
    {
        ShardRunnerMessage::SetStatus(OnlineStatus::Idle)
    }

    /// Shows the current user as not to be disturbed. The activity stays.
    pub fn dnd(&self) -> (m: ShardRunnerMessage)
        ensures
            m == ShardRunnerMessage::SetStatus(OnlineStatus::DoNotDisturb),
    {
        ShardRunnerMessage::SetStatus(OnlineStatus::DoNotDisturb)
    }

    /// Shows the current user as offline while they are not. The activity
    /// stays.
    pub fn invisible(&self) -> (m: ShardRunnerMessage)
        ensures
            m == ShardRunnerMessage::SetStatus(OnlineStatus::Invisible),
    {
        ShardRunnerMessage::SetStatus(OnlineStatus::Invisible)
    }

    /// Shows the current user as online and doing nothing.
    pub fn reset_presence(&self) -> (m: ShardRunnerMessage)
        ensures
            m == (ShardRunnerMessage::SetPresence { activity: None, status: OnlineStatus::Online }),
    {
        ShardRunnerMessage::SetPresence { activity: None, status: OnlineStatus::Online }
    }

    /// Sets what the current user is shown to be doing. The status stays.
    pub fn set_activity(&self, activity: Option<ActivityData>) -> (m: ShardRunnerMessage)
        ensures
            m == ShardRunnerMessage::SetActivity(activity),
    {
        ShardRunnerMessage::SetActivity(activity)
    }

    /// Sets both what the current user is shown to be doing and how they
    /// appear.
    pub fn set_presence(
        &self,
        activity: Option<ActivityData>,
        status: OnlineStatus,
    ) -> (m: ShardRunnerMessage)
        ensures
            m == (ShardRunnerMessage::SetPresence { activity, status }),
    {
        ShardRunnerMessage::SetPresence { activity, status }
    }

    /// The request that gets all emojis of the application. Fails if the
    /// application id is not known.
    pub fn get_application_emojis(&self) -> (r: Result<Request<'static>, DispatchError>)
        ensures
            match r {
                Ok(req) => {
                    &&& self.http.known_application() matches Some(app)
                    &&& req.method == LightMethod::Get
                    &&& req.route == (Route::Emojis { application_id: app })
                    &&& req.body is None
                    &&& req.multipart is None
                    &&& req.headers is None
                    &&& req.params is None
                },
                Err(e) => self.http.known_application() is None && e is PreconditionMissing,
            },
    {
        self.http.get_application_emojis()
    }

    /// The request that gets one emoji of the application. Fails if the
    /// application id is not known.
    pub fn get_application_emoji(
        &self,
        emoji_id: EmojiId,
    ) -> (r: Result<Request<'static>, DispatchError>)
        ensures
            match r {
                Ok(req) => {
                    &&& self.http.known_application() matches Some(app)
                    &&& req.method == LightMethod::Get
                    &&& req.route == (Route::Emoji { application_id: app, emoji_id })
                    &&& req.body is None
                    &&& req.multipart is None
                    &&& req.headers is None
                    &&& req.params is None
                },
                Err(e) => self.http.known_application() is None && e is PreconditionMissing,
            },
    {
        self.http.get_application_emoji(emoji_id)
    }

    /// The payload that creates an emoji of the application from a name and
    /// a base64-encoded image. Serialised, it is the body of
    /// [`Http::create_application_emoji`].
    pub fn create_application_emoji<'b>(
        &self,
        name: &'b str,
        image: &'b str,
    ) -> (body: CreateEmoji<'b>)
        ensures
            body.name == name,
            body.image == image,
    {
        CreateEmoji { name, image }
    }

    /// The payload that renames an emoji of the application. Serialised, it
    /// is the body of [`Http::edit_application_emoji`].
    pub fn edit_application_emoji<'b>(&self, name: &'b str) -> (body: EditEmoji<'b>)
        ensures
            body.name == name,
    {
        EditEmoji { name }
    }

    /// The request that deletes an emoji of the application. Fails if the
    /// application id is not known.
    pub fn delete_application_emoji(
        &self,
        emoji_id: EmojiId,
    ) -> (r: Result<Request<'static>, DispatchError>)
        ensures
            match r {
                Ok(req) => {
                    &&& self.http.known_application() matches Some(app)
                    &&& req.method == LightMethod::Delete
                    &&& req.route == (Route::Emoji { application_id: app, emoji_id })
                    &&& req.body is None
                    &&& req.multipart is None
                    &&& req.headers is None
                    &&& req.params is None
                },
                Err(e) => self.http.known_application() is None && e is PreconditionMissing,
            },
    {
        self.http.delete_application_emoji(emoji_id)
    }
}

} // verus!
