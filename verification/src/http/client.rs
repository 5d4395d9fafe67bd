//! The client: its settings, the request of each endpoint, and what becomes
//! of a response.
//!
//! Nothing here touches the network. Each endpoint method builds the
//! [`Request`] of its call; [`Http::request`] turns a request into what the
//! transport sends; [`Http::fire`] and [`Http::wind`] say what a finished call
//! gives its caller.

use crate::builder::create_allowed_mentions::CreateAllowedMentions;
use crate::http::error::DispatchError;
use crate::http::multipart::{CreateAttachment, Multipart, MultipartUpload};
use crate::http::pagination::{GuildPagination, MessagePagination, UserPagination};
use crate::http::params::{optional_pair, params_new, params_push, query_pairs};
use crate::http::ratelimiting::{Limits, Ratelimiter};
use crate::http::request::{header_pairs, LightMethod, Request, RequestHeader, TransportRequest};
use crate::http::response::{RawResponse, NO_CONTENT};
use crate::http::routing::Route;
use crate::json::JsonValue;
use crate::model::guild::audit_log::Action;
use crate::model::id::{
    AnswerId, ApplicationId, AuditLogEntryId, ChannelId, CommandId, EmojiId, EntitlementId, GuildId,
    IntegrationId, InteractionId, MessageId, RoleId, RuleId, ScheduledEventId, SkuId, StickerId,
    StickerPackId, TargetId, UserId, WebhookId,
};
use crate::num::{u16_of, u8_of};
use crate::secrets::Token;
use crate::text::{
    decimal, decimal_u64, is_visible_ascii, lemma_percent_encoded_is_visible, percent_encode,
    percent_encoded, truth, truth_text,
};
use nonmax::{NonMaxU16, NonMaxU8};
use vstd::prelude::*;
use vstd::string::{StrSliceExecFns, StringExecFns, StringSliceAdditionalSpecFns};
use vstd::utf8::encode_utf8;

verus! {

/// Items that are serialised as a sequence, straight from the iterator that
/// gives them. The iterator can be taken once: a serialiser that comes a
/// second time finds nothing and writes an empty sequence.
pub struct SerializeIter<I> {
    iter: Option<I>,
}

impl<I> SerializeIter<I> {
    /// The iterator that is still to be taken, if it has not been.
    pub closed spec fn pending(self) -> Option<I> {
        self.iter
    }

    /// Wraps an iterator.
    pub fn new(iter: I) -> (s: Self)
        ensures
            s.pending() == Some(iter),
    {
        SerializeIter { iter: Some(iter) }
    }

    /// Takes the iterator out: the first time it is there, after that it is
    /// not.
    pub fn take(&mut self) -> (iter: Option<I>)
        ensures
            iter == old(self).pending(),
            final(self).pending() is None,
    {
        self.iter.take()
    }
}

/// How many members a listing of members asks for when the caller names no
/// limit.
pub const MEMBER_FETCH_LIMIT: u16 = 1000;

/// The application id that stands for none being known.
pub const NO_APPLICATION: u64 = u64::MAX;

/// The longest proxy address that a client takes, in bytes.
pub const MAX_PROXY_LEN: usize = 65535;

/// The headers that carry an audit log reason: one header, whose value is the
/// reason, percent-encoded.
pub open spec fn reason_header(reason: Option<&str>) -> Option<Seq<(Seq<char>, Seq<char>)>> {
    match reason {
        Some(r) => Some(seq![("X-Audit-Log-Reason"@, percent_encoded(r.spec_bytes()))]),
        None => None,
    }
}

/// Puts an audit log reason into a header. The reason is percent-encoded, so
/// the value is visible ASCII whatever the reason holds.
pub fn reason_into_header(reason: &str) -> (headers: Vec<RequestHeader>)
    ensures
        Some(header_pairs(headers@)) == reason_header(Some(reason)),
        headers@.len() == 1,
        headers@[0].name@ == "X-Audit-Log-Reason"@,
        headers@[0].value@ == percent_encoded(reason.spec_bytes()),
        forall|i: int| 0 <= i < headers@[0].value@.len()
            ==> is_visible_ascii(#[trigger] headers@[0].value@[i]),
{
    let value = percent_encode(reason);
    proof {
        lemma_percent_encoded_is_visible(reason.spec_bytes());
    }
    let mut headers: Vec<RequestHeader> = Vec::new();
    headers.push(RequestHeader { name: "X-Audit-Log-Reason", value });
    assert(header_pairs(headers@)
        =~= seq![("X-Audit-Log-Reason"@, percent_encoded(reason.spec_bytes()))]);
    headers
}

/// The headers for an audit log reason, if there is one.
fn reason_headers(reason: Option<&str>) -> (headers: Option<Vec<RequestHeader>>)
    ensures
        (match headers {
            Some(h) => Some(header_pairs(h@)),
            None => None,
        }) == reason_header(reason),
{
    match reason {
        Some(r) => Some(reason_into_header(r)),
        None => None,
    }
}

/// Ids in decimal, with a comma between each two.
pub open spec fn joined_ids(ids: Seq<SkuId>) -> Seq<char>
    decreases ids.len(),
{
    if ids.len() == 0 {
        Seq::empty()
    } else if ids.len() == 1 {
        decimal(ids[0].0 as nat)
    } else {
        joined_ids(ids.drop_last()) + ","@ + decimal(ids.last().0 as nat)
    }
}

/// Writes ids in decimal, with a comma between each two.
pub fn join_ids(ids: &[SkuId]) -> (s: String)
    ensures
        s@ == joined_ids(ids@),
{
    let mut s = String::new();
    let mut i: usize = 0;
    while i < ids.len()
        invariant
            0 <= i <= ids.len(),
            s@ == joined_ids(ids@.subrange(0, i as int)),
        decreases ids.len() - i,
    {
        proof {
            let next = ids@.subrange(0, i + 1);
            assert(next.drop_last() =~= ids@.subrange(0, i as int));
            assert(next.last() == ids@[i as int]);
            assert(next[0] == ids@[0]);
        }
        if i > 0 {
            s.append(",");
        }
        s.append(decimal_u64(ids[i].get()).as_str());
        proof {
            if i == 0 {
                assert(Seq::<char>::empty() + decimal(ids@[0].0 as nat)
                    =~= decimal(ids@[0].0 as nat));
            }
        }
        i += 1;
    }
    assert(ids@.subrange(0, i as int) =~= ids@);
    s
}

/// How a payload travels when files may go with it: alone as the JSON body
/// if there are no files, else beside the files in a multipart body.
pub open spec fn carries_payload(
    req: Request,
    files: Vec<CreateAttachment>,
    payload: String,
) -> bool {
    if files@.len() == 0 {
        &&& req.body matches Some(body)
        &&& body@ == encode_utf8(payload@)
        &&& req.multipart is None
    } else {
        &&& req.body is None
        &&& req.multipart matches Some(m)
        &&& m.upload == MultipartUpload::Attachments(files)
        &&& m.payload_json == Some(payload)
        &&& m.fields@.len() == 0
    }
}

impl<'a> Request<'a> {
    /// Some request without body, multipart body, headers or parameters.
    pub open spec fn blank() -> Request<'a> {
        Request {
            body: None,
            multipart: None,
            headers: None,
            method: LightMethod::Get,
            route: Route::Gateway,
            params: None,
        }
    }
}

/// Decides how a payload travels when files may go with it.
fn payload_with_files(
    files: Vec<CreateAttachment>,
    payload: String,
) -> (r: (Option<Vec<u8>>, Option<Multipart>))
    ensures
        carries_payload(
            (Request { body: r.0, multipart: r.1, ..Request::blank() }),
            files,
            payload,
        ),
{
    if files.len() == 0 {
        (Some(payload.as_str().as_bytes_vec()), None)
    } else {
        (
            None,
            Some(
                Multipart {
                    upload: MultipartUpload::Attachments(files),
                    payload_json: Some(payload),
                    fields: Vec::new(),
                },
            ),
        )
    }
}

/// The settings from which a client is built.
///
/// A client built without further settings throttles itself, talks to the
/// API's own host and knows no application id.
#[must_use]
pub struct HttpBuilder {
    ratelimiter: Option<Ratelimiter>,
    ratelimiter_disabled: bool,
    token: Option<Token>,
    proxy: Option<String>,
    application_id: Option<ApplicationId>,
    default_allowed_mentions: Option<CreateAllowedMentions>,
}

/// The proxy address as a text, if there is one.
pub open spec fn proxy_text(proxy: Option<String>) -> Option<Seq<char>> {
    match proxy {
        Some(p) => Some(p@),
        None => None,
    }
}

impl HttpBuilder {
    /// The state of the ratelimiter that was handed in, if one was.
    pub closed spec fn given_limits(self) -> Option<Limits> {
        match self.ratelimiter {
            Some(r) => Some(r@),
            None => None,
        }
    }

    /// Whether the client is to leave throttling to someone else.
    pub closed spec fn disabled(self) -> bool {
        self.ratelimiter_disabled
    }

    /// The token that the client is to send, as a text.
    pub closed spec fn token_text(self) -> Option<Seq<char>> {
        match self.token {
            Some(t) => Some(t.text()),
            None => None,
        }
    }

    /// The proxy that the client is to send API requests to.
    pub closed spec fn proxy_address(self) -> Option<Seq<char>> {
        proxy_text(self.proxy)
    }

    /// The application id that the client is to start with.
    pub closed spec fn application(self) -> Option<ApplicationId> {
        self.application_id
    }

    /// The allowed mentions that the client is to hold.
    pub closed spec fn mentions(self) -> Option<CreateAllowedMentions> {
        self.default_allowed_mentions
    }

    /// Whether only the token is set, if at all: the state of a builder that
    /// was just made.
    pub open spec fn is_initial(self) -> bool {
        &&& self.given_limits() is None
        &&& !self.disabled()
        &&& self.proxy_address() is None
        &&& self.application() is None
        &&& self.mentions() is None
    }

    /// Whether two builders differ at most in the settings whose flag is set:
    /// every other setting, and the token, is the same in both.
    pub open spec fn same_but(
        self,
        other: HttpBuilder,
        application: bool,
        ratelimiter: bool,
        disabled: bool,
        proxy: bool,
        mentions: bool,
    ) -> bool {
        &&& self.token_text() == other.token_text()
        &&& application || self.application() == other.application()
        &&& ratelimiter || self.given_limits() == other.given_limits()
        &&& disabled || self.disabled() == other.disabled()
        &&& proxy || self.proxy_address() == other.proxy_address()
        &&& mentions || self.mentions() == other.mentions()
    }

    /// Starts the settings of a client that authorises itself with `token`.
    pub fn new(token: Token) -> (b: Self)
        ensures
            b.is_initial(),
            b.token_text() == Some(token.text()),
    {
        HttpBuilder {
            ratelimiter: None,
            ratelimiter_disabled: false,
            token: Some(token),
            proxy: None,
            application_id: None,
            default_allowed_mentions: None,
        }
    }

    /// Starts the settings of a client without a token. Most of the API asks
    /// for one; webhook endpoints do not.
    pub fn without_token() -> (b: Self)
        ensures
            b.is_initial(),
            b.token_text() is None,
    {
        HttpBuilder {
            ratelimiter: None,
            ratelimiter_disabled: false,
            token: None,
            proxy: None,
            application_id: None,
            default_allowed_mentions: None,
        }
    }

    /// Sets the application id, which the routes of interactions need.
    pub fn application_id(self, application_id: ApplicationId) -> (b: Self)
        ensures
            b.application() == Some(application_id),
            b.same_but(self, true, false, false, false, false),
    {
        let mut b = self;
        b.application_id = Some(application_id);
        b
    }

    /// Sets the ratelimiter to use in place of a new one.
    pub fn ratelimiter(self, ratelimiter: Ratelimiter) -> (b: Self)
        ensures
            b.given_limits() == Some(ratelimiter@),
            b.same_but(self, false, true, false, false, false),
    {
        let mut b = self;
        b.ratelimiter = Some(ratelimiter);
        b
    }

    /// Sets whether the client leaves throttling to someone else, such as a
    /// proxy that throttles for several processes. Disabled, the client
    /// never waits and never retries.
    pub fn ratelimiter_disabled(self, ratelimiter_disabled: bool) -> (b: Self)
        ensures
            b.disabled() == ratelimiter_disabled,
            b.same_but(self, false, false, true, false, false),
    {
        let mut b = self;
        b.ratelimiter_disabled = ratelimiter_disabled;
        b
    }

    /// Sets the base that API requests are sent to in place of the API's own
    /// host, in the form of scheme and host, such as `http://127.0.0.1:3000`.
    /// The address must not be longer than 65535 bytes.
    pub fn proxy(self, proxy: String) -> (b: Self)
        requires
            encode_utf8(proxy@).len() <= MAX_PROXY_LEN,
        ensures
            b.proxy_address() == Some(proxy@),
            b.same_but(self, false, false, false, true, false),
    {
        let mut b = self;
        b.proxy = Some(proxy);
        b
    }

    /// Sets the allowed mentions that the client holds as the default for
    /// messages. The client only stores them.
    pub fn default_allowed_mentions(self, allowed_mentions: CreateAllowedMentions) -> (b: Self)
        ensures
            b.mentions() == Some(allowed_mentions),
            b.same_but(self, false, false, false, false, true),
    {
        let mut b = self;
        b.default_allowed_mentions = Some(allowed_mentions);
        b
    }

    /// Builds the client. Its ratelimiter is the one handed in, or a new one,
    /// put into the mode that was set; an application id of `u64::MAX` is
    /// taken as none.
    #[must_use]
    pub fn build(self) -> (http: Http)
        ensures
            http.known_application() == (match self.application() {
                Some(id) if id.0 != NO_APPLICATION => Some(id),
                _ => None,
            }),
            http.token_text() == self.token_text(),
            http.proxy_address() == self.proxy_address(),
            http.mentions() == self.mentions(),
            http.limits() == (match self.given_limits() {
                Some(limits) => Limits { disabled: self.disabled(), ..limits },
                None => Ratelimiter::initial(self.disabled()),
            }),
    {
        let HttpBuilder {
            ratelimiter,
            ratelimiter_disabled,
            token,
            proxy,
            application_id,
            default_allowed_mentions,
        } = self;
        let application_id = match application_id {
            Some(id) => id.get(),
            None => NO_APPLICATION,
        };
        let mut ratelimiter = match ratelimiter {
            Some(r) => r,
            None => Ratelimiter::new(),
        };
        ratelimiter.set_disabled(ratelimiter_disabled);
        Http { ratelimiter, proxy, token, application_id, default_allowed_mentions }
    }
}

/// What a finished `wind` call reports: nothing if the server answered
/// without content as expected, else a line for the log.
pub open spec fn wind_diagnostic(route: Route, status: u16) -> Seq<char> {
    "Mismatched successful response status from "@ + route.address()
        + "! Expected 'No Content' but got "@ + decimal(status as nat)
}

/// A client for the API: its settings and its rate-limit state.
pub struct Http {
    pub ratelimiter: Ratelimiter,
    pub proxy: Option<String>,
    token: Option<Token>,
    application_id: u64,
    pub default_allowed_mentions: Option<CreateAllowedMentions>,
}

impl Http {
    /// The application id that the client knows, if it knows one.
    pub closed spec fn known_application(&self) -> Option<ApplicationId> {
        if self.application_id == NO_APPLICATION {
            None
        } else {
            Some(ApplicationId(self.application_id))
        }
    }

    /// The token that the client sends, as a text.
    pub closed spec fn token_text(&self) -> Option<Seq<char>> {
        match self.token {
            Some(t) => Some(t.text()),
            None => None,
        }
    }

    /// The base that the client sends API requests to in place of the API's
    /// own host, if it has one.
    pub closed spec fn proxy_address(&self) -> Option<Seq<char>> {
        proxy_text(self.proxy)
    }

    /// The rate-limit state of the client.
    pub closed spec fn limits(&self) -> Limits {
        self.ratelimiter@
    }

    /// The allowed mentions that the client holds as the default.
    pub closed spec fn mentions(&self) -> Option<CreateAllowedMentions> {
        self.default_allowed_mentions
    }

    /// A client that authorises itself with `token`, with every other
    /// setting as a builder starts it.
    #[must_use]
    pub fn new(token: Token) -> (http: Self)
        ensures
            http.token_text() == Some(token.text()),
            http.known_application() is None,
            http.proxy_address() is None,
            http.mentions() is None,
            http.limits() == Ratelimiter::initial(false),
    {
        HttpBuilder::new(token).build()
    }

    /// A client without a token, with every other setting as a builder
    /// starts it.
    #[must_use]
    pub fn without_token() -> (http: Self)
        ensures
            http.token_text() is None,
            http.known_application() is None,
            http.proxy_address() is None,
            http.mentions() is None,
            http.limits() == Ratelimiter::initial(false),
    {
        HttpBuilder::without_token().build()
    }

    /// The application id, if the client knows one.
    pub fn application_id(&self) -> (id: Option<ApplicationId>)
        ensures
            id == self.known_application(),
    {
        if self.application_id == NO_APPLICATION {
            None
        } else {
            Some(ApplicationId::new(self.application_id))
        }
    }

    /// The application id, or the error of a call that needs it before it is
    /// known.
    pub fn try_application_id(&self) -> (r: Result<ApplicationId, DispatchError>)
        ensures
            match r {
                Ok(id) => self.known_application() == Some(id),
                Err(e) => self.known_application() is None && e is PreconditionMissing,
            },
    {
        match self.application_id() {
            Some(id) => Ok(id),
            None => Err(DispatchError::PreconditionMissing),
        }
    }

    /// Tells the client its application id. The id `u64::MAX` stands for
    /// none.
    pub fn set_application_id(&mut self, application_id: ApplicationId)
        ensures
            final(self).known_application() == (if application_id.0 == NO_APPLICATION {
                None
            } else {
                Some(application_id)
            }),
            final(self).token_text() == old(self).token_text(),
            final(self).proxy_address() == old(self).proxy_address(),
            final(self).limits() == old(self).limits(),
            final(self).mentions() == old(self).mentions(),
    {
        self.application_id = application_id.get();
    }

    /// The request that adds a user to a guild with a valid OAuth2 access
    /// token.
    ///
    /// `map` is the serialised payload. The response has no content if the user
    /// was a member of the guild already.
    pub fn add_guild_member(
        &self,
        guild_id: GuildId,
        user_id: UserId,
        map: Vec<u8>,
    ) -> (req: Request<'static>)
        ensures
            req.method == LightMethod::Put,
            req.route == (Route::GuildMember { guild_id, user_id }),
            req.body == Some(map),
            req.multipart is None,
            req.headers is None,
            req.params is None,
            req.wf(),
    {
        Request {
            body: Some(map),
            multipart: None,
            headers: None,
            method: LightMethod::Put,
            route: Route::GuildMember { guild_id, user_id },
            params: None,
        }
    }

    /// The request that adds a single role to a member in a guild.
    ///
    /// The response is expected to have no content.
    pub fn add_member_role(
        &self,
        guild_id: GuildId,
        user_id: UserId,
        role_id: RoleId,
        audit_log_reason: Option<&str>,
    ) -> (req: Request<'static>)
        ensures
            req.method == LightMethod::Put,
            req.route == (Route::GuildMemberRole { guild_id, user_id, role_id }),
            req.body is None,
            req.multipart is None,
            req.extra_headers() == reason_header(audit_log_reason),
            req.params is None,
            req.wf(),
    {
        Request {
            body: None,
            multipart: None,
            headers: reason_headers(audit_log_reason),
            method: LightMethod::Put,
            route: Route::GuildMemberRole { guild_id, user_id, role_id },
            params: None,
        }
    }

    /// The request that bans a user from a guild, removing their messages of
    /// the last days.
    ///
    /// The messages of the last `delete_message_days` days are removed with the
    /// ban: the query carries that time in seconds. The response is expected to
    /// have no content.
    pub fn ban_user(
        &self,
        guild_id: GuildId,
        user_id: UserId,
        delete_message_days: u8,
        reason: Option<&str>,
    ) -> (req: Request<'static>)
        ensures
            req.method == LightMethod::Put,
            req.route == (Route::GuildBan { guild_id, user_id }),
            req.body is None,
            req.multipart is None,
            req.extra_headers() == reason_header(reason),
            req.query() == Some(
                seq![
                    ("delete_message_seconds"@, decimal((delete_message_days * 86400) as nat)),
                ],
            ),
            req.wf(),
    {
        let mut params = params_new();
        let delete_message_seconds: u32 = delete_message_days as u32 * 86400;
        let seconds = decimal_u64(delete_message_seconds as u64);
        params_push(&mut params, "delete_message_seconds", seconds);
        let params = Some(params);
        let req = Request {
            body: None,
            multipart: None,
            headers: reason_headers(reason),
            method: LightMethod::Put,
            route: Route::GuildBan { guild_id, user_id },
            params,
        };
        assert(req.query()->0 =~= seq![
                ("delete_message_seconds"@, decimal((delete_message_days * 86400) as nat)),
            ]);
        req
    }

    /// The request that bans multiple users from a guild, optionally removing
    /// their messages.
    ///
    /// `map` is the serialised payload.
    pub fn bulk_ban_users(
        &self,
        guild_id: GuildId,
        map: Vec<u8>,
        reason: Option<&str>,
    ) -> (req: Request<'static>)
        ensures
            req.method == LightMethod::Post,
            req.route == (Route::GuildBulkBan { guild_id }),
            req.body == Some(map),
            req.multipart is None,
            req.extra_headers() == reason_header(reason),
            req.params is None,
            req.wf(),
    {
        Request {
            body: Some(map),
            multipart: None,
            headers: reason_headers(reason),
            method: LightMethod::Post,
            route: Route::GuildBulkBan { guild_id },
            params: None,
        }
    }

    /// The request that broadcasts that the current user is typing in the given
    /// channel.
    ///
    /// The response is expected to have no content.
    pub fn broadcast_typing(&self, channel_id: ChannelId) -> (req: Request<'static>)
        ensures
            req.method == LightMethod::Post,
            req.route == (Route::ChannelTyping { channel_id }),
            req.body is None,
            req.multipart is None,
            req.headers is None,
            req.params is None,
            req.wf(),
    {
        Request {
            body: None,
            multipart: None,
            headers: None,
            method: LightMethod::Post,
            route: Route::ChannelTyping { channel_id },
            params: None,
        }
    }

    /// The request that creates a guild channel in the guild given its id.
    ///
    /// `map` is the serialised payload.
    pub fn create_channel(
        &self,
        guild_id: GuildId,
        map: Vec<u8>,
        audit_log_reason: Option<&str>,
    ) -> (req: Request<'static>)
        ensures
            req.method == LightMethod::Post,
            req.route == (Route::GuildChannels { guild_id }),
            req.body == Some(map),
            req.multipart is None,
            req.extra_headers() == reason_header(audit_log_reason),
            req.params is None,
            req.wf(),
    {
        Request {
            body: Some(map),
            multipart: None,
            headers: reason_headers(audit_log_reason),
            method: LightMethod::Post,
            route: Route::GuildChannels { guild_id },
            params: None,
        }
    }

    /// The request that creates a stage instance.
    ///
    /// `map` is the serialised payload.
    pub fn create_stage_instance(
        &self,
        map: Vec<u8>,
        audit_log_reason: Option<&str>,
    ) -> (req: Request<'static>)
        ensures
            req.method == LightMethod::Post,
            req.route == Route::StageInstances,
            req.body == Some(map),
            req.multipart is None,
            req.extra_headers() == reason_header(audit_log_reason),
            req.params is None,
            req.wf(),
    {
        Request {
            body: Some(map),
            multipart: None,
            headers: reason_headers(audit_log_reason),
            method: LightMethod::Post,
            route: Route::StageInstances,
            params: None,
        }
    }

    /// The request that creates a thread channel in the guild channel given its
    /// id, with a base message id.
    ///
    /// `map` is the serialised payload.
    pub fn create_thread_from_message(
        &self,
        channel_id: ChannelId,
        message_id: MessageId,
        map: Vec<u8>,
        audit_log_reason: Option<&str>,
    ) -> (req: Request<'static>)
        ensures
            req.method == LightMethod::Post,
            req.route == (Route::ChannelMessageThreads { channel_id, message_id }),
            req.body == Some(map),
            req.multipart is None,
            req.extra_headers() == reason_header(audit_log_reason),
            req.params is None,
            req.wf(),
    {
        Request {
            body: Some(map),
            multipart: None,
            headers: reason_headers(audit_log_reason),
            method: LightMethod::Post,
            route: Route::ChannelMessageThreads { channel_id, message_id },
            params: None,
        }
    }

    /// The request that creates a thread channel not attached to a message in
    /// the guild channel given its id.
    ///
    /// `map` is the serialised payload.
    pub fn create_thread(
        &self,
        channel_id: ChannelId,
        map: Vec<u8>,
        audit_log_reason: Option<&str>,
    ) -> (req: Request<'static>)
        ensures
            req.method == LightMethod::Post,
            req.route == (Route::ChannelThreads { channel_id }),
            req.body == Some(map),
            req.multipart is None,
            req.extra_headers() == reason_header(audit_log_reason),
            req.params is None,
            req.wf(),
    {
        Request {
            body: Some(map),
            multipart: None,
            headers: reason_headers(audit_log_reason),
            method: LightMethod::Post,
            route: Route::ChannelThreads { channel_id },
            params: None,
        }
    }

    /// The request that creates a forum post channel in the guild channel given
    /// its id.
    ///
    /// `map` is the payload as JSON text, which travels beside the files in a
    /// multipart body.
    pub fn create_forum_post(
        &self,
        channel_id: ChannelId,
        map: String,
        files: Vec<CreateAttachment>,
        audit_log_reason: Option<&str>,
    ) -> (req: Request<'static>)
        ensures
            req.method == LightMethod::Post,
            req.route == (Route::ChannelForumPosts { channel_id }),
            req.body is None,
            req.multipart matches Some(m) && {
                &&& m.upload == MultipartUpload::Attachments(files)
                &&& m.payload_json == Some(map)
                &&& m.fields@.len() == 0
            },
            req.extra_headers() == reason_header(audit_log_reason),
            req.params is None,
            req.wf(),
    {
        let multipart = Some(
            Multipart {
                upload: MultipartUpload::Attachments(files),
                payload_json: Some(map),
                fields: Vec::new(),
            },
        );
        Request {
            body: None,
            multipart,
            headers: reason_headers(audit_log_reason),
            method: LightMethod::Post,
            route: Route::ChannelForumPosts { channel_id },
            params: None,
        }
    }

    /// The request that creates an emoji in the given guild with the given
    /// data.
    ///
    /// `map` is the serialised payload.
    pub fn create_emoji(
        &self,
        guild_id: GuildId,
        map: Vec<u8>,
        audit_log_reason: Option<&str>,
    ) -> (req: Request<'static>)
        ensures
            req.method == LightMethod::Post,
            req.route == (Route::GuildEmojis { guild_id }),
            req.body == Some(map),
            req.multipart is None,
            req.extra_headers() == reason_header(audit_log_reason),
            req.params is None,
            req.wf(),
    {
        Request {
            body: Some(map),
            multipart: None,
            headers: reason_headers(audit_log_reason),
            method: LightMethod::Post,
            route: Route::GuildEmojis { guild_id },
            params: None,
        }
    }

    /// The request that creates an application emoji with the given data.
    ///
    /// `map` is the serialised payload. Fails if the application id is not
    /// known.
    pub fn create_application_emoji(
        &self,
        map: Vec<u8>,
    ) -> (r: Result<Request<'static>, DispatchError>)
        ensures
            match r {
                Ok(req) => {
                    &&& self.known_application() is Some
                    &&& req.method == LightMethod::Post
                    &&& req.route == (Route::Emojis { application_id: self.known_application()->0 })
                    &&& req.body == Some(map)
                    &&& req.multipart is None
                    &&& req.headers is None
                    &&& req.params is None
                    &&& req.wf()
                },
                Err(e) => self.known_application() is None && e is PreconditionMissing,
            },
    {
        let application_id = match self.try_application_id() {
            Ok(id) => id,
            Err(e) => return Err(e),
        };
        Ok(Request {
            body: Some(map),
            multipart: None,
            headers: None,
            method: LightMethod::Post,
            route: Route::Emojis { application_id },
            params: None,
        })
    }

    /// The request that creates a follow-up message for an interaction.
    ///
    /// `map` is the payload as JSON text: without files it is the body, with
    /// files it travels beside them in a multipart body. Fails if the
    /// application id is not known.
    pub fn create_followup_message<'a>(
        &self,
        interaction_token: &'a str,
        map: String,
        files: Vec<CreateAttachment>,
    ) -> (r: Result<Request<'a>, DispatchError>)
        ensures
            match r {
                Ok(req) => {
                    &&& self.known_application() is Some
                    &&& req.method == LightMethod::Post
                    &&& req.route == (Route::WebhookFollowupMessages {
                        application_id: self.known_application()->0,
                        token: interaction_token,
                    })
                    &&& carries_payload(req, files, map)
                    &&& req.headers is None
                    &&& req.params is None
                    &&& req.wf()
                },
                Err(e) => self.known_application() is None && e is PreconditionMissing,
            },
    {
        let application_id = match self.try_application_id() {
            Ok(id) => id,
            Err(e) => return Err(e),
        };
        let (body, multipart) = payload_with_files(files, map);
        Ok(Request {
            body,
            multipart,
            headers: None,
            method: LightMethod::Post,
            route: Route::WebhookFollowupMessages { application_id, token: interaction_token },
            params: None,
        })
    }

    /// The request that creates a new global command.
    ///
    /// `map` is the serialised payload. Fails if the application id is not
    /// known.
    pub fn create_global_command(
        &self,
        map: Vec<u8>,
    ) -> (r: Result<Request<'static>, DispatchError>)
        ensures
            match r {
                Ok(req) => {
                    &&& self.known_application() is Some
                    &&& req.method == LightMethod::Post
                    &&& req.route == (Route::Commands {
                        application_id: self.known_application()->0,
                    })
                    &&& req.body == Some(map)
                    &&& req.multipart is None
                    &&& req.headers is None
                    &&& req.params is None
                    &&& req.wf()
                },
                Err(e) => self.known_application() is None && e is PreconditionMissing,
            },
    {
        let application_id = match self.try_application_id() {
            Ok(id) => id,
            Err(e) => return Err(e),
        };
        Ok(Request {
            body: Some(map),
            multipart: None,
            headers: None,
            method: LightMethod::Post,
            route: Route::Commands { application_id },
            params: None,
        })
    }

    /// The request that creates new global application commands.
    ///
    /// `map` is the serialised payload. Fails if the application id is not
    /// known.
    pub fn create_global_commands(
        &self,
        map: Vec<u8>,
    ) -> (r: Result<Request<'static>, DispatchError>)
        ensures
            match r {
                Ok(req) => {
                    &&& self.known_application() is Some
                    &&& req.method == LightMethod::Put
                    &&& req.route == (Route::Commands {
                        application_id: self.known_application()->0,
                    })
                    &&& req.body == Some(map)
                    &&& req.multipart is None
                    &&& req.headers is None
                    &&& req.params is None
                    &&& req.wf()
                },
                Err(e) => self.known_application() is None && e is PreconditionMissing,
            },
    {
        let application_id = match self.try_application_id() {
            Ok(id) => id,
            Err(e) => return Err(e),
        };
        Ok(Request {
            body: Some(map),
            multipart: None,
            headers: None,
            method: LightMethod::Put,
            route: Route::Commands { application_id },
            params: None,
        })
    }

    /// The request that creates new guild application commands.
    ///
    /// `map` is the serialised payload. Fails if the application id is not
    /// known.
    pub fn create_guild_commands(
        &self,
        guild_id: GuildId,
        map: Vec<u8>,
    ) -> (r: Result<Request<'static>, DispatchError>)
        ensures
            match r {
                Ok(req) => {
                    &&& self.known_application() is Some
                    &&& req.method == LightMethod::Put
                    &&& req.route == (Route::GuildCommands {
                        application_id: self.known_application()->0,
                        guild_id,
                    })
                    &&& req.body == Some(map)
                    &&& req.multipart is None
                    &&& req.headers is None
                    &&& req.params is None
                    &&& req.wf()
                },
                Err(e) => self.known_application() is None && e is PreconditionMissing,
            },
    {
        let application_id = match self.try_application_id() {
            Ok(id) => id,
            Err(e) => return Err(e),
        };
        Ok(Request {
            body: Some(map),
            multipart: None,
            headers: None,
            method: LightMethod::Put,
            route: Route::GuildCommands { application_id, guild_id },
            params: None,
        })
    }

    /// The request that creates a guild with the data provided.
    ///
    /// `map` is the serialised payload.
    pub fn create_guild(&self, map: Vec<u8>) -> (req: Request<'static>)
        ensures
            req.method == LightMethod::Post,
            req.route == Route::Guilds,
            req.body == Some(map),
            req.multipart is None,
            req.headers is None,
            req.params is None,
            req.wf(),
    {
        Request {
            body: Some(map),
            multipart: None,
            headers: None,
            method: LightMethod::Post,
            route: Route::Guilds,
            params: None,
        }
    }

    /// The request that creates a new guild command.
    ///
    /// `map` is the serialised payload. Fails if the application id is not
    /// known.
    pub fn create_guild_command(
        &self,
        guild_id: GuildId,
        map: Vec<u8>,
    ) -> (r: Result<Request<'static>, DispatchError>)
        ensures
            match r {
                Ok(req) => {
                    &&& self.known_application() is Some
                    &&& req.method == LightMethod::Post
                    &&& req.route == (Route::GuildCommands {
                        application_id: self.known_application()->0,
                        guild_id,
                    })
                    &&& req.body == Some(map)
                    &&& req.multipart is None
                    &&& req.headers is None
                    &&& req.params is None
                    &&& req.wf()
                },
                Err(e) => self.known_application() is None && e is PreconditionMissing,
            },
    {
        let application_id = match self.try_application_id() {
            Ok(id) => id,
            Err(e) => return Err(e),
        };
        Ok(Request {
            body: Some(map),
            multipart: None,
            headers: None,
            method: LightMethod::Post,
            route: Route::GuildCommands { application_id, guild_id },
            params: None,
        })
    }

    /// The request that creates an integration for a guild.
    ///
    /// `map` is the serialised payload. The response is expected to have no
    /// content.
    pub fn create_guild_integration(
        &self,
        guild_id: GuildId,
        integration_id: IntegrationId,
        map: Vec<u8>,
        audit_log_reason: Option<&str>,
    ) -> (req: Request<'static>)
        ensures
            req.method == LightMethod::Post,
            req.route == (Route::GuildIntegration { guild_id, integration_id }),
            req.body == Some(map),
            req.multipart is None,
            req.extra_headers() == reason_header(audit_log_reason),
            req.params is None,
            req.wf(),
    {
        Request {
            body: Some(map),
            multipart: None,
            headers: reason_headers(audit_log_reason),
            method: LightMethod::Post,
            route: Route::GuildIntegration { guild_id, integration_id },
            params: None,
        }
    }

    /// The request that creates a response to an interaction from the gateway.
    ///
    /// `map` is the payload as JSON text: without files it is the body, with
    /// files it travels beside them in a multipart body. The response is
    /// expected to have no content.
    pub fn create_interaction_response<'a>(
        &self,
        interaction_id: InteractionId,
        interaction_token: &'a str,
        map: String,
        files: Vec<CreateAttachment>,
    ) -> (req: Request<'a>)
        ensures
            req.method == LightMethod::Post,
            req.route == (Route::InteractionResponse { interaction_id, token: interaction_token }),
            carries_payload(req, files, map),
            req.headers is None,
            req.params is None,
            req.wf(),
    {
        let (body, multipart) = payload_with_files(files, map);
        Request {
            body,
            multipart,
            headers: None,
            method: LightMethod::Post,
            route: Route::InteractionResponse { interaction_id, token: interaction_token },
            params: None,
        }
    }

    /// The request that creates an invite for the given channel.
    ///
    /// `map` is the serialised payload.
    pub fn create_invite(
        &self,
        channel_id: ChannelId,
        map: Vec<u8>,
        audit_log_reason: Option<&str>,
    ) -> (req: Request<'static>)
        ensures
            req.method == LightMethod::Post,
            req.route == (Route::ChannelInvites { channel_id }),
            req.body == Some(map),
            req.multipart is None,
            req.extra_headers() == reason_header(audit_log_reason),
            req.params is None,
            req.wf(),
    {
        Request {
            body: Some(map),
            multipart: None,
            headers: reason_headers(audit_log_reason),
            method: LightMethod::Post,
            route: Route::ChannelInvites { channel_id },
            params: None,
        }
    }

    /// The request that creates a permission override for a member or a role in
    /// a channel.
    ///
    /// `map` is the serialised payload. The response is expected to have no
    /// content.
    pub fn create_permission(
        &self,
        channel_id: ChannelId,
        target_id: TargetId,
        map: Vec<u8>,
        audit_log_reason: Option<&str>,
    ) -> (req: Request<'static>)
        ensures
            req.method == LightMethod::Put,
            req.route == (Route::ChannelPermission { channel_id, target_id }),
            req.body == Some(map),
            req.multipart is None,
            req.extra_headers() == reason_header(audit_log_reason),
            req.params is None,
            req.wf(),
    {
        Request {
            body: Some(map),
            multipart: None,
            headers: reason_headers(audit_log_reason),
            method: LightMethod::Put,
            route: Route::ChannelPermission { channel_id, target_id },
            params: None,
        }
    }

    /// The request that creates a private channel with a user.
    ///
    /// `map` is the serialised payload.
    pub fn create_private_channel(&self, map: Vec<u8>) -> (req: Request<'static>)
        ensures
            req.method == LightMethod::Post,
            req.route == Route::UserMeDmChannels,
            req.body == Some(map),
            req.multipart is None,
            req.headers is None,
            req.params is None,
            req.wf(),
    {
        Request {
            body: Some(map),
            multipart: None,
            headers: None,
            method: LightMethod::Post,
            route: Route::UserMeDmChannels,
            params: None,
        }
    }

    /// The request that reacts to a message.
    ///
    /// `reaction` is the reaction's data as it stands in a path. The response
    /// is expected to have no content.
    pub fn create_reaction<'a>(
        &self,
        channel_id: ChannelId,
        message_id: MessageId,
        reaction: &'a str,
    ) -> (req: Request<'a>)
        ensures
            req.method == LightMethod::Put,
            req.route == (Route::ChannelMessageReactionMe { channel_id, message_id, reaction }),
            req.body is None,
            req.multipart is None,
            req.headers is None,
            req.params is None,
            req.wf(),
    {
        Request {
            body: None,
            multipart: None,
            headers: None,
            method: LightMethod::Put,
            route: Route::ChannelMessageReactionMe { channel_id, message_id, reaction },
            params: None,
        }
    }

    /// The request that creates a role.
    ///
    /// `body` is the serialised payload. The object in the response does not
    /// name its guild; [`Http::with_guild_id`] puts it in before the object is
    /// decoded.
    pub fn create_role(
        &self,
        guild_id: GuildId,
        body: Vec<u8>,
        audit_log_reason: Option<&str>,
    ) -> (req: Request<'static>)
        ensures
            req.method == LightMethod::Post,
            req.route == (Route::GuildRoles { guild_id }),
            req.body == Some(body),
            req.multipart is None,
            req.extra_headers() == reason_header(audit_log_reason),
            req.params is None,
            req.wf(),
    {
        Request {
            body: Some(body),
            multipart: None,
            headers: reason_headers(audit_log_reason),
            method: LightMethod::Post,
            route: Route::GuildRoles { guild_id },
            params: None,
        }
    }

    /// The request that creates a guild scheduled event.
    ///
    /// `map` is the serialised payload.
    pub fn create_scheduled_event(
        &self,
        guild_id: GuildId,
        map: Vec<u8>,
        audit_log_reason: Option<&str>,
    ) -> (req: Request<'static>)
        ensures
            req.method == LightMethod::Post,
            req.route == (Route::GuildScheduledEvents { guild_id }),
            req.body == Some(map),
            req.multipart is None,
            req.extra_headers() == reason_header(audit_log_reason),
            req.params is None,
            req.wf(),
    {
        Request {
            body: Some(map),
            multipart: None,
            headers: reason_headers(audit_log_reason),
            method: LightMethod::Post,
            route: Route::GuildScheduledEvents { guild_id },
            params: None,
        }
    }

    /// The request that creates a sticker.
    ///
    /// The file and the fields travel in a multipart body.
    pub fn create_sticker(
        &self,
        guild_id: GuildId,
        fields: Vec<(String, String)>,
        file: CreateAttachment,
        audit_log_reason: Option<&str>,
    ) -> (req: Request<'static>)
        ensures
            req.method == LightMethod::Post,
            req.route == (Route::GuildStickers { guild_id }),
            req.body is None,
            req.multipart matches Some(m) && {
                &&& m.upload == MultipartUpload::File(file)
                &&& m.payload_json is None
                &&& m.fields == fields
            },
            req.extra_headers() == reason_header(audit_log_reason),
            req.params is None,
            req.wf(),
    {
        let multipart = Some(
            Multipart { upload: MultipartUpload::File(file), payload_json: None, fields: fields },
        );
        Request {
            body: None,
            multipart,
            headers: reason_headers(audit_log_reason),
            method: LightMethod::Post,
            route: Route::GuildStickers { guild_id },
            params: None,
        }
    }

    /// The request that creates a test entitlement to a given SKU for a given
    /// guild or user.
    ///
    /// `map` is the serialised payload. `map` is the serialised
    /// [`TestEntitlement`](crate::model::monetization::TestEntitlement). Fails
    /// if the application id is not known.
    pub fn create_test_entitlement(
        &self,
        map: Vec<u8>,
    ) -> (r: Result<Request<'static>, DispatchError>)
        ensures
            match r {
                Ok(req) => {
                    &&& self.known_application() is Some
                    &&& req.method == LightMethod::Post
                    &&& req.route == (Route::Entitlements {
                        application_id: self.known_application()->0,
                    })
                    &&& req.body == Some(map)
                    &&& req.multipart is None
                    &&& req.headers is None
                    &&& req.params is None
                    &&& req.wf()
                },
                Err(e) => self.known_application() is None && e is PreconditionMissing,
            },
    {
        let application_id = match self.try_application_id() {
            Ok(id) => id,
            Err(e) => return Err(e),
        };
        Ok(Request {
            body: Some(map),
            multipart: None,
            headers: None,
            method: LightMethod::Post,
            route: Route::Entitlements { application_id },
            params: None,
        })
    }

    /// The request that creates a webhook for the given guild channel's id,
    /// passing in the given data.
    ///
    /// `map` is the serialised payload.
    pub fn create_webhook(
        &self,
        channel_id: ChannelId,
        map: Vec<u8>,
        audit_log_reason: Option<&str>,
    ) -> (req: Request<'static>)
        ensures
            req.method == LightMethod::Post,
            req.route == (Route::ChannelWebhooks { channel_id }),
            req.body == Some(map),
            req.multipart is None,
            req.extra_headers() == reason_header(audit_log_reason),
            req.params is None,
            req.wf(),
    {
        Request {
            body: Some(map),
            multipart: None,
            headers: reason_headers(audit_log_reason),
            method: LightMethod::Post,
            route: Route::ChannelWebhooks { channel_id },
            params: None,
        }
    }

    /// The request that deletes a private channel or a channel in a guild.
    pub fn delete_channel(
        &self,
        channel_id: ChannelId,
        audit_log_reason: Option<&str>,
    ) -> (req: Request<'static>)
        ensures
            req.method == LightMethod::Delete,
            req.route == (Route::Channel { channel_id }),
            req.body is None,
            req.multipart is None,
            req.extra_headers() == reason_header(audit_log_reason),
            req.params is None,
            req.wf(),
    {
        Request {
            body: None,
            multipart: None,
            headers: reason_headers(audit_log_reason),
            method: LightMethod::Delete,
            route: Route::Channel { channel_id },
            params: None,
        }
    }

    /// The request that deletes a stage instance.
    ///
    /// The response is expected to have no content.
    pub fn delete_stage_instance(
        &self,
        channel_id: ChannelId,
        audit_log_reason: Option<&str>,
    ) -> (req: Request<'static>)
        ensures
            req.method == LightMethod::Delete,
            req.route == (Route::StageInstance { channel_id }),
            req.body is None,
            req.multipart is None,
            req.extra_headers() == reason_header(audit_log_reason),
            req.params is None,
            req.wf(),
    {
        Request {
            body: None,
            multipart: None,
            headers: reason_headers(audit_log_reason),
            method: LightMethod::Delete,
            route: Route::StageInstance { channel_id },
            params: None,
        }
    }

    /// The request that deletes an emoji from a guild.
    ///
    /// The response is expected to have no content.
    pub fn delete_emoji(
        &self,
        guild_id: GuildId,
        emoji_id: EmojiId,
        audit_log_reason: Option<&str>,
    ) -> (req: Request<'static>)
        ensures
            req.method == LightMethod::Delete,
            req.route == (Route::GuildEmoji { guild_id, emoji_id }),
            req.body is None,
            req.multipart is None,
            req.extra_headers() == reason_header(audit_log_reason),
            req.params is None,
            req.wf(),
    {
        Request {
            body: None,
            multipart: None,
            headers: reason_headers(audit_log_reason),
            method: LightMethod::Delete,
            route: Route::GuildEmoji { guild_id, emoji_id },
            params: None,
        }
    }

    /// The request that deletes an application emoji.
    ///
    /// The response is expected to have no content. Fails if the application id
    /// is not known.
    pub fn delete_application_emoji(
        &self,
        emoji_id: EmojiId,
    ) -> (r: Result<Request<'static>, DispatchError>)
        ensures
            match r {
                Ok(req) => {
                    &&& self.known_application() is Some
                    &&& req.method == LightMethod::Delete
                    &&& req.route == (Route::Emoji {
                        application_id: self.known_application()->0,
                        emoji_id,
                    })
                    &&& req.body is None
                    &&& req.multipart is None
                    &&& req.headers is None
                    &&& req.params is None
                    &&& req.wf()
                },
                Err(e) => self.known_application() is None && e is PreconditionMissing,
            },
    {
        let application_id = match self.try_application_id() {
            Ok(id) => id,
            Err(e) => return Err(e),
        };
        Ok(Request {
            body: None,
            multipart: None,
            headers: None,
            method: LightMethod::Delete,
            route: Route::Emoji { application_id, emoji_id },
            params: None,
        })
    }

    /// The request that deletes a follow-up message for an interaction.
    ///
    /// The response is expected to have no content. Fails if the application id
    /// is not known.
    pub fn delete_followup_message<'a>(
        &self,
        interaction_token: &'a str,
        message_id: MessageId,
    ) -> (r: Result<Request<'a>, DispatchError>)
        ensures
            match r {
                Ok(req) => {
                    &&& self.known_application() is Some
                    &&& req.method == LightMethod::Delete
                    &&& req.route == (Route::WebhookFollowupMessage {
                        application_id: self.known_application()->0,
                        token: interaction_token,
                        message_id,
                    })
                    &&& req.body is None
                    &&& req.multipart is None
                    &&& req.headers is None
                    &&& req.params is None
                    &&& req.wf()
                },
                Err(e) => self.known_application() is None && e is PreconditionMissing,
            },
    {
        let application_id = match self.try_application_id() {
            Ok(id) => id,
            Err(e) => return Err(e),
        };
        Ok(Request {
            body: None,
            multipart: None,
            headers: None,
            method: LightMethod::Delete,
            route: Route::WebhookFollowupMessage {
                application_id,
                token: interaction_token,
                message_id,
            },
            params: None,
        })
    }

    /// The request that deletes a global command.
    ///
    /// The response is expected to have no content. Fails if the application id
    /// is not known.
    pub fn delete_global_command(
        &self,
        command_id: CommandId,
    ) -> (r: Result<Request<'static>, DispatchError>)
        ensures
            match r {
                Ok(req) => {
                    &&& self.known_application() is Some
                    &&& req.method == LightMethod::Delete
                    &&& req.route == (Route::Command {
                        application_id: self.known_application()->0,
                        command_id,
                    })
                    &&& req.body is None
                    &&& req.multipart is None
                    &&& req.headers is None
                    &&& req.params is None
                    &&& req.wf()
                },
                Err(e) => self.known_application() is None && e is PreconditionMissing,
            },
    {
        let application_id = match self.try_application_id() {
            Ok(id) => id,
            Err(e) => return Err(e),
        };
        Ok(Request {
            body: None,
            multipart: None,
            headers: None,
            method: LightMethod::Delete,
            route: Route::Command { application_id, command_id },
            params: None,
        })
    }

    /// The request that deletes a guild, only if connected account owns it.
    ///
    /// The response is expected to have no content.
    pub fn delete_guild(&self, guild_id: GuildId) -> (req: Request<'static>)
        ensures
            req.method == LightMethod::Delete,
            req.route == (Route::Guild { guild_id }),
            req.body is None,
            req.multipart is None,
            req.headers is None,
            req.params is None,
            req.wf(),
    {
        Request {
            body: None,
            multipart: None,
            headers: None,
            method: LightMethod::Delete,
            route: Route::Guild { guild_id },
            params: None,
        }
    }

    /// The request that deletes a guild command.
    ///
    /// The response is expected to have no content. Fails if the application id
    /// is not known.
    pub fn delete_guild_command(
        &self,
        guild_id: GuildId,
        command_id: CommandId,
    ) -> (r: Result<Request<'static>, DispatchError>)
        ensures
            match r {
                Ok(req) => {
                    &&& self.known_application() is Some
                    &&& req.method == LightMethod::Delete
                    &&& req.route == (Route::GuildCommand {
                        application_id: self.known_application()->0,
                        guild_id,
                        command_id,
                    })
                    &&& req.body is None
                    &&& req.multipart is None
                    &&& req.headers is None
                    &&& req.params is None
                    &&& req.wf()
                },
                Err(e) => self.known_application() is None && e is PreconditionMissing,
            },
    {
        let application_id = match self.try_application_id() {
            Ok(id) => id,
            Err(e) => return Err(e),
        };
        Ok(Request {
            body: None,
            multipart: None,
            headers: None,
            method: LightMethod::Delete,
            route: Route::GuildCommand { application_id, guild_id, command_id },
            params: None,
        })
    }

    /// The request that removes an integration from a guild.
    ///
    /// The response is expected to have no content.
    pub fn delete_guild_integration(
        &self,
        guild_id: GuildId,
        integration_id: IntegrationId,
        audit_log_reason: Option<&str>,
    ) -> (req: Request<'static>)
        ensures
            req.method == LightMethod::Delete,
            req.route == (Route::GuildIntegration { guild_id, integration_id }),
            req.body is None,
            req.multipart is None,
            req.extra_headers() == reason_header(audit_log_reason),
            req.params is None,
            req.wf(),
    {
        Request {
            body: None,
            multipart: None,
            headers: reason_headers(audit_log_reason),
            method: LightMethod::Delete,
            route: Route::GuildIntegration { guild_id, integration_id },
            params: None,
        }
    }

    /// The request that deletes an invite by code.
    pub fn delete_invite<'a>(
        &self,
        code: &'a str,
        audit_log_reason: Option<&str>,
    ) -> (req: Request<'a>)
        ensures
            req.method == LightMethod::Delete,
            req.route == (Route::Invite { code }),
            req.body is None,
            req.multipart is None,
            req.extra_headers() == reason_header(audit_log_reason),
            req.params is None,
            req.wf(),
    {
        Request {
            body: None,
            multipart: None,
            headers: reason_headers(audit_log_reason),
            method: LightMethod::Delete,
            route: Route::Invite { code },
            params: None,
        }
    }

    /// The request that deletes a message if sent by the current user or the
    /// current user has specific permissions.
    ///
    /// The response is expected to have no content.
    pub fn delete_message(
        &self,
        channel_id: ChannelId,
        message_id: MessageId,
        audit_log_reason: Option<&str>,
    ) -> (req: Request<'static>)
        ensures
            req.method == LightMethod::Delete,
            req.route == (Route::ChannelMessage { channel_id, message_id }),
            req.body is None,
            req.multipart is None,
            req.extra_headers() == reason_header(audit_log_reason),
            req.params is None,
            req.wf(),
    {
        Request {
            body: None,
            multipart: None,
            headers: reason_headers(audit_log_reason),
            method: LightMethod::Delete,
            route: Route::ChannelMessage { channel_id, message_id },
            params: None,
        }
    }

    /// The request that deletes a bunch of messages, only works for bots.
    ///
    /// `map` is the serialised payload. The response is expected to have no
    /// content.
    pub fn delete_messages(
        &self,
        channel_id: ChannelId,
        map: Vec<u8>,
        audit_log_reason: Option<&str>,
    ) -> (req: Request<'static>)
        ensures
            req.method == LightMethod::Post,
            req.route == (Route::ChannelMessagesBulkDelete { channel_id }),
            req.body == Some(map),
            req.multipart is None,
            req.extra_headers() == reason_header(audit_log_reason),
            req.params is None,
            req.wf(),
    {
        Request {
            body: Some(map),
            multipart: None,
            headers: reason_headers(audit_log_reason),
            method: LightMethod::Post,
            route: Route::ChannelMessagesBulkDelete { channel_id },
            params: None,
        }
    }

    /// The request that deletes all of the reactions associated with a message.
    ///
    /// The response is expected to have no content.
    pub fn delete_message_reactions(
        &self,
        channel_id: ChannelId,
        message_id: MessageId,
    ) -> (req: Request<'static>)
        ensures
            req.method == LightMethod::Delete,
            req.route == (Route::ChannelMessageReactions { channel_id, message_id }),
            req.body is None,
            req.multipart is None,
            req.headers is None,
            req.params is None,
            req.wf(),
    {
        Request {
            body: None,
            multipart: None,
            headers: None,
            method: LightMethod::Delete,
            route: Route::ChannelMessageReactions { channel_id, message_id },
            params: None,
        }
    }

    /// The request that deletes all the reactions for a given emoji on a
    /// message.
    ///
    /// `reaction` is the reaction's data as it stands in a path. The response
    /// is expected to have no content.
    pub fn delete_message_reaction_emoji<'a>(
        &self,
        channel_id: ChannelId,
        message_id: MessageId,
        reaction: &'a str,
    ) -> (req: Request<'a>)
        ensures
            req.method == LightMethod::Delete,
            req.route == (Route::ChannelMessageReactionEmoji { channel_id, message_id, reaction }),
            req.body is None,
            req.multipart is None,
            req.headers is None,
            req.params is None,
            req.wf(),
    {
        Request {
            body: None,
            multipart: None,
            headers: None,
            method: LightMethod::Delete,
            route: Route::ChannelMessageReactionEmoji { channel_id, message_id, reaction },
            params: None,
        }
    }

    /// The request that deletes the initial interaction response.
    ///
    /// The response is expected to have no content. Fails if the application id
    /// is not known.
    pub fn delete_original_interaction_response<'a>(
        &self,
        interaction_token: &'a str,
    ) -> (r: Result<Request<'a>, DispatchError>)
        ensures
            match r {
                Ok(req) => {
                    &&& self.known_application() is Some
                    &&& req.method == LightMethod::Delete
                    &&& req.route == (Route::WebhookOriginalInteractionResponse {
                        application_id: self.known_application()->0,
                        token: interaction_token,
                    })
                    &&& req.body is None
                    &&& req.multipart is None
                    &&& req.headers is None
                    &&& req.params is None
                    &&& req.wf()
                },
                Err(e) => self.known_application() is None && e is PreconditionMissing,
            },
    {
        let application_id = match self.try_application_id() {
            Ok(id) => id,
            Err(e) => return Err(e),
        };
        Ok(Request {
            body: None,
            multipart: None,
            headers: None,
            method: LightMethod::Delete,
            route: Route::WebhookOriginalInteractionResponse {
                application_id,
                token: interaction_token,
            },
            params: None,
        })
    }

    /// The request that deletes a permission override from a role or a member
    /// in a channel.
    ///
    /// The response is expected to have no content.
    pub fn delete_permission(
        &self,
        channel_id: ChannelId,
        target_id: TargetId,
        audit_log_reason: Option<&str>,
    ) -> (req: Request<'static>)
        ensures
            req.method == LightMethod::Delete,
            req.route == (Route::ChannelPermission { channel_id, target_id }),
            req.body is None,
            req.multipart is None,
            req.extra_headers() == reason_header(audit_log_reason),
            req.params is None,
            req.wf(),
    {
        Request {
            body: None,
            multipart: None,
            headers: reason_headers(audit_log_reason),
            method: LightMethod::Delete,
            route: Route::ChannelPermission { channel_id, target_id },
            params: None,
        }
    }

    /// The request that deletes a user's reaction from a message.
    ///
    /// `reaction` is the reaction's data as it stands in a path. The response
    /// is expected to have no content.
    pub fn delete_reaction<'a>(
        &self,
        channel_id: ChannelId,
        message_id: MessageId,
        user_id: UserId,
        reaction: &'a str,
    ) -> (req: Request<'a>)
        ensures
            req.method == LightMethod::Delete,
            req.route == (Route::ChannelMessageReaction {
                channel_id,
                message_id,
                user_id,
                reaction,
            }),
            req.body is None,
            req.multipart is None,
            req.headers is None,
            req.params is None,
            req.wf(),
    {
        Request {
            body: None,
            multipart: None,
            headers: None,
            method: LightMethod::Delete,
            route: Route::ChannelMessageReaction { channel_id, message_id, user_id, reaction },
            params: None,
        }
    }

    /// The request that deletes a reaction by the current user from a message.
    ///
    /// `reaction` is the reaction's data as it stands in a path. The response
    /// is expected to have no content.
    pub fn delete_reaction_me<'a>(
        &self,
        channel_id: ChannelId,
        message_id: MessageId,
        reaction: &'a str,
    ) -> (req: Request<'a>)
        ensures
            req.method == LightMethod::Delete,
            req.route == (Route::ChannelMessageReactionMe { channel_id, message_id, reaction }),
            req.body is None,
            req.multipart is None,
            req.headers is None,
            req.params is None,
            req.wf(),
    {
        Request {
            body: None,
            multipart: None,
            headers: None,
            method: LightMethod::Delete,
            route: Route::ChannelMessageReactionMe { channel_id, message_id, reaction },
            params: None,
        }
    }

    /// The request that deletes a role from a server.
    ///
    /// The response is expected to have no content.
    pub fn delete_role(
        &self,
        guild_id: GuildId,
        role_id: RoleId,
        audit_log_reason: Option<&str>,
    ) -> (req: Request<'static>)
        ensures
            req.method == LightMethod::Delete,
            req.route == (Route::GuildRole { guild_id, role_id }),
            req.body is None,
            req.multipart is None,
            req.extra_headers() == reason_header(audit_log_reason),
            req.params is None,
            req.wf(),
    {
        Request {
            body: None,
            multipart: None,
            headers: reason_headers(audit_log_reason),
            method: LightMethod::Delete,
            route: Route::GuildRole { guild_id, role_id },
            params: None,
        }
    }

    /// The request that deletes a scheduled event from a server.
    ///
    /// The response is expected to have no content.
    pub fn delete_scheduled_event(
        &self,
        guild_id: GuildId,
        event_id: ScheduledEventId,
    ) -> (req: Request<'static>)
        ensures
            req.method == LightMethod::Delete,
            req.route == (Route::GuildScheduledEvent { guild_id, event_id }),
            req.body is None,
            req.multipart is None,
            req.headers is None,
            req.params is None,
            req.wf(),
    {
        Request {
            body: None,
            multipart: None,
            headers: None,
            method: LightMethod::Delete,
            route: Route::GuildScheduledEvent { guild_id, event_id },
            params: None,
        }
    }

    /// The request that deletes a sticker from a server.
    ///
    /// The response is expected to have no content.
    pub fn delete_sticker(
        &self,
        guild_id: GuildId,
        sticker_id: StickerId,
        audit_log_reason: Option<&str>,
    ) -> (req: Request<'static>)
        ensures
            req.method == LightMethod::Delete,
            req.route == (Route::GuildSticker { guild_id, sticker_id }),
            req.body is None,
            req.multipart is None,
            req.extra_headers() == reason_header(audit_log_reason),
            req.params is None,
            req.wf(),
    {
        Request {
            body: None,
            multipart: None,
            headers: reason_headers(audit_log_reason),
            method: LightMethod::Delete,
            route: Route::GuildSticker { guild_id, sticker_id },
            params: None,
        }
    }

    /// The request that deletes a currently active test entitlement.
    ///
    /// The response is expected to have no content. Fails if the application id
    /// is not known.
    pub fn delete_test_entitlement(
        &self,
        entitlement_id: EntitlementId,
    ) -> (r: Result<Request<'static>, DispatchError>)
        ensures
            match r {
                Ok(req) => {
                    &&& self.known_application() is Some
                    &&& req.method == LightMethod::Delete
                    &&& req.route == (Route::Entitlement {
                        application_id: self.known_application()->0,
                        entitlement_id,
                    })
                    &&& req.body is None
                    &&& req.multipart is None
                    &&& req.headers is None
                    &&& req.params is None
                    &&& req.wf()
                },
                Err(e) => self.known_application() is None && e is PreconditionMissing,
            },
    {
        let application_id = match self.try_application_id() {
            Ok(id) => id,
            Err(e) => return Err(e),
        };
        Ok(Request {
            body: None,
            multipart: None,
            headers: None,
            method: LightMethod::Delete,
            route: Route::Entitlement { application_id, entitlement_id },
            params: None,
        })
    }

    /// The request that deletes a webhook given its id.
    ///
    /// The response is expected to have no content.
    pub fn delete_webhook(
        &self,
        webhook_id: WebhookId,
        audit_log_reason: Option<&str>,
    ) -> (req: Request<'static>)
        ensures
            req.method == LightMethod::Delete,
            req.route == (Route::Webhook { webhook_id }),
            req.body is None,
            req.multipart is None,
            req.extra_headers() == reason_header(audit_log_reason),
            req.params is None,
            req.wf(),
    {
        Request {
            body: None,
            multipart: None,
            headers: reason_headers(audit_log_reason),
            method: LightMethod::Delete,
            route: Route::Webhook { webhook_id },
            params: None,
        }
    }

    /// The request that deletes a webhook given its id and unique token.
    ///
    /// The response is expected to have no content.
    pub fn delete_webhook_with_token<'a>(
        &self,
        webhook_id: WebhookId,
        token: &'a str,
        audit_log_reason: Option<&str>,
    ) -> (req: Request<'a>)
        ensures
            req.method == LightMethod::Delete,
            req.route == (Route::WebhookWithToken { webhook_id, token }),
            req.body is None,
            req.multipart is None,
            req.extra_headers() == reason_header(audit_log_reason),
            req.params is None,
            req.wf(),
    {
        Request {
            body: None,
            multipart: None,
            headers: reason_headers(audit_log_reason),
            method: LightMethod::Delete,
            route: Route::WebhookWithToken { webhook_id, token },
            params: None,
        }
    }

    /// The request that changes channel information.
    ///
    /// `map` is the serialised payload.
    pub fn edit_channel(
        &self,
        channel_id: ChannelId,
        map: Vec<u8>,
        audit_log_reason: Option<&str>,
    ) -> (req: Request<'static>)
        ensures
            req.method == LightMethod::Patch,
            req.route == (Route::Channel { channel_id }),
            req.body == Some(map),
            req.multipart is None,
            req.extra_headers() == reason_header(audit_log_reason),
            req.params is None,
            req.wf(),
    {
        Request {
            body: Some(map),
            multipart: None,
            headers: reason_headers(audit_log_reason),
            method: LightMethod::Patch,
            route: Route::Channel { channel_id },
            params: None,
        }
    }

    /// The request that edits a stage instance.
    ///
    /// `map` is the serialised payload.
    pub fn edit_stage_instance(
        &self,
        channel_id: ChannelId,
        map: Vec<u8>,
        audit_log_reason: Option<&str>,
    ) -> (req: Request<'static>)
        ensures
            req.method == LightMethod::Patch,
            req.route == (Route::StageInstance { channel_id }),
            req.body == Some(map),
            req.multipart is None,
            req.extra_headers() == reason_header(audit_log_reason),
            req.params is None,
            req.wf(),
    {
        Request {
            body: Some(map),
            multipart: None,
            headers: reason_headers(audit_log_reason),
            method: LightMethod::Patch,
            route: Route::StageInstance { channel_id },
            params: None,
        }
    }

    /// The request that changes guild emoji information.
    ///
    /// `map` is the serialised payload.
    pub fn edit_emoji(
        &self,
        guild_id: GuildId,
        emoji_id: EmojiId,
        map: Vec<u8>,
        audit_log_reason: Option<&str>,
    ) -> (req: Request<'static>)
        ensures
            req.method == LightMethod::Patch,
            req.route == (Route::GuildEmoji { guild_id, emoji_id }),
            req.body == Some(map),
            req.multipart is None,
            req.extra_headers() == reason_header(audit_log_reason),
            req.params is None,
            req.wf(),
    {
        Request {
            body: Some(map),
            multipart: None,
            headers: reason_headers(audit_log_reason),
            method: LightMethod::Patch,
            route: Route::GuildEmoji { guild_id, emoji_id },
            params: None,
        }
    }

    /// The request that changes application emoji information.
    ///
    /// `map` is the serialised payload. Fails if the application id is not
    /// known.
    pub fn edit_application_emoji(
        &self,
        emoji_id: EmojiId,
        map: Vec<u8>,
    ) -> (r: Result<Request<'static>, DispatchError>)
        ensures
            match r {
                Ok(req) => {
                    &&& self.known_application() is Some
                    &&& req.method == LightMethod::Patch
                    &&& req.route == (Route::Emoji {
                        application_id: self.known_application()->0,
                        emoji_id,
                    })
                    &&& req.body == Some(map)
                    &&& req.multipart is None
                    &&& req.headers is None
                    &&& req.params is None
                    &&& req.wf()
                },
                Err(e) => self.known_application() is None && e is PreconditionMissing,
            },
    {
        let application_id = match self.try_application_id() {
            Ok(id) => id,
            Err(e) => return Err(e),
        };
        Ok(Request {
            body: Some(map),
            multipart: None,
            headers: None,
            method: LightMethod::Patch,
            route: Route::Emoji { application_id, emoji_id },
            params: None,
        })
    }

    /// The request that edits a follow-up message for an interaction.
    ///
    /// `map` is the payload as JSON text: without files it is the body, with
    /// files it travels beside them in a multipart body. Fails if the
    /// application id is not known.
    pub fn edit_followup_message<'a>(
        &self,
        interaction_token: &'a str,
        message_id: MessageId,
        map: String,
        new_attachments: Vec<CreateAttachment>,
    ) -> (r: Result<Request<'a>, DispatchError>)
        ensures
            match r {
                Ok(req) => {
                    &&& self.known_application() is Some
                    &&& req.method == LightMethod::Patch
                    &&& req.route == (Route::WebhookFollowupMessage {
                        application_id: self.known_application()->0,
                        token: interaction_token,
                        message_id,
                    })
                    &&& carries_payload(req, new_attachments, map)
                    &&& req.headers is None
                    &&& req.params is None
                    &&& req.wf()
                },
                Err(e) => self.known_application() is None && e is PreconditionMissing,
            },
    {
        let application_id = match self.try_application_id() {
            Ok(id) => id,
            Err(e) => return Err(e),
        };
        let (body, multipart) = payload_with_files(new_attachments, map);
        Ok(Request {
            body,
            multipart,
            headers: None,
            method: LightMethod::Patch,
            route: Route::WebhookFollowupMessage {
                application_id,
                token: interaction_token,
                message_id,
            },
            params: None,
        })
    }

    /// The request that gets a follow-up message for an interaction.
    ///
    /// Fails if the application id is not known.
    pub fn get_followup_message<'a>(
        &self,
        interaction_token: &'a str,
        message_id: MessageId,
    ) -> (r: Result<Request<'a>, DispatchError>)
        ensures
            match r {
                Ok(req) => {
                    &&& self.known_application() is Some
                    &&& req.method == LightMethod::Get
                    &&& req.route == (Route::WebhookFollowupMessage {
                        application_id: self.known_application()->0,
                        token: interaction_token,
                        message_id,
                    })
                    &&& req.body is None
                    &&& req.multipart is None
                    &&& req.headers is None
                    &&& req.params is None
                    &&& req.wf()
                },
                Err(e) => self.known_application() is None && e is PreconditionMissing,
            },
    {
        let application_id = match self.try_application_id() {
            Ok(id) => id,
            Err(e) => return Err(e),
        };
        Ok(Request {
            body: None,
            multipart: None,
            headers: None,
            method: LightMethod::Get,
            route: Route::WebhookFollowupMessage {
                application_id,
                token: interaction_token,
                message_id,
            },
            params: None,
        })
    }

    /// The request that edits a global command.
    ///
    /// `map` is the serialised payload. Fails if the application id is not
    /// known.
    pub fn edit_global_command(
        &self,
        command_id: CommandId,
        map: Vec<u8>,
    ) -> (r: Result<Request<'static>, DispatchError>)
        ensures
            match r {
                Ok(req) => {
                    &&& self.known_application() is Some
                    &&& req.method == LightMethod::Patch
                    &&& req.route == (Route::Command {
                        application_id: self.known_application()->0,
                        command_id,
                    })
                    &&& req.body == Some(map)
                    &&& req.multipart is None
                    &&& req.headers is None
                    &&& req.params is None
                    &&& req.wf()
                },
                Err(e) => self.known_application() is None && e is PreconditionMissing,
            },
    {
        let application_id = match self.try_application_id() {
            Ok(id) => id,
            Err(e) => return Err(e),
        };
        Ok(Request {
            body: Some(map),
            multipart: None,
            headers: None,
            method: LightMethod::Patch,
            route: Route::Command { application_id, command_id },
            params: None,
        })
    }

    /// The request that changes guild information.
    ///
    /// `map` is the serialised payload.
    pub fn edit_guild(
        &self,
        guild_id: GuildId,
        map: Vec<u8>,
        audit_log_reason: Option<&str>,
    ) -> (req: Request<'static>)
        ensures
            req.method == LightMethod::Patch,
            req.route == (Route::Guild { guild_id }),
            req.body == Some(map),
            req.multipart is None,
            req.extra_headers() == reason_header(audit_log_reason),
            req.params is None,
            req.wf(),
    {
        Request {
            body: Some(map),
            multipart: None,
            headers: reason_headers(audit_log_reason),
            method: LightMethod::Patch,
            route: Route::Guild { guild_id },
            params: None,
        }
    }

    /// The request that edits a guild command.
    ///
    /// `map` is the serialised payload. Fails if the application id is not
    /// known.
    pub fn edit_guild_command(
        &self,
        guild_id: GuildId,
        command_id: CommandId,
        map: Vec<u8>,
    ) -> (r: Result<Request<'static>, DispatchError>)
        ensures
            match r {
                Ok(req) => {
                    &&& self.known_application() is Some
                    &&& req.method == LightMethod::Patch
                    &&& req.route == (Route::GuildCommand {
                        application_id: self.known_application()->0,
                        guild_id,
                        command_id,
                    })
                    &&& req.body == Some(map)
                    &&& req.multipart is None
                    &&& req.headers is None
                    &&& req.params is None
                    &&& req.wf()
                },
                Err(e) => self.known_application() is None && e is PreconditionMissing,
            },
    {
        let application_id = match self.try_application_id() {
            Ok(id) => id,
            Err(e) => return Err(e),
        };
        Ok(Request {
            body: Some(map),
            multipart: None,
            headers: None,
            method: LightMethod::Patch,
            route: Route::GuildCommand { application_id, guild_id, command_id },
            params: None,
        })
    }

    /// The request that edits a guild command permissions.
    ///
    /// `map` is the serialised payload. Fails if the application id is not
    /// known.
    pub fn edit_guild_command_permissions(
        &self,
        guild_id: GuildId,
        command_id: CommandId,
        map: Vec<u8>,
    ) -> (r: Result<Request<'static>, DispatchError>)
        ensures
            match r {
                Ok(req) => {
                    &&& self.known_application() is Some
                    &&& req.method == LightMethod::Put
                    &&& req.route == (Route::GuildCommandPermissions {
                        application_id: self.known_application()->0,
                        guild_id,
                        command_id,
                    })
                    &&& req.body == Some(map)
                    &&& req.multipart is None
                    &&& req.headers is None
                    &&& req.params is None
                    &&& req.wf()
                },
                Err(e) => self.known_application() is None && e is PreconditionMissing,
            },
    {
        let application_id = match self.try_application_id() {
            Ok(id) => id,
            Err(e) => return Err(e),
        };
        Ok(Request {
            body: Some(map),
            multipart: None,
            headers: None,
            method: LightMethod::Put,
            route: Route::GuildCommandPermissions { application_id, guild_id, command_id },
            params: None,
        })
    }

    /// The request that edits the positions of a guild's channels.
    ///
    /// `value` is the serialised payload. The response is expected to have no
    /// content.
    pub fn edit_guild_channel_positions(
        &self,
        guild_id: GuildId,
        value: Vec<u8>,
    ) -> (req: Request<'static>)
        ensures
            req.method == LightMethod::Patch,
            req.route == (Route::GuildChannels { guild_id }),
            req.body == Some(value),
            req.multipart is None,
            req.headers is None,
            req.params is None,
            req.wf(),
    {
        Request {
            body: Some(value),
            multipart: None,
            headers: None,
            method: LightMethod::Patch,
            route: Route::GuildChannels { guild_id },
            params: None,
        }
    }

    /// The request that edits the MFA level of a guild.
    ///
    /// `value` is the serialised payload.
    pub fn edit_guild_mfa_level(
        &self,
        guild_id: GuildId,
        value: Vec<u8>,
        audit_log_reason: Option<&str>,
    ) -> (req: Request<'static>)
        ensures
            req.method == LightMethod::Post,
            req.route == (Route::GuildMfa { guild_id }),
            req.body == Some(value),
            req.multipart is None,
            req.extra_headers() == reason_header(audit_log_reason),
            req.params is None,
            req.wf(),
    {
        Request {
            body: Some(value),
            multipart: None,
            headers: reason_headers(audit_log_reason),
            method: LightMethod::Post,
            route: Route::GuildMfa { guild_id },
            params: None,
        }
    }

    /// The request that edits a guild's widget.
    ///
    /// `map` is the serialised payload.
    pub fn edit_guild_widget(
        &self,
        guild_id: GuildId,
        map: Vec<u8>,
        audit_log_reason: Option<&str>,
    ) -> (req: Request<'static>)
        ensures
            req.method == LightMethod::Patch,
            req.route == (Route::GuildWidget { guild_id }),
            req.body == Some(map),
            req.multipart is None,
            req.extra_headers() == reason_header(audit_log_reason),
            req.params is None,
            req.wf(),
    {
        Request {
            body: Some(map),
            multipart: None,
            headers: reason_headers(audit_log_reason),
            method: LightMethod::Patch,
            route: Route::GuildWidget { guild_id },
            params: None,
        }
    }

    /// The request that edits a guild welcome screen.
    ///
    /// `map` is the serialised payload.
    pub fn edit_guild_welcome_screen(
        &self,
        guild_id: GuildId,
        map: Vec<u8>,
        audit_log_reason: Option<&str>,
    ) -> (req: Request<'static>)
        ensures
            req.method == LightMethod::Patch,
            req.route == (Route::GuildWelcomeScreen { guild_id }),
            req.body == Some(map),
            req.multipart is None,
            req.extra_headers() == reason_header(audit_log_reason),
            req.params is None,
            req.wf(),
    {
        Request {
            body: Some(map),
            multipart: None,
            headers: reason_headers(audit_log_reason),
            method: LightMethod::Patch,
            route: Route::GuildWelcomeScreen { guild_id },
            params: None,
        }
    }

    /// The request that does specific actions to a member.
    ///
    /// `map` is the serialised payload. The object in the response does not
    /// name its guild; [`Http::with_guild_id`] puts it in before the object is
    /// decoded.
    pub fn edit_member(
        &self,
        guild_id: GuildId,
        user_id: UserId,
        map: Vec<u8>,
        audit_log_reason: Option<&str>,
    ) -> (req: Request<'static>)
        ensures
            req.method == LightMethod::Patch,
            req.route == (Route::GuildMember { guild_id, user_id }),
            req.body == Some(map),
            req.multipart is None,
            req.extra_headers() == reason_header(audit_log_reason),
            req.params is None,
            req.wf(),
    {
        Request {
            body: Some(map),
            multipart: None,
            headers: reason_headers(audit_log_reason),
            method: LightMethod::Patch,
            route: Route::GuildMember { guild_id, user_id },
            params: None,
        }
    }

    /// The request that edits a message by id.
    ///
    /// `map` is the payload as JSON text: without files it is the body, with
    /// files it travels beside them in a multipart body.
    pub fn edit_message(
        &self,
        channel_id: ChannelId,
        message_id: MessageId,
        map: String,
        new_attachments: Vec<CreateAttachment>,
    ) -> (req: Request<'static>)
        ensures
            req.method == LightMethod::Patch,
            req.route == (Route::ChannelMessage { channel_id, message_id }),
            carries_payload(req, new_attachments, map),
            req.headers is None,
            req.params is None,
            req.wf(),
    {
        let (body, multipart) = payload_with_files(new_attachments, map);
        Request {
            body,
            multipart,
            headers: None,
            method: LightMethod::Patch,
            route: Route::ChannelMessage { channel_id, message_id },
            params: None,
        }
    }

    /// The request that crossposts a message by id.
    pub fn crosspost_message(
        &self,
        channel_id: ChannelId,
        message_id: MessageId,
    ) -> (req: Request<'static>)
        ensures
            req.method == LightMethod::Post,
            req.route == (Route::ChannelMessageCrosspost { channel_id, message_id }),
            req.body is None,
            req.multipart is None,
            req.headers is None,
            req.params is None,
            req.wf(),
    {
        Request {
            body: None,
            multipart: None,
            headers: None,
            method: LightMethod::Post,
            route: Route::ChannelMessageCrosspost { channel_id, message_id },
            params: None,
        }
    }

    /// The request that edits the current member for the provided guild via its
    /// id.
    ///
    /// `map` is the serialised payload.
    pub fn edit_member_me(
        &self,
        guild_id: GuildId,
        map: Vec<u8>,
        audit_log_reason: Option<&str>,
    ) -> (req: Request<'static>)
        ensures
            req.method == LightMethod::Patch,
            req.route == (Route::GuildMemberMe { guild_id }),
            req.body == Some(map),
            req.multipart is None,
            req.extra_headers() == reason_header(audit_log_reason),
            req.params is None,
            req.wf(),
    {
        Request {
            body: Some(map),
            multipart: None,
            headers: reason_headers(audit_log_reason),
            method: LightMethod::Patch,
            route: Route::GuildMemberMe { guild_id },
            params: None,
        }
    }

    /// The request that edits the current member for the provided guild via its
    /// id.
    ///
    /// `map` is the serialised payload.
    pub fn edit_current_member(
        &self,
        guild_id: GuildId,
        map: Vec<u8>,
        audit_log_reason: Option<&str>,
    ) -> (req: Request<'static>)
        ensures
            req.method == LightMethod::Patch,
            req.route == (Route::GuildMemberMe { guild_id }),
            req.body == Some(map),
            req.multipart is None,
            req.extra_headers() == reason_header(audit_log_reason),
            req.params is None,
            req.wf(),
    {
        Request {
            body: Some(map),
            multipart: None,
            headers: reason_headers(audit_log_reason),
            method: LightMethod::Patch,
            route: Route::GuildMemberMe { guild_id },
            params: None,
        }
    }

    /// The request that follows a News channel to send messages to a target
    /// channel.
    ///
    /// `map` is the serialised payload.
    pub fn follow_news_channel(
        &self,
        news_channel_id: ChannelId,
        map: Vec<u8>,
    ) -> (req: Request<'static>)
        ensures
            req.method == LightMethod::Post,
            req.route == (Route::ChannelFollowNews { channel_id: news_channel_id }),
            req.body == Some(map),
            req.multipart is None,
            req.headers is None,
            req.params is None,
            req.wf(),
    {
        Request {
            body: Some(map),
            multipart: None,
            headers: None,
            method: LightMethod::Post,
            route: Route::ChannelFollowNews { channel_id: news_channel_id },
            params: None,
        }
    }

    /// The request that gets the initial interaction response.
    ///
    /// Fails if the application id is not known.
    pub fn get_original_interaction_response<'a>(
        &self,
        interaction_token: &'a str,
    ) -> (r: Result<Request<'a>, DispatchError>)
        ensures
            match r {
                Ok(req) => {
                    &&& self.known_application() is Some
                    &&& req.method == LightMethod::Get
                    &&& req.route == (Route::WebhookOriginalInteractionResponse {
                        application_id: self.known_application()->0,
                        token: interaction_token,
                    })
                    &&& req.body is None
                    &&& req.multipart is None
                    &&& req.headers is None
                    &&& req.params is None
                    &&& req.wf()
                },
                Err(e) => self.known_application() is None && e is PreconditionMissing,
            },
    {
        let application_id = match self.try_application_id() {
            Ok(id) => id,
            Err(e) => return Err(e),
        };
        Ok(Request {
            body: None,
            multipart: None,
            headers: None,
            method: LightMethod::Get,
            route: Route::WebhookOriginalInteractionResponse {
                application_id,
                token: interaction_token,
            },
            params: None,
        })
    }

    /// The request that edits the initial interaction response.
    ///
    /// `map` is the payload as JSON text: without files it is the body, with
    /// files it travels beside them in a multipart body. Fails if the
    /// application id is not known.
    pub fn edit_original_interaction_response<'a>(
        &self,
        interaction_token: &'a str,
        map: String,
        new_attachments: Vec<CreateAttachment>,
    ) -> (r: Result<Request<'a>, DispatchError>)
        ensures
            match r {
                Ok(req) => {
                    &&& self.known_application() is Some
                    &&& req.method == LightMethod::Patch
                    &&& req.route == (Route::WebhookOriginalInteractionResponse {
                        application_id: self.known_application()->0,
                        token: interaction_token,
                    })
                    &&& carries_payload(req, new_attachments, map)
                    &&& req.headers is None
                    &&& req.params is None
                    &&& req.wf()
                },
                Err(e) => self.known_application() is None && e is PreconditionMissing,
            },
    {
        let application_id = match self.try_application_id() {
            Ok(id) => id,
            Err(e) => return Err(e),
        };
        let (body, multipart) = payload_with_files(new_attachments, map);
        Ok(Request {
            body,
            multipart,
            headers: None,
            method: LightMethod::Patch,
            route: Route::WebhookOriginalInteractionResponse {
                application_id,
                token: interaction_token,
            },
            params: None,
        })
    }

    /// The request that edits the current user's profile settings.
    ///
    /// `map` is the serialised payload.
    pub fn edit_profile(&self, map: Vec<u8>) -> (req: Request<'static>)
        ensures
            req.method == LightMethod::Patch,
            req.route == Route::UserMe,
            req.body == Some(map),
            req.multipart is None,
            req.headers is None,
            req.params is None,
            req.wf(),
    {
        Request {
            body: Some(map),
            multipart: None,
            headers: None,
            method: LightMethod::Patch,
            route: Route::UserMe,
            params: None,
        }
    }

    /// The request that changes a role in a guild.
    ///
    /// `map` is the serialised payload. The object in the response does not
    /// name its guild; [`Http::with_guild_id`] puts it in before the object is
    /// decoded.
    pub fn edit_role(
        &self,
        guild_id: GuildId,
        role_id: RoleId,
        map: Vec<u8>,
        audit_log_reason: Option<&str>,
    ) -> (req: Request<'static>)
        ensures
            req.method == LightMethod::Patch,
            req.route == (Route::GuildRole { guild_id, role_id }),
            req.body == Some(map),
            req.multipart is None,
            req.extra_headers() == reason_header(audit_log_reason),
            req.params is None,
            req.wf(),
    {
        Request {
            body: Some(map),
            multipart: None,
            headers: reason_headers(audit_log_reason),
            method: LightMethod::Patch,
            route: Route::GuildRole { guild_id, role_id },
            params: None,
        }
    }

    /// The request that changes the positions of roles in a guild.
    ///
    /// `positions` is the serialised payload. The objects in the response do
    /// not name their guild; [`Http::with_guild_id_in_each`] puts it in before
    /// they are decoded.
    pub fn edit_role_positions(
        &self,
        guild_id: GuildId,
        positions: Vec<u8>,
        audit_log_reason: Option<&str>,
    ) -> (req: Request<'static>)
        ensures
            req.method == LightMethod::Patch,
            req.route == (Route::GuildRoles { guild_id }),
            req.body == Some(positions),
            req.multipart is None,
            req.extra_headers() == reason_header(audit_log_reason),
            req.params is None,
            req.wf(),
    {
        Request {
            body: Some(positions),
            multipart: None,
            headers: reason_headers(audit_log_reason),
            method: LightMethod::Patch,
            route: Route::GuildRoles { guild_id },
            params: None,
        }
    }

    /// The request that modifies a scheduled event.
    ///
    /// `map` is the serialised payload.
    pub fn edit_scheduled_event(
        &self,
        guild_id: GuildId,
        event_id: ScheduledEventId,
        map: Vec<u8>,
        audit_log_reason: Option<&str>,
    ) -> (req: Request<'static>)
        ensures
            req.method == LightMethod::Patch,
            req.route == (Route::GuildScheduledEvent { guild_id, event_id }),
            req.body == Some(map),
            req.multipart is None,
            req.extra_headers() == reason_header(audit_log_reason),
            req.params is None,
            req.wf(),
    {
        Request {
            body: Some(map),
            multipart: None,
            headers: reason_headers(audit_log_reason),
            method: LightMethod::Patch,
            route: Route::GuildScheduledEvent { guild_id, event_id },
            params: None,
        }
    }

    /// The request that changes a sticker in a guild.
    ///
    /// `map` is the serialised payload. The object in the response does not
    /// name its guild; [`Http::with_guild_id`] puts it in before the object is
    /// decoded.
    pub fn edit_sticker(
        &self,
        guild_id: GuildId,
        sticker_id: StickerId,
        map: Vec<u8>,
        audit_log_reason: Option<&str>,
    ) -> (req: Request<'static>)
        ensures
            req.method == LightMethod::Patch,
            req.route == (Route::GuildSticker { guild_id, sticker_id }),
            req.body == Some(map),
            req.multipart is None,
            req.extra_headers() == reason_header(audit_log_reason),
            req.params is None,
            req.wf(),
    {
        Request {
            body: Some(map),
            multipart: None,
            headers: reason_headers(audit_log_reason),
            method: LightMethod::Patch,
            route: Route::GuildSticker { guild_id, sticker_id },
            params: None,
        }
    }

    /// The request that edits a thread channel in the guild channel given its
    /// id.
    ///
    /// `map` is the serialised payload.
    pub fn edit_thread(
        &self,
        channel_id: ChannelId,
        map: Vec<u8>,
        audit_log_reason: Option<&str>,
    ) -> (req: Request<'static>)
        ensures
            req.method == LightMethod::Patch,
            req.route == (Route::Channel { channel_id }),
            req.body == Some(map),
            req.multipart is None,
            req.extra_headers() == reason_header(audit_log_reason),
            req.params is None,
            req.wf(),
    {
        Request {
            body: Some(map),
            multipart: None,
            headers: reason_headers(audit_log_reason),
            method: LightMethod::Patch,
            route: Route::Channel { channel_id },
            params: None,
        }
    }

    /// The request that changes another user's voice state in a stage channel.
    ///
    /// `map` is the serialised payload. The response is expected to have no
    /// content.
    pub fn edit_voice_state(
        &self,
        guild_id: GuildId,
        user_id: UserId,
        map: Vec<u8>,
    ) -> (req: Request<'static>)
        ensures
            req.method == LightMethod::Patch,
            req.route == (Route::GuildVoiceStates { guild_id, user_id }),
            req.body == Some(map),
            req.multipart is None,
            req.headers is None,
            req.params is None,
            req.wf(),
    {
        Request {
            body: Some(map),
            multipart: None,
            headers: None,
            method: LightMethod::Patch,
            route: Route::GuildVoiceStates { guild_id, user_id },
            params: None,
        }
    }

    /// The request that changes the current user's voice state in a stage
    /// channel.
    ///
    /// `map` is the serialised payload. The response is expected to have no
    /// content.
    pub fn edit_voice_state_me(&self, guild_id: GuildId, map: Vec<u8>) -> (req: Request<'static>)
        ensures
            req.method == LightMethod::Patch,
            req.route == (Route::GuildVoiceStateMe { guild_id }),
            req.body == Some(map),
            req.multipart is None,
            req.headers is None,
            req.params is None,
            req.wf(),
    {
        Request {
            body: Some(map),
            multipart: None,
            headers: None,
            method: LightMethod::Patch,
            route: Route::GuildVoiceStateMe { guild_id },
            params: None,
        }
    }

    /// The request that changes a voice channel's status.
    ///
    /// `map` is the serialised payload. The response is expected to have no
    /// content.
    pub fn edit_voice_status(
        &self,
        channel_id: ChannelId,
        map: Vec<u8>,
        audit_log_reason: Option<&str>,
    ) -> (req: Request<'static>)
        ensures
            req.method == LightMethod::Put,
            req.route == (Route::ChannelVoiceStatus { channel_id }),
            req.body == Some(map),
            req.multipart is None,
            req.extra_headers() == reason_header(audit_log_reason),
            req.params is None,
            req.wf(),
    {
        Request {
            body: Some(map),
            multipart: None,
            headers: reason_headers(audit_log_reason),
            method: LightMethod::Put,
            route: Route::ChannelVoiceStatus { channel_id },
            params: None,
        }
    }

    /// The request that edits the webhook with the given data.
    ///
    /// `map` is the serialised payload.
    pub fn edit_webhook(
        &self,
        webhook_id: WebhookId,
        map: Vec<u8>,
        audit_log_reason: Option<&str>,
    ) -> (req: Request<'static>)
        ensures
            req.method == LightMethod::Patch,
            req.route == (Route::Webhook { webhook_id }),
            req.body == Some(map),
            req.multipart is None,
            req.extra_headers() == reason_header(audit_log_reason),
            req.params is None,
            req.wf(),
    {
        Request {
            body: Some(map),
            multipart: None,
            headers: reason_headers(audit_log_reason),
            method: LightMethod::Patch,
            route: Route::Webhook { webhook_id },
            params: None,
        }
    }

    /// The request that edits the webhook with the given data.
    ///
    /// `map` is the serialised payload.
    pub fn edit_webhook_with_token<'a>(
        &self,
        webhook_id: WebhookId,
        token: &'a str,
        map: Vec<u8>,
        audit_log_reason: Option<&str>,
    ) -> (req: Request<'a>)
        ensures
            req.method == LightMethod::Patch,
            req.route == (Route::WebhookWithToken { webhook_id, token }),
            req.body == Some(map),
            req.multipart is None,
            req.extra_headers() == reason_header(audit_log_reason),
            req.params is None,
            req.wf(),
    {
        Request {
            body: Some(map),
            multipart: None,
            headers: reason_headers(audit_log_reason),
            method: LightMethod::Patch,
            route: Route::WebhookWithToken { webhook_id, token },
            params: None,
        }
    }

    /// The request that executes a webhook, posting a message in the webhook's
    /// associated channel.
    ///
    /// `map` is the payload as JSON text: without files it is the body, with
    /// files it travels beside them in a multipart body. The response has no
    /// content unless `wait` is set.
    pub fn execute_webhook<'a>(
        &self,
        webhook_id: WebhookId,
        thread_id: Option<ChannelId>,
        token: &'a str,
        wait: bool,
        files: Vec<CreateAttachment>,
        map: String,
    ) -> (req: Request<'a>)
        ensures
            req.method == LightMethod::Post,
            req.route == (Route::WebhookWithToken { webhook_id, token }),
            carries_payload(req, files, map),
            req.headers is None,
            req.query() == Some(
                seq![("wait"@, truth(wait))] + optional_pair(
                    "thread_id"@,
                    match thread_id {
                        Some(v) => Some(decimal(v.0 as nat)),
                        None => None,
                    },
                ),
            ),
            req.wf(),
    {
        let mut params = params_new();
        params_push(&mut params, "wait", truth_text(wait));
        if let Some(v) = thread_id {
            params_push(&mut params, "thread_id", decimal_u64(v.get()));
        }
        let params = Some(params);
        let (body, multipart) = payload_with_files(files, map);
        let req = Request {
            body,
            multipart,
            headers: None,
            method: LightMethod::Post,
            route: Route::WebhookWithToken { webhook_id, token },
            params,
        };
        assert(req.query()->0 =~= seq![("wait"@, truth(wait))] + optional_pair(
                "thread_id"@,
                match thread_id {
                    Some(v) => Some(decimal(v.0 as nat)),
                    None => None,
                },
            ));
        req
    }

    /// The request that gets a webhook's message by id.
    pub fn get_webhook_message<'a>(
        &self,
        webhook_id: WebhookId,
        thread_id: Option<ChannelId>,
        token: &'a str,
        message_id: MessageId,
    ) -> (req: Request<'a>)
        ensures
            req.method == LightMethod::Get,
            req.route == (Route::WebhookMessage { webhook_id, token, message_id }),
            req.body is None,
            req.multipart is None,
            req.headers is None,
            req.query() == match thread_id {
                Some(v) => Some(seq![("thread_id"@, decimal(v.0 as nat))]),
                None => None,
            },
            req.wf(),
    {
        let params = match thread_id {
            Some(v) => {
                let mut params = params_new();
                params_push(&mut params, "thread_id", decimal_u64(v.get()));
                Some(params)
            },
            None => None,
        };
        Request {
            body: None,
            multipart: None,
            headers: None,
            method: LightMethod::Get,
            route: Route::WebhookMessage { webhook_id, token, message_id },
            params,
        }
    }

    /// The request that edits a webhook's message by id.
    ///
    /// `map` is the payload as JSON text: without files it is the body, with
    /// files it travels beside them in a multipart body.
    pub fn edit_webhook_message<'a>(
        &self,
        webhook_id: WebhookId,
        thread_id: Option<ChannelId>,
        token: &'a str,
        message_id: MessageId,
        map: String,
        new_attachments: Vec<CreateAttachment>,
    ) -> (req: Request<'a>)
        ensures
            req.method == LightMethod::Patch,
            req.route == (Route::WebhookMessage { webhook_id, token, message_id }),
            carries_payload(req, new_attachments, map),
            req.headers is None,
            req.query() == match thread_id {
                Some(v) => Some(seq![("thread_id"@, decimal(v.0 as nat))]),
                None => None,
            },
            req.wf(),
    {
        let params = match thread_id {
            Some(v) => {
                let mut params = params_new();
                params_push(&mut params, "thread_id", decimal_u64(v.get()));
                Some(params)
            },
            None => None,
        };
        let (body, multipart) = payload_with_files(new_attachments, map);
        Request {
            body,
            multipart,
            headers: None,
            method: LightMethod::Patch,
            route: Route::WebhookMessage { webhook_id, token, message_id },
            params,
        }
    }

    /// The request that deletes a webhook's message by id.
    ///
    /// The response is expected to have no content.
    pub fn delete_webhook_message<'a>(
        &self,
        webhook_id: WebhookId,
        thread_id: Option<ChannelId>,
        token: &'a str,
        message_id: MessageId,
    ) -> (req: Request<'a>)
        ensures
            req.method == LightMethod::Delete,
            req.route == (Route::WebhookMessage { webhook_id, token, message_id }),
            req.body is None,
            req.multipart is None,
            req.headers is None,
            req.query() == match thread_id {
                Some(v) => Some(seq![("thread_id"@, decimal(v.0 as nat))]),
                None => None,
            },
            req.wf(),
    {
        let params = match thread_id {
            Some(v) => {
                let mut params = params_new();
                params_push(&mut params, "thread_id", decimal_u64(v.get()));
                Some(params)
            },
            None => None,
        };
        Request {
            body: None,
            multipart: None,
            headers: None,
            method: LightMethod::Delete,
            route: Route::WebhookMessage { webhook_id, token, message_id },
            params,
        }
    }

    /// The request that gets the active maintenances from Discord's Status API.
    pub fn get_active_maintenances(&self) -> (req: Request<'static>)
        ensures
            req.method == LightMethod::Get,
            req.route == Route::StatusMaintenancesActive,
            req.body is None,
            req.multipart is None,
            req.headers is None,
            req.params is None,
            req.wf(),
    {
        Request {
            body: None,
            multipart: None,
            headers: None,
            method: LightMethod::Get,
            route: Route::StatusMaintenancesActive,
            params: None,
        }
    }

    /// The request that gets all the users that are banned in specific guild,
    /// with additional options for filtering.
    pub fn get_bans(
        &self,
        guild_id: GuildId,
        target: Option<UserPagination>,
        limit: Option<NonMaxU16>,
    ) -> (req: Request<'static>)
        ensures
            req.method == LightMethod::Get,
            req.route == (Route::GuildBans { guild_id }),
            req.body is None,
            req.multipart is None,
            req.headers is None,
            req.query() == Some(
                optional_pair(
                    "limit"@,
                    match limit {
                        Some(v) => Some(decimal(u16_of(v) as nat)),
                        None => None,
                    },
                ) + (match target {
                    Some(t) => seq![(t.key(), decimal(t.id() as nat))],
                    None => Seq::empty(),
                }),
            ),
            req.wf(),
    {
        let mut params = params_new();
        if let Some(v) = limit {
            params_push(&mut params, "limit", decimal_u64(v.get() as u64));
        }
        if let Some(t) = target {
            let (name, id) = t.parts();
            params_push(&mut params, name, decimal_u64(id));
        }
        let params = Some(params);
        let req = Request {
            body: None,
            multipart: None,
            headers: None,
            method: LightMethod::Get,
            route: Route::GuildBans { guild_id },
            params,
        };
        assert(req.query()->0 =~= optional_pair(
                "limit"@,
                match limit {
                    Some(v) => Some(decimal(u16_of(v) as nat)),
                    None => None,
                },
            ) + (match target {
                Some(t) => seq![(t.key(), decimal(t.id() as nat))],
                None => Seq::empty(),
            }));
        req
    }

    /// The request that gets all audit logs in a specific guild.
    pub fn get_audit_logs(
        &self,
        guild_id: GuildId,
        action_type: Option<Action>,
        user_id: Option<UserId>,
        before: Option<AuditLogEntryId>,
        limit: Option<NonMaxU8>,
    ) -> (req: Request<'static>)
        ensures
            req.method == LightMethod::Get,
            req.route == (Route::GuildAuditLogs { guild_id }),
            req.body is None,
            req.multipart is None,
            req.headers is None,
            req.query() == Some(
                optional_pair(
                    "action_type"@,
                    match action_type {
                        Some(v) => Some(decimal(v.0 as nat)),
                        None => None,
                    },
                ) + optional_pair(
                    "before"@,
                    match before {
                        Some(v) => Some(decimal(v.0 as nat)),
                        None => None,
                    },
                ) + optional_pair(
                    "limit"@,
                    match limit {
                        Some(v) => Some(decimal(u8_of(v) as nat)),
                        None => None,
                    },
                ) + optional_pair(
                    "user_id"@,
                    match user_id {
                        Some(v) => Some(decimal(v.0 as nat)),
                        None => None,
                    },
                ),
            ),
            req.wf(),
    {
        let mut params = params_new();
        if let Some(v) = action_type {
            params_push(&mut params, "action_type", decimal_u64(v.num() as u64));
        }
        if let Some(v) = before {
            params_push(&mut params, "before", decimal_u64(v.get()));
        }
        if let Some(v) = limit {
            params_push(&mut params, "limit", decimal_u64(v.get() as u64));
        }
        if let Some(v) = user_id {
            params_push(&mut params, "user_id", decimal_u64(v.get()));
        }
        let params = Some(params);
        let req = Request {
            body: None,
            multipart: None,
            headers: None,
            method: LightMethod::Get,
            route: Route::GuildAuditLogs { guild_id },
            params,
        };
        assert(req.query()->0 =~= optional_pair(
                "action_type"@,
                match action_type {
                    Some(v) => Some(decimal(v.0 as nat)),
                    None => None,
                },
            ) + optional_pair(
                "before"@,
                match before {
                    Some(v) => Some(decimal(v.0 as nat)),
                    None => None,
                },
            ) + optional_pair(
                "limit"@,
                match limit {
                    Some(v) => Some(decimal(u8_of(v) as nat)),
                    None => None,
                },
            ) + optional_pair(
                "user_id"@,
                match user_id {
                    Some(v) => Some(decimal(v.0 as nat)),
                    None => None,
                },
            ));
        req
    }

    /// The request that retrieves all auto moderation rules in a guild.
    pub fn get_automod_rules(&self, guild_id: GuildId) -> (req: Request<'static>)
        ensures
            req.method == LightMethod::Get,
            req.route == (Route::GuildAutomodRules { guild_id }),
            req.body is None,
            req.multipart is None,
            req.headers is None,
            req.params is None,
            req.wf(),
    {
        Request {
            body: None,
            multipart: None,
            headers: None,
            method: LightMethod::Get,
            route: Route::GuildAutomodRules { guild_id },
            params: None,
        }
    }

    /// The request that retrieves an auto moderation rule in a guild.
    pub fn get_automod_rule(&self, guild_id: GuildId, rule_id: RuleId) -> (req: Request<'static>)
        ensures
            req.method == LightMethod::Get,
            req.route == (Route::GuildAutomodRule { guild_id, rule_id }),
            req.body is None,
            req.multipart is None,
            req.headers is None,
            req.params is None,
            req.wf(),
    {
        Request {
            body: None,
            multipart: None,
            headers: None,
            method: LightMethod::Get,
            route: Route::GuildAutomodRule { guild_id, rule_id },
            params: None,
        }
    }

    /// The request that creates an auto moderation rule in a guild.
    ///
    /// `map` is the serialised payload.
    pub fn create_automod_rule(
        &self,
        guild_id: GuildId,
        map: Vec<u8>,
        audit_log_reason: Option<&str>,
    ) -> (req: Request<'static>)
        ensures
            req.method == LightMethod::Post,
            req.route == (Route::GuildAutomodRules { guild_id }),
            req.body == Some(map),
            req.multipart is None,
            req.extra_headers() == reason_header(audit_log_reason),
            req.params is None,
            req.wf(),
    {
        Request {
            body: Some(map),
            multipart: None,
            headers: reason_headers(audit_log_reason),
            method: LightMethod::Post,
            route: Route::GuildAutomodRules { guild_id },
            params: None,
        }
    }

    /// The request that retrieves an auto moderation rule in a guild.
    ///
    /// `map` is the serialised payload.
    pub fn edit_automod_rule(
        &self,
        guild_id: GuildId,
        rule_id: RuleId,
        map: Vec<u8>,
        audit_log_reason: Option<&str>,
    ) -> (req: Request<'static>)
        ensures
            req.method == LightMethod::Patch,
            req.route == (Route::GuildAutomodRule { guild_id, rule_id }),
            req.body == Some(map),
            req.multipart is None,
            req.extra_headers() == reason_header(audit_log_reason),
            req.params is None,
            req.wf(),
    {
        Request {
            body: Some(map),
            multipart: None,
            headers: reason_headers(audit_log_reason),
            method: LightMethod::Patch,
            route: Route::GuildAutomodRule { guild_id, rule_id },
            params: None,
        }
    }

    /// The request that deletes an auto moderation rule in a guild.
    ///
    /// The response is expected to have no content.
    pub fn delete_automod_rule(
        &self,
        guild_id: GuildId,
        rule_id: RuleId,
        audit_log_reason: Option<&str>,
    ) -> (req: Request<'static>)
        ensures
            req.method == LightMethod::Delete,
            req.route == (Route::GuildAutomodRule { guild_id, rule_id }),
            req.body is None,
            req.multipart is None,
            req.extra_headers() == reason_header(audit_log_reason),
            req.params is None,
            req.wf(),
    {
        Request {
            body: None,
            multipart: None,
            headers: reason_headers(audit_log_reason),
            method: LightMethod::Delete,
            route: Route::GuildAutomodRule { guild_id, rule_id },
            params: None,
        }
    }

    /// The request that gets current bot gateway.
    pub fn get_bot_gateway(&self) -> (req: Request<'static>)
        ensures
            req.method == LightMethod::Get,
            req.route == Route::GatewayBot,
            req.body is None,
            req.multipart is None,
            req.headers is None,
            req.params is None,
            req.wf(),
    {
        Request {
            body: None,
            multipart: None,
            headers: None,
            method: LightMethod::Get,
            route: Route::GatewayBot,
            params: None,
        }
    }

    /// The request that gets all invites for a channel.
    pub fn get_channel_invites(&self, channel_id: ChannelId) -> (req: Request<'static>)
        ensures
            req.method == LightMethod::Get,
            req.route == (Route::ChannelInvites { channel_id }),
            req.body is None,
            req.multipart is None,
            req.headers is None,
            req.params is None,
            req.wf(),
    {
        Request {
            body: None,
            multipart: None,
            headers: None,
            method: LightMethod::Get,
            route: Route::ChannelInvites { channel_id },
            params: None,
        }
    }

    /// The request that gets all thread members for a thread.
    pub fn get_channel_thread_members(&self, channel_id: ChannelId) -> (req: Request<'static>)
        ensures
            req.method == LightMethod::Get,
            req.route == (Route::ChannelThreadMembers { channel_id }),
            req.body is None,
            req.multipart is None,
            req.headers is None,
            req.params is None,
            req.wf(),
    {
        Request {
            body: None,
            multipart: None,
            headers: None,
            method: LightMethod::Get,
            route: Route::ChannelThreadMembers { channel_id },
            params: None,
        }
    }

    /// The request that gets all active threads from a guild.
    pub fn get_guild_active_threads(&self, guild_id: GuildId) -> (req: Request<'static>)
        ensures
            req.method == LightMethod::Get,
            req.route == (Route::GuildThreadsActive { guild_id }),
            req.body is None,
            req.multipart is None,
            req.headers is None,
            req.params is None,
            req.wf(),
    {
        Request {
            body: None,
            multipart: None,
            headers: None,
            method: LightMethod::Get,
            route: Route::GuildThreadsActive { guild_id },
            params: None,
        }
    }

    /// The request that gets all archived public threads from a channel.
    ///
    /// `before` is a timestamp in the form that the API reads.
    pub fn get_channel_archived_public_threads(
        &self,
        channel_id: ChannelId,
        before: Option<&str>,
        limit: Option<u64>,
    ) -> (req: Request<'static>)
        ensures
            req.method == LightMethod::Get,
            req.route == (Route::ChannelArchivedPublicThreads { channel_id }),
            req.body is None,
            req.multipart is None,
            req.headers is None,
            req.query() == Some(
                optional_pair(
                    "before"@,
                    match before {
                        Some(v) => Some(v@),
                        None => None,
                    },
                ) + optional_pair(
                    "limit"@,
                    match limit {
                        Some(v) => Some(decimal(v as nat)),
                        None => None,
                    },
                ),
            ),
            req.wf(),
    {
        let mut params = params_new();
        if let Some(v) = before {
            params_push(&mut params, "before", String::from_str(v));
        }
        if let Some(v) = limit {
            params_push(&mut params, "limit", decimal_u64(v));
        }
        let params = Some(params);
        let req = Request {
            body: None,
            multipart: None,
            headers: None,
            method: LightMethod::Get,
            route: Route::ChannelArchivedPublicThreads { channel_id },
            params,
        };
        assert(req.query()->0 =~= optional_pair(
                "before"@,
                match before {
                    Some(v) => Some(v@),
                    None => None,
                },
            ) + optional_pair(
                "limit"@,
                match limit {
                    Some(v) => Some(decimal(v as nat)),
                    None => None,
                },
            ));
        req
    }

    /// The request that gets all archived private threads from a channel.
    ///
    /// `before` is a timestamp in the form that the API reads.
    pub fn get_channel_archived_private_threads(
        &self,
        channel_id: ChannelId,
        before: Option<&str>,
        limit: Option<u64>,
    ) -> (req: Request<'static>)
        ensures
            req.method == LightMethod::Get,
            req.route == (Route::ChannelArchivedPrivateThreads { channel_id }),
            req.body is None,
            req.multipart is None,
            req.headers is None,
            req.query() == Some(
                optional_pair(
                    "before"@,
                    match before {
                        Some(v) => Some(v@),
                        None => None,
                    },
                ) + optional_pair(
                    "limit"@,
                    match limit {
                        Some(v) => Some(decimal(v as nat)),
                        None => None,
                    },
                ),
            ),
            req.wf(),
    {
        let mut params = params_new();
        if let Some(v) = before {
            params_push(&mut params, "before", String::from_str(v));
        }
        if let Some(v) = limit {
            params_push(&mut params, "limit", decimal_u64(v));
        }
        let params = Some(params);
        let req = Request {
            body: None,
            multipart: None,
            headers: None,
            method: LightMethod::Get,
            route: Route::ChannelArchivedPrivateThreads { channel_id },
            params,
        };
        assert(req.query()->0 =~= optional_pair(
                "before"@,
                match before {
                    Some(v) => Some(v@),
                    None => None,
                },
            ) + optional_pair(
                "limit"@,
                match limit {
                    Some(v) => Some(decimal(v as nat)),
                    None => None,
                },
            ));
        req
    }

    /// The request that gets all archived private threads joined from a
    /// channel.
    pub fn get_channel_joined_archived_private_threads(
        &self,
        channel_id: ChannelId,
        before: Option<ChannelId>,
        limit: Option<u64>,
    ) -> (req: Request<'static>)
        ensures
            req.method == LightMethod::Get,
            req.route == (Route::ChannelJoinedPrivateThreads { channel_id }),
            req.body is None,
            req.multipart is None,
            req.headers is None,
            req.query() == Some(
                optional_pair(
                    "before"@,
                    match before {
                        Some(v) => Some(decimal(v.0 as nat)),
                        None => None,
                    },
                ) + optional_pair(
                    "limit"@,
                    match limit {
                        Some(v) => Some(decimal(v as nat)),
                        None => None,
                    },
                ),
            ),
            req.wf(),
    {
        let mut params = params_new();
        if let Some(v) = before {
            params_push(&mut params, "before", decimal_u64(v.get()));
        }
        if let Some(v) = limit {
            params_push(&mut params, "limit", decimal_u64(v));
        }
        let params = Some(params);
        let req = Request {
            body: None,
            multipart: None,
            headers: None,
            method: LightMethod::Get,
            route: Route::ChannelJoinedPrivateThreads { channel_id },
            params,
        };
        assert(req.query()->0 =~= optional_pair(
                "before"@,
                match before {
                    Some(v) => Some(decimal(v.0 as nat)),
                    None => None,
                },
            ) + optional_pair(
                "limit"@,
                match limit {
                    Some(v) => Some(decimal(v as nat)),
                    None => None,
                },
            ));
        req
    }

    /// The request that joins a thread channel.
    ///
    /// The response is expected to have no content.
    pub fn join_thread_channel(&self, channel_id: ChannelId) -> (req: Request<'static>)
        ensures
            req.method == LightMethod::Put,
            req.route == (Route::ChannelThreadMemberMe { channel_id }),
            req.body is None,
            req.multipart is None,
            req.headers is None,
            req.params is None,
            req.wf(),
    {
        Request {
            body: None,
            multipart: None,
            headers: None,
            method: LightMethod::Put,
            route: Route::ChannelThreadMemberMe { channel_id },
            params: None,
        }
    }

    /// The request that leaves a thread channel.
    ///
    /// The response is expected to have no content.
    pub fn leave_thread_channel(&self, channel_id: ChannelId) -> (req: Request<'static>)
        ensures
            req.method == LightMethod::Delete,
            req.route == (Route::ChannelThreadMemberMe { channel_id }),
            req.body is None,
            req.multipart is None,
            req.headers is None,
            req.params is None,
            req.wf(),
    {
        Request {
            body: None,
            multipart: None,
            headers: None,
            method: LightMethod::Delete,
            route: Route::ChannelThreadMemberMe { channel_id },
            params: None,
        }
    }

    /// The request that adds a member to a thread channel.
    ///
    /// The response is expected to have no content.
    pub fn add_thread_channel_member(
        &self,
        channel_id: ChannelId,
        user_id: UserId,
    ) -> (req: Request<'static>)
        ensures
            req.method == LightMethod::Put,
            req.route == (Route::ChannelThreadMember { channel_id, user_id }),
            req.body is None,
            req.multipart is None,
            req.headers is None,
            req.params is None,
            req.wf(),
    {
        Request {
            body: None,
            multipart: None,
            headers: None,
            method: LightMethod::Put,
            route: Route::ChannelThreadMember { channel_id, user_id },
            params: None,
        }
    }

    /// The request that removes a member from a thread channel.
    ///
    /// The response is expected to have no content.
    pub fn remove_thread_channel_member(
        &self,
        channel_id: ChannelId,
        user_id: UserId,
    ) -> (req: Request<'static>)
        ensures
            req.method == LightMethod::Delete,
            req.route == (Route::ChannelThreadMember { channel_id, user_id }),
            req.body is None,
            req.multipart is None,
            req.headers is None,
            req.params is None,
            req.wf(),
    {
        Request {
            body: None,
            multipart: None,
            headers: None,
            method: LightMethod::Delete,
            route: Route::ChannelThreadMember { channel_id, user_id },
            params: None,
        }
    }

    /// The request that gets a thread member.
    pub fn get_thread_channel_member(
        &self,
        channel_id: ChannelId,
        user_id: UserId,
        with_member: bool,
    ) -> (req: Request<'static>)
        ensures
            req.method == LightMethod::Get,
            req.route == (Route::ChannelThreadMember { channel_id, user_id }),
            req.body is None,
            req.multipart is None,
            req.headers is None,
            req.query() == Some(seq![("with_member"@, truth(with_member))]),
            req.wf(),
    {
        let mut params = params_new();
        params_push(&mut params, "with_member", truth_text(with_member));
        let params = Some(params);
        let req = Request {
            body: None,
            multipart: None,
            headers: None,
            method: LightMethod::Get,
            route: Route::ChannelThreadMember { channel_id, user_id },
            params,
        };
        assert(req.query()->0 =~= seq![("with_member"@, truth(with_member))]);
        req
    }

    /// The request that retrieves the webhooks for the given channel's id.
    pub fn get_channel_webhooks(&self, channel_id: ChannelId) -> (req: Request<'static>)
        ensures
            req.method == LightMethod::Get,
            req.route == (Route::ChannelWebhooks { channel_id }),
            req.body is None,
            req.multipart is None,
            req.headers is None,
            req.params is None,
            req.wf(),
    {
        Request {
            body: None,
            multipart: None,
            headers: None,
            method: LightMethod::Get,
            route: Route::ChannelWebhooks { channel_id },
            params: None,
        }
    }

    /// The request that gets channel information.
    pub fn get_channel(&self, channel_id: ChannelId) -> (req: Request<'static>)
        ensures
            req.method == LightMethod::Get,
            req.route == (Route::Channel { channel_id }),
            req.body is None,
            req.multipart is None,
            req.headers is None,
            req.params is None,
            req.wf(),
    {
        Request {
            body: None,
            multipart: None,
            headers: None,
            method: LightMethod::Get,
            route: Route::Channel { channel_id },
            params: None,
        }
    }

    /// The request that gets all channels in a guild.
    pub fn get_channels(&self, guild_id: GuildId) -> (req: Request<'static>)
        ensures
            req.method == LightMethod::Get,
            req.route == (Route::GuildChannels { guild_id }),
            req.body is None,
            req.multipart is None,
            req.headers is None,
            req.params is None,
            req.wf(),
    {
        Request {
            body: None,
            multipart: None,
            headers: None,
            method: LightMethod::Get,
            route: Route::GuildChannels { guild_id },
            params: None,
        }
    }

    /// The request that gets a stage instance.
    pub fn get_stage_instance(&self, channel_id: ChannelId) -> (req: Request<'static>)
        ensures
            req.method == LightMethod::Get,
            req.route == (Route::StageInstance { channel_id }),
            req.body is None,
            req.multipart is None,
            req.headers is None,
            req.params is None,
            req.wf(),
    {
        Request {
            body: None,
            multipart: None,
            headers: None,
            method: LightMethod::Get,
            route: Route::StageInstance { channel_id },
            params: None,
        }
    }

    /// The request that gets a list of users that voted for this specific
    /// answer.
    pub fn get_poll_answer_voters(
        &self,
        channel_id: ChannelId,
        message_id: MessageId,
        answer_id: AnswerId,
        after: Option<UserId>,
        limit: Option<u8>,
    ) -> (req: Request<'static>)
        ensures
            req.method == LightMethod::Get,
            req.route == (Route::ChannelPollGetAnswerVoters { channel_id, message_id, answer_id }),
            req.body is None,
            req.multipart is None,
            req.headers is None,
            req.query() == Some(
                optional_pair(
                    "after"@,
                    match after {
                        Some(v) => Some(decimal(v.0 as nat)),
                        None => None,
                    },
                ) + optional_pair(
                    "limit"@,
                    match limit {
                        Some(v) => Some(decimal(v as nat)),
                        None => None,
                    },
                ),
            ),
            req.wf(),
    {
        let mut params = params_new();
        if let Some(v) = after {
            params_push(&mut params, "after", decimal_u64(v.get()));
        }
        if let Some(v) = limit {
            params_push(&mut params, "limit", decimal_u64(v as u64));
        }
        let params = Some(params);
        let req = Request {
            body: None,
            multipart: None,
            headers: None,
            method: LightMethod::Get,
            route: Route::ChannelPollGetAnswerVoters { channel_id, message_id, answer_id },
            params,
        };
        assert(req.query()->0 =~= optional_pair(
                "after"@,
                match after {
                    Some(v) => Some(decimal(v.0 as nat)),
                    None => None,
                },
            ) + optional_pair(
                "limit"@,
                match limit {
                    Some(v) => Some(decimal(v as nat)),
                    None => None,
                },
            ));
        req
    }

    /// The request that ends a poll at once.
    pub fn expire_poll(
        &self,
        channel_id: ChannelId,
        message_id: MessageId,
    ) -> (req: Request<'static>)
        ensures
            req.method == LightMethod::Post,
            req.route == (Route::ChannelPollExpire { channel_id, message_id }),
            req.body is None,
            req.multipart is None,
            req.headers is None,
            req.params is None,
            req.wf(),
    {
        Request {
            body: None,
            multipart: None,
            headers: None,
            method: LightMethod::Post,
            route: Route::ChannelPollExpire { channel_id, message_id },
            params: None,
        }
    }

    /// The request that gets information about the current application.
    pub fn get_current_application_info(&self) -> (req: Request<'static>)
        ensures
            req.method == LightMethod::Get,
            req.route == Route::OAuth2ApplicationCurrent,
            req.body is None,
            req.multipart is None,
            req.headers is None,
            req.params is None,
            req.wf(),
    {
        Request {
            body: None,
            multipart: None,
            headers: None,
            method: LightMethod::Get,
            route: Route::OAuth2ApplicationCurrent,
            params: None,
        }
    }

    /// The request that modifies information about the current application.
    ///
    /// `map` is the serialised payload.
    pub fn edit_current_application_info(&self, map: Vec<u8>) -> (req: Request<'static>)
        ensures
            req.method == LightMethod::Patch,
            req.route == Route::OAuth2ApplicationCurrent,
            req.body == Some(map),
            req.multipart is None,
            req.headers is None,
            req.params is None,
            req.wf(),
    {
        Request {
            body: Some(map),
            multipart: None,
            headers: None,
            method: LightMethod::Patch,
            route: Route::OAuth2ApplicationCurrent,
            params: None,
        }
    }

    /// The request that gets information about the current user.
    pub fn get_current_user(&self) -> (req: Request<'static>)
        ensures
            req.method == LightMethod::Get,
            req.route == Route::UserMe,
            req.body is None,
            req.multipart is None,
            req.headers is None,
            req.params is None,
            req.wf(),
    {
        Request {
            body: None,
            multipart: None,
            headers: None,
            method: LightMethod::Get,
            route: Route::UserMe,
            params: None,
        }
    }

    /// The request that gets all emojis of a guild.
    pub fn get_emojis(&self, guild_id: GuildId) -> (req: Request<'static>)
        ensures
            req.method == LightMethod::Get,
            req.route == (Route::GuildEmojis { guild_id }),
            req.body is None,
            req.multipart is None,
            req.headers is None,
            req.params is None,
            req.wf(),
    {
        Request {
            body: None,
            multipart: None,
            headers: None,
            method: LightMethod::Get,
            route: Route::GuildEmojis { guild_id },
            params: None,
        }
    }

    /// The request that gets information about an emoji in a guild.
    pub fn get_emoji(&self, guild_id: GuildId, emoji_id: EmojiId) -> (req: Request<'static>)
        ensures
            req.method == LightMethod::Get,
            req.route == (Route::GuildEmoji { guild_id, emoji_id }),
            req.body is None,
            req.multipart is None,
            req.headers is None,
            req.params is None,
            req.wf(),
    {
        Request {
            body: None,
            multipart: None,
            headers: None,
            method: LightMethod::Get,
            route: Route::GuildEmoji { guild_id, emoji_id },
            params: None,
        }
    }

    /// The request that gets all emojis for the current application.
    ///
    /// Fails if the application id is not known.
    pub fn get_application_emojis(&self) -> (r: Result<Request<'static>, DispatchError>)
        ensures
            match r {
                Ok(req) => {
                    &&& self.known_application() is Some
                    &&& req.method == LightMethod::Get
                    &&& req.route == (Route::Emojis { application_id: self.known_application()->0 })
                    &&& req.body is None
                    &&& req.multipart is None
                    &&& req.headers is None
                    &&& req.params is None
                    &&& req.wf()
                },
                Err(e) => self.known_application() is None && e is PreconditionMissing,
            },
    {
        let application_id = match self.try_application_id() {
            Ok(id) => id,
            Err(e) => return Err(e),
        };
        Ok(Request {
            body: None,
            multipart: None,
            headers: None,
            method: LightMethod::Get,
            route: Route::Emojis { application_id },
            params: None,
        })
    }

    /// The request that gets information about an application emoji.
    ///
    /// Fails if the application id is not known.
    pub fn get_application_emoji(
        &self,
        emoji_id: EmojiId,
    ) -> (r: Result<Request<'static>, DispatchError>)
        ensures
            match r {
                Ok(req) => {
                    &&& self.known_application() is Some
                    &&& req.method == LightMethod::Get
                    &&& req.route == (Route::Emoji {
                        application_id: self.known_application()->0,
                        emoji_id,
                    })
                    &&& req.body is None
                    &&& req.multipart is None
                    &&& req.headers is None
                    &&& req.params is None
                    &&& req.wf()
                },
                Err(e) => self.known_application() is None && e is PreconditionMissing,
            },
    {
        let application_id = match self.try_application_id() {
            Ok(id) => id,
            Err(e) => return Err(e),
        };
        Ok(Request {
            body: None,
            multipart: None,
            headers: None,
            method: LightMethod::Get,
            route: Route::Emoji { application_id, emoji_id },
            params: None,
        })
    }

    /// The request that gets all entitlements for the current app, active and
    /// expired.
    ///
    /// Fails if the application id is not known.
    pub fn get_entitlements(
        &self,
        user_id: Option<UserId>,
        sku_ids: Option<&[SkuId]>,
        before: Option<EntitlementId>,
        after: Option<EntitlementId>,
        limit: Option<NonMaxU8>,
        guild_id: Option<GuildId>,
        exclude_ended: Option<bool>,
    ) -> (r: Result<Request<'static>, DispatchError>)
        ensures
            match r {
                Ok(req) => {
                    &&& self.known_application() is Some
                    &&& req.method == LightMethod::Get
                    &&& req.route == (Route::Entitlements {
                        application_id: self.known_application()->0,
                    })
                    &&& req.body is None
                    &&& req.multipart is None
                    &&& req.headers is None
                    &&& req.query() == Some(
                        optional_pair(
                            "user_id"@,
                            match user_id {
                                Some(v) => Some(decimal(v.0 as nat)),
                                None => None,
                            },
                        ) + optional_pair(
                            "sku_ids"@,
                            match sku_ids {
                                Some(v) => Some(joined_ids(v@)),
                                None => None,
                            },
                        ) + optional_pair(
                            "before"@,
                            match before {
                                Some(v) => Some(decimal(v.0 as nat)),
                                None => None,
                            },
                        ) + optional_pair(
                            "after"@,
                            match after {
                                Some(v) => Some(decimal(v.0 as nat)),
                                None => None,
                            },
                        ) + optional_pair(
                            "limit"@,
                            match limit {
                                Some(v) => Some(decimal(u8_of(v) as nat)),
                                None => None,
                            },
                        ) + optional_pair(
                            "guild_id"@,
                            match guild_id {
                                Some(v) => Some(decimal(v.0 as nat)),
                                None => None,
                            },
                        ) + optional_pair(
                            "exclude_ended"@,
                            match exclude_ended {
                                Some(v) => Some(truth(v)),
                                None => None,
                            },
                        ),
                    )
                    &&& req.wf()
                },
                Err(e) => self.known_application() is None && e is PreconditionMissing,
            },
    {
        let application_id = match self.try_application_id() {
            Ok(id) => id,
            Err(e) => return Err(e),
        };
        let mut params = params_new();
        if let Some(v) = user_id {
            params_push(&mut params, "user_id", decimal_u64(v.get()));
        }
        if let Some(v) = sku_ids {
            params_push(&mut params, "sku_ids", join_ids(v));
        }
        if let Some(v) = before {
            params_push(&mut params, "before", decimal_u64(v.get()));
        }
        if let Some(v) = after {
            params_push(&mut params, "after", decimal_u64(v.get()));
        }
        if let Some(v) = limit {
            params_push(&mut params, "limit", decimal_u64(v.get() as u64));
        }
        if let Some(v) = guild_id {
            params_push(&mut params, "guild_id", decimal_u64(v.get()));
        }
        if let Some(v) = exclude_ended {
            params_push(&mut params, "exclude_ended", truth_text(v));
        }
        let params = Some(params);
        let req = Request {
            body: None,
            multipart: None,
            headers: None,
            method: LightMethod::Get,
            route: Route::Entitlements { application_id },
            params,
        };
        assert(req.query()->0 =~= optional_pair(
                "user_id"@,
                match user_id {
                    Some(v) => Some(decimal(v.0 as nat)),
                    None => None,
                },
            ) + optional_pair(
                "sku_ids"@,
                match sku_ids {
                    Some(v) => Some(joined_ids(v@)),
                    None => None,
                },
            ) + optional_pair(
                "before"@,
                match before {
                    Some(v) => Some(decimal(v.0 as nat)),
                    None => None,
                },
            ) + optional_pair(
                "after"@,
                match after {
                    Some(v) => Some(decimal(v.0 as nat)),
                    None => None,
                },
            ) + optional_pair(
                "limit"@,
                match limit {
                    Some(v) => Some(decimal(u8_of(v) as nat)),
                    None => None,
                },
            ) + optional_pair(
                "guild_id"@,
                match guild_id {
                    Some(v) => Some(decimal(v.0 as nat)),
                    None => None,
                },
            ) + optional_pair(
                "exclude_ended"@,
                match exclude_ended {
                    Some(v) => Some(truth(v)),
                    None => None,
                },
            ));
        Ok(req)
    }

    /// The request that gets current gateway.
    pub fn get_gateway(&self) -> (req: Request<'static>)
        ensures
            req.method == LightMethod::Get,
            req.route == Route::Gateway,
            req.body is None,
            req.multipart is None,
            req.headers is None,
            req.params is None,
            req.wf(),
    {
        Request {
            body: None,
            multipart: None,
            headers: None,
            method: LightMethod::Get,
            route: Route::Gateway,
            params: None,
        }
    }

    /// The request that fetches all of the global commands for the application.
    ///
    /// Fails if the application id is not known.
    pub fn get_global_commands(&self) -> (r: Result<Request<'static>, DispatchError>)
        ensures
            match r {
                Ok(req) => {
                    &&& self.known_application() is Some
                    &&& req.method == LightMethod::Get
                    &&& req.route == (Route::Commands {
                        application_id: self.known_application()->0,
                    })
                    &&& req.body is None
                    &&& req.multipart is None
                    &&& req.headers is None
                    &&& req.params is None
                    &&& req.wf()
                },
                Err(e) => self.known_application() is None && e is PreconditionMissing,
            },
    {
        let application_id = match self.try_application_id() {
            Ok(id) => id,
            Err(e) => return Err(e),
        };
        Ok(Request {
            body: None,
            multipart: None,
            headers: None,
            method: LightMethod::Get,
            route: Route::Commands { application_id },
            params: None,
        })
    }

    /// The request that fetches all of the global commands for the application
    /// with localizations.
    ///
    /// Fails if the application id is not known.
    pub fn get_global_commands_with_localizations(
        &self,
    ) -> (r: Result<Request<'static>, DispatchError>)
        ensures
            match r {
                Ok(req) => {
                    &&& self.known_application() is Some
                    &&& req.method == LightMethod::Get
                    &&& req.route == (Route::Commands {
                        application_id: self.known_application()->0,
                    })
                    &&& req.body is None
                    &&& req.multipart is None
                    &&& req.headers is None
                    &&& req.query() == Some(seq![("with_localizations"@, "true"@)])
                    &&& req.wf()
                },
                Err(e) => self.known_application() is None && e is PreconditionMissing,
            },
    {
        let application_id = match self.try_application_id() {
            Ok(id) => id,
            Err(e) => return Err(e),
        };
        let mut params = params_new();
        params_push(&mut params, "with_localizations", String::from_str("true"));
        let params = Some(params);
        let req = Request {
            body: None,
            multipart: None,
            headers: None,
            method: LightMethod::Get,
            route: Route::Commands { application_id },
            params,
        };
        assert(req.query()->0 =~= seq![("with_localizations"@, "true"@)]);
        Ok(req)
    }

    /// The request that fetches a global commands for the application by its
    /// id.
    ///
    /// Fails if the application id is not known.
    pub fn get_global_command(
        &self,
        command_id: CommandId,
    ) -> (r: Result<Request<'static>, DispatchError>)
        ensures
            match r {
                Ok(req) => {
                    &&& self.known_application() is Some
                    &&& req.method == LightMethod::Get
                    &&& req.route == (Route::Command {
                        application_id: self.known_application()->0,
                        command_id,
                    })
                    &&& req.body is None
                    &&& req.multipart is None
                    &&& req.headers is None
                    &&& req.params is None
                    &&& req.wf()
                },
                Err(e) => self.known_application() is None && e is PreconditionMissing,
            },
    {
        let application_id = match self.try_application_id() {
            Ok(id) => id,
            Err(e) => return Err(e),
        };
        Ok(Request {
            body: None,
            multipart: None,
            headers: None,
            method: LightMethod::Get,
            route: Route::Command { application_id, command_id },
            params: None,
        })
    }

    /// The request that gets guild information.
    pub fn get_guild(&self, guild_id: GuildId) -> (req: Request<'static>)
        ensures
            req.method == LightMethod::Get,
            req.route == (Route::Guild { guild_id }),
            req.body is None,
            req.multipart is None,
            req.headers is None,
            req.params is None,
            req.wf(),
    {
        Request {
            body: None,
            multipart: None,
            headers: None,
            method: LightMethod::Get,
            route: Route::Guild { guild_id },
            params: None,
        }
    }

    /// The request that gets guild information with counts.
    pub fn get_guild_with_counts(&self, guild_id: GuildId) -> (req: Request<'static>)
        ensures
            req.method == LightMethod::Get,
            req.route == (Route::Guild { guild_id }),
            req.body is None,
            req.multipart is None,
            req.headers is None,
            req.query() == Some(seq![("with_counts"@, "true"@)]),
            req.wf(),
    {
        let mut params = params_new();
        params_push(&mut params, "with_counts", String::from_str("true"));
        let params = Some(params);
        let req = Request {
            body: None,
            multipart: None,
            headers: None,
            method: LightMethod::Get,
            route: Route::Guild { guild_id },
            params,
        };
        assert(req.query()->0 =~= seq![("with_counts"@, "true"@)]);
        req
    }

    /// The request that fetches all of the guild commands for the application
    /// for a specific guild.
    ///
    /// Fails if the application id is not known.
    pub fn get_guild_commands(
        &self,
        guild_id: GuildId,
    ) -> (r: Result<Request<'static>, DispatchError>)
        ensures
            match r {
                Ok(req) => {
                    &&& self.known_application() is Some
                    &&& req.method == LightMethod::Get
                    &&& req.route == (Route::GuildCommands {
                        application_id: self.known_application()->0,
                        guild_id,
                    })
                    &&& req.body is None
                    &&& req.multipart is None
                    &&& req.headers is None
                    &&& req.params is None
                    &&& req.wf()
                },
                Err(e) => self.known_application() is None && e is PreconditionMissing,
            },
    {
        let application_id = match self.try_application_id() {
            Ok(id) => id,
            Err(e) => return Err(e),
        };
        Ok(Request {
            body: None,
            multipart: None,
            headers: None,
            method: LightMethod::Get,
            route: Route::GuildCommands { application_id, guild_id },
            params: None,
        })
    }

    /// The request that fetches all of the guild commands with localizations
    /// for the application for a specific guild.
    ///
    /// Fails if the application id is not known.
    pub fn get_guild_commands_with_localizations(
        &self,
        guild_id: GuildId,
    ) -> (r: Result<Request<'static>, DispatchError>)
        ensures
            match r {
                Ok(req) => {
                    &&& self.known_application() is Some
                    &&& req.method == LightMethod::Get
                    &&& req.route == (Route::GuildCommands {
                        application_id: self.known_application()->0,
                        guild_id,
                    })
                    &&& req.body is None
                    &&& req.multipart is None
                    &&& req.headers is None
                    &&& req.query() == Some(seq![("with_localizations"@, "true"@)])
                    &&& req.wf()
                },
                Err(e) => self.known_application() is None && e is PreconditionMissing,
            },
    {
        let application_id = match self.try_application_id() {
            Ok(id) => id,
            Err(e) => return Err(e),
        };
        let mut params = params_new();
        params_push(&mut params, "with_localizations", String::from_str("true"));
        let params = Some(params);
        let req = Request {
            body: None,
            multipart: None,
            headers: None,
            method: LightMethod::Get,
            route: Route::GuildCommands { application_id, guild_id },
            params,
        };
        assert(req.query()->0 =~= seq![("with_localizations"@, "true"@)]);
        Ok(req)
    }

    /// The request that fetches a guild command by its id.
    ///
    /// Fails if the application id is not known.
    pub fn get_guild_command(
        &self,
        guild_id: GuildId,
        command_id: CommandId,
    ) -> (r: Result<Request<'static>, DispatchError>)
        ensures
            match r {
                Ok(req) => {
                    &&& self.known_application() is Some
                    &&& req.method == LightMethod::Get
                    &&& req.route == (Route::GuildCommand {
                        application_id: self.known_application()->0,
                        guild_id,
                        command_id,
                    })
                    &&& req.body is None
                    &&& req.multipart is None
                    &&& req.headers is None
                    &&& req.params is None
                    &&& req.wf()
                },
                Err(e) => self.known_application() is None && e is PreconditionMissing,
            },
    {
        let application_id = match self.try_application_id() {
            Ok(id) => id,
            Err(e) => return Err(e),
        };
        Ok(Request {
            body: None,
            multipart: None,
            headers: None,
            method: LightMethod::Get,
            route: Route::GuildCommand { application_id, guild_id, command_id },
            params: None,
        })
    }

    /// The request that fetches all of the guild commands permissions for the
    /// application for a specific guild.
    ///
    /// Fails if the application id is not known.
    pub fn get_guild_commands_permissions(
        &self,
        guild_id: GuildId,
    ) -> (r: Result<Request<'static>, DispatchError>)
        ensures
            match r {
                Ok(req) => {
                    &&& self.known_application() is Some
                    &&& req.method == LightMethod::Get
                    &&& req.route == (Route::GuildCommandsPermissions {
                        application_id: self.known_application()->0,
                        guild_id,
                    })
                    &&& req.body is None
                    &&& req.multipart is None
                    &&& req.headers is None
                    &&& req.params is None
                    &&& req.wf()
                },
                Err(e) => self.known_application() is None && e is PreconditionMissing,
            },
    {
        let application_id = match self.try_application_id() {
            Ok(id) => id,
            Err(e) => return Err(e),
        };
        Ok(Request {
            body: None,
            multipart: None,
            headers: None,
            method: LightMethod::Get,
            route: Route::GuildCommandsPermissions { application_id, guild_id },
            params: None,
        })
    }

    /// The request that gives the guild command permission for the application
    /// for a specific guild.
    ///
    /// Fails if the application id is not known.
    pub fn get_guild_command_permissions(
        &self,
        guild_id: GuildId,
        command_id: CommandId,
    ) -> (r: Result<Request<'static>, DispatchError>)
        ensures
            match r {
                Ok(req) => {
                    &&& self.known_application() is Some
                    &&& req.method == LightMethod::Get
                    &&& req.route == (Route::GuildCommandPermissions {
                        application_id: self.known_application()->0,
                        guild_id,
                        command_id,
                    })
                    &&& req.body is None
                    &&& req.multipart is None
                    &&& req.headers is None
                    &&& req.params is None
                    &&& req.wf()
                },
                Err(e) => self.known_application() is None && e is PreconditionMissing,
            },
    {
        let application_id = match self.try_application_id() {
            Ok(id) => id,
            Err(e) => return Err(e),
        };
        Ok(Request {
            body: None,
            multipart: None,
            headers: None,
            method: LightMethod::Get,
            route: Route::GuildCommandPermissions { application_id, guild_id, command_id },
            params: None,
        })
    }

    /// The request that gets a guild widget information.
    pub fn get_guild_widget(&self, guild_id: GuildId) -> (req: Request<'static>)
        ensures
            req.method == LightMethod::Get,
            req.route == (Route::GuildWidget { guild_id }),
            req.body is None,
            req.multipart is None,
            req.headers is None,
            req.params is None,
            req.wf(),
    {
        Request {
            body: None,
            multipart: None,
            headers: None,
            method: LightMethod::Get,
            route: Route::GuildWidget { guild_id },
            params: None,
        }
    }

    /// The request that gets a guild preview.
    pub fn get_guild_preview(&self, guild_id: GuildId) -> (req: Request<'static>)
        ensures
            req.method == LightMethod::Get,
            req.route == (Route::GuildPreview { guild_id }),
            req.body is None,
            req.multipart is None,
            req.headers is None,
            req.params is None,
            req.wf(),
    {
        Request {
            body: None,
            multipart: None,
            headers: None,
            method: LightMethod::Get,
            route: Route::GuildPreview { guild_id },
            params: None,
        }
    }

    /// The request that gets a guild welcome screen information.
    pub fn get_guild_welcome_screen(&self, guild_id: GuildId) -> (req: Request<'static>)
        ensures
            req.method == LightMethod::Get,
            req.route == (Route::GuildWelcomeScreen { guild_id }),
            req.body is None,
            req.multipart is None,
            req.headers is None,
            req.params is None,
            req.wf(),
    {
        Request {
            body: None,
            multipart: None,
            headers: None,
            method: LightMethod::Get,
            route: Route::GuildWelcomeScreen { guild_id },
            params: None,
        }
    }

    /// The request that gets integrations that a guild has.
    pub fn get_guild_integrations(&self, guild_id: GuildId) -> (req: Request<'static>)
        ensures
            req.method == LightMethod::Get,
            req.route == (Route::GuildIntegrations { guild_id }),
            req.body is None,
            req.multipart is None,
            req.headers is None,
            req.params is None,
            req.wf(),
    {
        Request {
            body: None,
            multipart: None,
            headers: None,
            method: LightMethod::Get,
            route: Route::GuildIntegrations { guild_id },
            params: None,
        }
    }

    /// The request that gets all invites to a guild.
    pub fn get_guild_invites(&self, guild_id: GuildId) -> (req: Request<'static>)
        ensures
            req.method == LightMethod::Get,
            req.route == (Route::GuildInvites { guild_id }),
            req.body is None,
            req.multipart is None,
            req.headers is None,
            req.params is None,
            req.wf(),
    {
        Request {
            body: None,
            multipart: None,
            headers: None,
            method: LightMethod::Get,
            route: Route::GuildInvites { guild_id },
            params: None,
        }
    }

    /// The request that gets a guild's vanity URL if it has one.
    pub fn get_guild_vanity_url(&self, guild_id: GuildId) -> (req: Request<'static>)
        ensures
            req.method == LightMethod::Get,
            req.route == (Route::GuildVanityUrl { guild_id }),
            req.body is None,
            req.multipart is None,
            req.headers is None,
            req.params is None,
            req.wf(),
    {
        Request {
            body: None,
            multipart: None,
            headers: None,
            method: LightMethod::Get,
            route: Route::GuildVanityUrl { guild_id },
            params: None,
        }
    }

    /// The request that gets the members of a guild.
    ///
    /// The objects in the response do not name their guild;
    /// [`Http::with_guild_id_in_each`] puts it in before they are decoded.
    pub fn get_guild_members(
        &self,
        guild_id: GuildId,
        limit: Option<NonMaxU16>,
        after: Option<UserId>,
    ) -> (req: Request<'static>)
        ensures
            req.method == LightMethod::Get,
            req.route == (Route::GuildMembers { guild_id }),
            req.body is None,
            req.multipart is None,
            req.headers is None,
            req.query() == Some(
                seq![
                    (
                        "limit"@,
                        decimal(
                            match limit {
                                Some(v) => u16_of(v) as nat,
                                None => MEMBER_FETCH_LIMIT as nat,
                            },
                        ),
                    ),
                ] + optional_pair(
                    "after"@,
                    match after {
                        Some(v) => Some(decimal(v.0 as nat)),
                        None => None,
                    },
                ),
            ),
            req.wf(),
    {
        let mut params = params_new();
        let limit_value: u16 = match limit {
            Some(v) => v.get(),
            None => MEMBER_FETCH_LIMIT,
        };
        params_push(&mut params, "limit", decimal_u64(limit_value as u64));
        if let Some(v) = after {
            params_push(&mut params, "after", decimal_u64(v.get()));
        }
        let params = Some(params);
        let req = Request {
            body: None,
            multipart: None,
            headers: None,
            method: LightMethod::Get,
            route: Route::GuildMembers { guild_id },
            params,
        };
        assert(req.query()->0 =~= seq![
                (
                    "limit"@,
                    decimal(
                        match limit {
                            Some(v) => u16_of(v) as nat,
                            None => MEMBER_FETCH_LIMIT as nat,
                        },
                    ),
                ),
            ] + optional_pair(
                "after"@,
                match after {
                    Some(v) => Some(decimal(v.0 as nat)),
                    None => None,
                },
            ));
        req
    }

    /// The request that gets the amount of users that can be pruned.
    pub fn get_guild_prune_count(&self, guild_id: GuildId, days: u8) -> (req: Request<'static>)
        ensures
            req.method == LightMethod::Get,
            req.route == (Route::GuildPrune { guild_id }),
            req.body is None,
            req.multipart is None,
            req.headers is None,
            req.query() == Some(seq![("days"@, decimal(days as nat))]),
            req.wf(),
    {
        let mut params = params_new();
        params_push(&mut params, "days", decimal_u64(days as u64));
        let params = Some(params);
        let req = Request {
            body: None,
            multipart: None,
            headers: None,
            method: LightMethod::Get,
            route: Route::GuildPrune { guild_id },
            params,
        };
        assert(req.query()->0 =~= seq![("days"@, decimal(days as nat))]);
        req
    }

    /// The request that gets regions that a guild can use.
    pub fn get_guild_regions(&self, guild_id: GuildId) -> (req: Request<'static>)
        ensures
            req.method == LightMethod::Get,
            req.route == (Route::GuildRegions { guild_id }),
            req.body is None,
            req.multipart is None,
            req.headers is None,
            req.params is None,
            req.wf(),
    {
        Request {
            body: None,
            multipart: None,
            headers: None,
            method: LightMethod::Get,
            route: Route::GuildRegions { guild_id },
            params: None,
        }
    }

    /// The request that retrieves a specific role in a guild.
    ///
    /// The object in the response does not name its guild;
    /// [`Http::with_guild_id`] puts it in before the object is decoded.
    pub fn get_guild_role(&self, guild_id: GuildId, role_id: RoleId) -> (req: Request<'static>)
        ensures
            req.method == LightMethod::Get,
            req.route == (Route::GuildRole { guild_id, role_id }),
            req.body is None,
            req.multipart is None,
            req.headers is None,
            req.params is None,
            req.wf(),
    {
        Request {
            body: None,
            multipart: None,
            headers: None,
            method: LightMethod::Get,
            route: Route::GuildRole { guild_id, role_id },
            params: None,
        }
    }

    /// The request that retrieves a list of roles in a guild.
    ///
    /// The objects in the response do not name their guild;
    /// [`Http::with_guild_id_in_each`] puts it in before they are decoded.
    pub fn get_guild_roles(&self, guild_id: GuildId) -> (req: Request<'static>)
        ensures
            req.method == LightMethod::Get,
            req.route == (Route::GuildRoles { guild_id }),
            req.body is None,
            req.multipart is None,
            req.headers is None,
            req.params is None,
            req.wf(),
    {
        Request {
            body: None,
            multipart: None,
            headers: None,
            method: LightMethod::Get,
            route: Route::GuildRoles { guild_id },
            params: None,
        }
    }

    /// The request that gets a scheduled event by id.
    pub fn get_scheduled_event(
        &self,
        guild_id: GuildId,
        event_id: ScheduledEventId,
        with_user_count: bool,
    ) -> (req: Request<'static>)
        ensures
            req.method == LightMethod::Get,
            req.route == (Route::GuildScheduledEvent { guild_id, event_id }),
            req.body is None,
            req.multipart is None,
            req.headers is None,
            req.query() == Some(seq![("with_user_count"@, truth(with_user_count))]),
            req.wf(),
    {
        let mut params = params_new();
        params_push(&mut params, "with_user_count", truth_text(with_user_count));
        let params = Some(params);
        let req = Request {
            body: None,
            multipart: None,
            headers: None,
            method: LightMethod::Get,
            route: Route::GuildScheduledEvent { guild_id, event_id },
            params,
        };
        assert(req.query()->0 =~= seq![("with_user_count"@, truth(with_user_count))]);
        req
    }

    /// The request that gets a list of all scheduled events for the
    /// corresponding guild.
    pub fn get_scheduled_events(
        &self,
        guild_id: GuildId,
        with_user_count: bool,
    ) -> (req: Request<'static>)
        ensures
            req.method == LightMethod::Get,
            req.route == (Route::GuildScheduledEvents { guild_id }),
            req.body is None,
            req.multipart is None,
            req.headers is None,
            req.query() == Some(seq![("with_user_count"@, truth(with_user_count))]),
            req.wf(),
    {
        let mut params = params_new();
        params_push(&mut params, "with_user_count", truth_text(with_user_count));
        let params = Some(params);
        let req = Request {
            body: None,
            multipart: None,
            headers: None,
            method: LightMethod::Get,
            route: Route::GuildScheduledEvents { guild_id },
            params,
        };
        assert(req.query()->0 =~= seq![("with_user_count"@, truth(with_user_count))]);
        req
    }

    /// The request that gets a list of all interested users for the
    /// corresponding scheduled event, with additional options for filtering.
    pub fn get_scheduled_event_users(
        &self,
        guild_id: GuildId,
        event_id: ScheduledEventId,
        limit: Option<NonMaxU8>,
        target: Option<UserPagination>,
        with_member: Option<bool>,
    ) -> (req: Request<'static>)
        ensures
            req.method == LightMethod::Get,
            req.route == (Route::GuildScheduledEventUsers { guild_id, event_id }),
            req.body is None,
            req.multipart is None,
            req.headers is None,
            req.query() == Some(
                optional_pair(
                    "limit"@,
                    match limit {
                        Some(v) => Some(decimal(u8_of(v) as nat)),
                        None => None,
                    },
                ) + optional_pair(
                    "with_member"@,
                    match with_member {
                        Some(v) => Some(truth(v)),
                        None => None,
                    },
                ) + (match target {
                    Some(t) => seq![(t.key(), decimal(t.id() as nat))],
                    None => Seq::empty(),
                }),
            ),
            req.wf(),
    {
        let mut params = params_new();
        if let Some(v) = limit {
            params_push(&mut params, "limit", decimal_u64(v.get() as u64));
        }
        if let Some(v) = with_member {
            params_push(&mut params, "with_member", truth_text(v));
        }
        if let Some(t) = target {
            let (name, id) = t.parts();
            params_push(&mut params, name, decimal_u64(id));
        }
        let params = Some(params);
        let req = Request {
            body: None,
            multipart: None,
            headers: None,
            method: LightMethod::Get,
            route: Route::GuildScheduledEventUsers { guild_id, event_id },
            params,
        };
        assert(req.query()->0 =~= optional_pair(
                "limit"@,
                match limit {
                    Some(v) => Some(decimal(u8_of(v) as nat)),
                    None => None,
                },
            ) + optional_pair(
                "with_member"@,
                match with_member {
                    Some(v) => Some(truth(v)),
                    None => None,
                },
            ) + (match target {
                Some(t) => seq![(t.key(), decimal(t.id() as nat))],
                None => Seq::empty(),
            }));
        req
    }

    /// The request that retrieves a list of stickers in a guild.
    ///
    /// The objects in the response do not name their guild;
    /// [`Http::with_guild_id_in_each`] puts it in before they are decoded.
    pub fn get_guild_stickers(&self, guild_id: GuildId) -> (req: Request<'static>)
        ensures
            req.method == LightMethod::Get,
            req.route == (Route::GuildStickers { guild_id }),
            req.body is None,
            req.multipart is None,
            req.headers is None,
            req.params is None,
            req.wf(),
    {
        Request {
            body: None,
            multipart: None,
            headers: None,
            method: LightMethod::Get,
            route: Route::GuildStickers { guild_id },
            params: None,
        }
    }

    /// The request that retrieves a single sticker in a guild.
    ///
    /// The object in the response does not name its guild;
    /// [`Http::with_guild_id`] puts it in before the object is decoded.
    pub fn get_guild_sticker(
        &self,
        guild_id: GuildId,
        sticker_id: StickerId,
    ) -> (req: Request<'static>)
        ensures
            req.method == LightMethod::Get,
            req.route == (Route::GuildSticker { guild_id, sticker_id }),
            req.body is None,
            req.multipart is None,
            req.headers is None,
            req.params is None,
            req.wf(),
    {
        Request {
            body: None,
            multipart: None,
            headers: None,
            method: LightMethod::Get,
            route: Route::GuildSticker { guild_id, sticker_id },
            params: None,
        }
    }

    /// The request that retrieves the webhooks for the given guild's id.
    pub fn get_guild_webhooks(&self, guild_id: GuildId) -> (req: Request<'static>)
        ensures
            req.method == LightMethod::Get,
            req.route == (Route::GuildWebhooks { guild_id }),
            req.body is None,
            req.multipart is None,
            req.headers is None,
            req.params is None,
            req.wf(),
    {
        Request {
            body: None,
            multipart: None,
            headers: None,
            method: LightMethod::Get,
            route: Route::GuildWebhooks { guild_id },
            params: None,
        }
    }

    /// The request that gets a paginated list of the current user's guilds.
    pub fn get_guilds(
        &self,
        target: Option<GuildPagination>,
        limit: Option<NonMaxU8>,
    ) -> (req: Request<'static>)
        ensures
            req.method == LightMethod::Get,
            req.route == Route::UserMeGuilds,
            req.body is None,
            req.multipart is None,
            req.headers is None,
            req.query() == Some(
                optional_pair(
                    "limit"@,
                    match limit {
                        Some(v) => Some(decimal(u8_of(v) as nat)),
                        None => None,
                    },
                ) + (match target {
                    Some(t) => seq![(t.key(), decimal(t.id() as nat))],
                    None => Seq::empty(),
                }),
            ),
            req.wf(),
    {
        let mut params = params_new();
        if let Some(v) = limit {
            params_push(&mut params, "limit", decimal_u64(v.get() as u64));
        }
        if let Some(t) = target {
            let (name, id) = t.parts();
            params_push(&mut params, name, decimal_u64(id));
        }
        let params = Some(params);
        let req = Request {
            body: None,
            multipart: None,
            headers: None,
            method: LightMethod::Get,
            route: Route::UserMeGuilds,
            params,
        };
        assert(req.query()->0 =~= optional_pair(
                "limit"@,
                match limit {
                    Some(v) => Some(decimal(u8_of(v) as nat)),
                    None => None,
                },
            ) + (match target {
                Some(t) => seq![(t.key(), decimal(t.id() as nat))],
                None => Seq::empty(),
            }));
        req
    }

    /// The request that returns a guild member object for the current user.
    ///
    /// The object in the response does not name its guild;
    /// [`Http::with_guild_id`] puts it in before the object is decoded.
    pub fn get_current_user_guild_member(&self, guild_id: GuildId) -> (req: Request<'static>)
        ensures
            req.method == LightMethod::Get,
            req.route == (Route::UserMeGuildMember { guild_id }),
            req.body is None,
            req.multipart is None,
            req.headers is None,
            req.params is None,
            req.wf(),
    {
        Request {
            body: None,
            multipart: None,
            headers: None,
            method: LightMethod::Get,
            route: Route::UserMeGuildMember { guild_id },
            params: None,
        }
    }

    /// The request that gets information about a specific invite.
    pub fn get_invite<'a>(
        &self,
        code: &'a str,
        member_counts: bool,
        expiration: bool,
        event_id: Option<ScheduledEventId>,
    ) -> (req: Request<'a>)
        ensures
            req.method == LightMethod::Get,
            req.route == (Route::Invite { code }),
            req.body is None,
            req.multipart is None,
            req.headers is None,
            req.query() == Some(
                seq![("member_counts"@, truth(member_counts))]
                + seq![("expiration"@, truth(expiration))] + optional_pair(
                    "event_id"@,
                    match event_id {
                        Some(v) => Some(decimal(v.0 as nat)),
                        None => None,
                    },
                ),
            ),
            req.wf(),
    {
        let mut params = params_new();
        params_push(&mut params, "member_counts", truth_text(member_counts));
        params_push(&mut params, "expiration", truth_text(expiration));
        if let Some(v) = event_id {
            params_push(&mut params, "event_id", decimal_u64(v.get()));
        }
        let params = Some(params);
        let req = Request {
            body: None,
            multipart: None,
            headers: None,
            method: LightMethod::Get,
            route: Route::Invite { code },
            params,
        };
        assert(req.query()->0 =~= seq![("member_counts"@, truth(member_counts))]
            + seq![("expiration"@, truth(expiration))] + optional_pair(
                "event_id"@,
                match event_id {
                    Some(v) => Some(decimal(v.0 as nat)),
                    None => None,
                },
            ));
        req
    }

    /// The request that gets member of a guild.
    ///
    /// The object in the response does not name its guild;
    /// [`Http::with_guild_id`] puts it in before the object is decoded.
    pub fn get_member(&self, guild_id: GuildId, user_id: UserId) -> (req: Request<'static>)
        ensures
            req.method == LightMethod::Get,
            req.route == (Route::GuildMember { guild_id, user_id }),
            req.body is None,
            req.multipart is None,
            req.headers is None,
            req.params is None,
            req.wf(),
    {
        Request {
            body: None,
            multipart: None,
            headers: None,
            method: LightMethod::Get,
            route: Route::GuildMember { guild_id, user_id },
            params: None,
        }
    }

    /// The request that gets a message by an id, bots only.
    pub fn get_message(
        &self,
        channel_id: ChannelId,
        message_id: MessageId,
    ) -> (req: Request<'static>)
        ensures
            req.method == LightMethod::Get,
            req.route == (Route::ChannelMessage { channel_id, message_id }),
            req.body is None,
            req.multipart is None,
            req.headers is None,
            req.params is None,
            req.wf(),
    {
        Request {
            body: None,
            multipart: None,
            headers: None,
            method: LightMethod::Get,
            route: Route::ChannelMessage { channel_id, message_id },
            params: None,
        }
    }

    /// The request that gets a number of messages from a channel.
    pub fn get_messages(
        &self,
        channel_id: ChannelId,
        target: Option<MessagePagination>,
        limit: Option<NonMaxU8>,
    ) -> (req: Request<'static>)
        ensures
            req.method == LightMethod::Get,
            req.route == (Route::ChannelMessages { channel_id }),
            req.body is None,
            req.multipart is None,
            req.headers is None,
            req.query() == Some(
                optional_pair(
                    "limit"@,
                    match limit {
                        Some(v) => Some(decimal(u8_of(v) as nat)),
                        None => None,
                    },
                ) + (match target {
                    Some(t) => seq![(t.key(), decimal(t.id() as nat))],
                    None => Seq::empty(),
                }),
            ),
            req.wf(),
    {
        let mut params = params_new();
        if let Some(v) = limit {
            params_push(&mut params, "limit", decimal_u64(v.get() as u64));
        }
        if let Some(t) = target {
            let (name, id) = t.parts();
            params_push(&mut params, name, decimal_u64(id));
        }
        let params = Some(params);
        let req = Request {
            body: None,
            multipart: None,
            headers: None,
            method: LightMethod::Get,
            route: Route::ChannelMessages { channel_id },
            params,
        };
        assert(req.query()->0 =~= optional_pair(
                "limit"@,
                match limit {
                    Some(v) => Some(decimal(u8_of(v) as nat)),
                    None => None,
                },
            ) + (match target {
                Some(t) => seq![(t.key(), decimal(t.id() as nat))],
                None => Seq::empty(),
            }));
        req
    }

    /// The request that retrieves a specific sticker pack from its id.
    pub fn get_sticker_pack(&self, sticker_pack_id: StickerPackId) -> (req: Request<'static>)
        ensures
            req.method == LightMethod::Get,
            req.route == (Route::StickerPack { sticker_pack_id }),
            req.body is None,
            req.multipart is None,
            req.headers is None,
            req.params is None,
            req.wf(),
    {
        Request {
            body: None,
            multipart: None,
            headers: None,
            method: LightMethod::Get,
            route: Route::StickerPack { sticker_pack_id },
            params: None,
        }
    }

    /// The request that retrieves a list of all nitro sticker packs.
    pub fn get_nitro_stickers(&self) -> (req: Request<'static>)
        ensures
            req.method == LightMethod::Get,
            req.route == Route::StickerPacks,
            req.body is None,
            req.multipart is None,
            req.headers is None,
            req.params is None,
            req.wf(),
    {
        Request {
            body: None,
            multipart: None,
            headers: None,
            method: LightMethod::Get,
            route: Route::StickerPacks,
            params: None,
        }
    }

    /// The request that gets all pins of a channel.
    pub fn get_pins(&self, channel_id: ChannelId) -> (req: Request<'static>)
        ensures
            req.method == LightMethod::Get,
            req.route == (Route::ChannelPins { channel_id }),
            req.body is None,
            req.multipart is None,
            req.headers is None,
            req.params is None,
            req.wf(),
    {
        Request {
            body: None,
            multipart: None,
            headers: None,
            method: LightMethod::Get,
            route: Route::ChannelPins { channel_id },
            params: None,
        }
    }

    /// The request that gets user ids based on their reaction to a message.
    ///
    /// `reaction` is the reaction's data as it stands in a path.
    pub fn get_reaction_users<'a>(
        &self,
        channel_id: ChannelId,
        message_id: MessageId,
        reaction: &'a str,
        limit: u8,
        after: Option<UserId>,
    ) -> (req: Request<'a>)
        ensures
            req.method == LightMethod::Get,
            req.route == (Route::ChannelMessageReactionEmoji { channel_id, message_id, reaction }),
            req.body is None,
            req.multipart is None,
            req.headers is None,
            req.query() == Some(
                seq![("limit"@, decimal(limit as nat))] + optional_pair(
                    "after"@,
                    match after {
                        Some(v) => Some(decimal(v.0 as nat)),
                        None => None,
                    },
                ),
            ),
            req.wf(),
    {
        let mut params = params_new();
        params_push(&mut params, "limit", decimal_u64(limit as u64));
        if let Some(v) = after {
            params_push(&mut params, "after", decimal_u64(v.get()));
        }
        let params = Some(params);
        let req = Request {
            body: None,
            multipart: None,
            headers: None,
            method: LightMethod::Get,
            route: Route::ChannelMessageReactionEmoji { channel_id, message_id, reaction },
            params,
        };
        assert(req.query()->0 =~= seq![("limit"@, decimal(limit as nat))] + optional_pair(
                "after"@,
                match after {
                    Some(v) => Some(decimal(v.0 as nat)),
                    None => None,
                },
            ));
        req
    }

    /// The request that gets all SKUs for the current application.
    ///
    /// Fails if the application id is not known.
    pub fn get_skus(&self) -> (r: Result<Request<'static>, DispatchError>)
        ensures
            match r {
                Ok(req) => {
                    &&& self.known_application() is Some
                    &&& req.method == LightMethod::Get
                    &&& req.route == (Route::Skus { application_id: self.known_application()->0 })
                    &&& req.body is None
                    &&& req.multipart is None
                    &&& req.headers is None
                    &&& req.params is None
                    &&& req.wf()
                },
                Err(e) => self.known_application() is None && e is PreconditionMissing,
            },
    {
        let application_id = match self.try_application_id() {
            Ok(id) => id,
            Err(e) => return Err(e),
        };
        Ok(Request {
            body: None,
            multipart: None,
            headers: None,
            method: LightMethod::Get,
            route: Route::Skus { application_id },
            params: None,
        })
    }

    /// The request that gets a sticker.
    pub fn get_sticker(&self, sticker_id: StickerId) -> (req: Request<'static>)
        ensures
            req.method == LightMethod::Get,
            req.route == (Route::Sticker { sticker_id }),
            req.body is None,
            req.multipart is None,
            req.headers is None,
            req.params is None,
            req.wf(),
    {
        Request {
            body: None,
            multipart: None,
            headers: None,
            method: LightMethod::Get,
            route: Route::Sticker { sticker_id },
            params: None,
        }
    }

    /// The request that gets the current unresolved incidents from Discord's
    /// Status API.
    pub fn get_unresolved_incidents(&self) -> (req: Request<'static>)
        ensures
            req.method == LightMethod::Get,
            req.route == Route::StatusIncidentsUnresolved,
            req.body is None,
            req.multipart is None,
            req.headers is None,
            req.params is None,
            req.wf(),
    {
        Request {
            body: None,
            multipart: None,
            headers: None,
            method: LightMethod::Get,
            route: Route::StatusIncidentsUnresolved,
            params: None,
        }
    }

    /// The request that gets the upcoming (planned) maintenances from Discord's
    /// Status API.
    pub fn get_upcoming_maintenances(&self) -> (req: Request<'static>)
        ensures
            req.method == LightMethod::Get,
            req.route == Route::StatusMaintenancesUpcoming,
            req.body is None,
            req.multipart is None,
            req.headers is None,
            req.params is None,
            req.wf(),
    {
        Request {
            body: None,
            multipart: None,
            headers: None,
            method: LightMethod::Get,
            route: Route::StatusMaintenancesUpcoming,
            params: None,
        }
    }

    /// The request that gets a user by id.
    pub fn get_user(&self, user_id: UserId) -> (req: Request<'static>)
        ensures
            req.method == LightMethod::Get,
            req.route == (Route::User { user_id }),
            req.body is None,
            req.multipart is None,
            req.headers is None,
            req.params is None,
            req.wf(),
    {
        Request {
            body: None,
            multipart: None,
            headers: None,
            method: LightMethod::Get,
            route: Route::User { user_id },
            params: None,
        }
    }

    /// The request that gets the current user's third party connections.
    pub fn get_user_connections(&self) -> (req: Request<'static>)
        ensures
            req.method == LightMethod::Get,
            req.route == Route::UserMeConnections,
            req.body is None,
            req.multipart is None,
            req.headers is None,
            req.params is None,
            req.wf(),
    {
        Request {
            body: None,
            multipart: None,
            headers: None,
            method: LightMethod::Get,
            route: Route::UserMeConnections,
            params: None,
        }
    }

    /// The request that gets the current user's direct message channels.
    pub fn get_user_dm_channels(&self) -> (req: Request<'static>)
        ensures
            req.method == LightMethod::Get,
            req.route == Route::UserMeDmChannels,
            req.body is None,
            req.multipart is None,
            req.headers is None,
            req.params is None,
            req.wf(),
    {
        Request {
            body: None,
            multipart: None,
            headers: None,
            method: LightMethod::Get,
            route: Route::UserMeDmChannels,
            params: None,
        }
    }

    /// The request that gets all voice regions.
    pub fn get_voice_regions(&self) -> (req: Request<'static>)
        ensures
            req.method == LightMethod::Get,
            req.route == Route::VoiceRegions,
            req.body is None,
            req.multipart is None,
            req.headers is None,
            req.params is None,
            req.wf(),
    {
        Request {
            body: None,
            multipart: None,
            headers: None,
            method: LightMethod::Get,
            route: Route::VoiceRegions,
            params: None,
        }
    }

    /// The request that retrieves a webhook given its id.
    pub fn get_webhook(&self, webhook_id: WebhookId) -> (req: Request<'static>)
        ensures
            req.method == LightMethod::Get,
            req.route == (Route::Webhook { webhook_id }),
            req.body is None,
            req.multipart is None,
            req.headers is None,
            req.params is None,
            req.wf(),
    {
        Request {
            body: None,
            multipart: None,
            headers: None,
            method: LightMethod::Get,
            route: Route::Webhook { webhook_id },
            params: None,
        }
    }

    /// The request that retrieves a webhook given its id and unique token.
    pub fn get_webhook_with_token<'a>(
        &self,
        webhook_id: WebhookId,
        token: &'a str,
    ) -> (req: Request<'a>)
        ensures
            req.method == LightMethod::Get,
            req.route == (Route::WebhookWithToken { webhook_id, token }),
            req.body is None,
            req.multipart is None,
            req.headers is None,
            req.params is None,
            req.wf(),
    {
        Request {
            body: None,
            multipart: None,
            headers: None,
            method: LightMethod::Get,
            route: Route::WebhookWithToken { webhook_id, token },
            params: None,
        }
    }

    /// The request that retrieves a webhook given its url.
    ///
    /// The id and the token are the two that the webhook's address holds.
    pub fn get_webhook_from_url<'a>(
        &self,
        webhook_id: WebhookId,
        token: &'a str,
    ) -> (req: Request<'a>)
        ensures
            req.method == LightMethod::Get,
            req.route == (Route::WebhookWithToken { webhook_id, token }),
            req.body is None,
            req.multipart is None,
            req.headers is None,
            req.params is None,
            req.wf(),
    {
        Request {
            body: None,
            multipart: None,
            headers: None,
            method: LightMethod::Get,
            route: Route::WebhookWithToken { webhook_id, token },
            params: None,
        }
    }

    /// The request that kicks a member from a guild with a provided reason.
    ///
    /// The response is expected to have no content.
    pub fn kick_member(
        &self,
        guild_id: GuildId,
        user_id: UserId,
        reason: Option<&str>,
    ) -> (req: Request<'static>)
        ensures
            req.method == LightMethod::Delete,
            req.route == (Route::GuildMember { guild_id, user_id }),
            req.body is None,
            req.multipart is None,
            req.extra_headers() == reason_header(reason),
            req.params is None,
            req.wf(),
    {
        Request {
            body: None,
            multipart: None,
            headers: reason_headers(reason),
            method: LightMethod::Delete,
            route: Route::GuildMember { guild_id, user_id },
            params: None,
        }
    }

    /// The request that leaves a guild.
    ///
    /// The response is expected to have no content.
    pub fn leave_guild(&self, guild_id: GuildId) -> (req: Request<'static>)
        ensures
            req.method == LightMethod::Delete,
            req.route == (Route::UserMeGuild { guild_id }),
            req.body is None,
            req.multipart is None,
            req.headers is None,
            req.params is None,
            req.wf(),
    {
        Request {
            body: None,
            multipart: None,
            headers: None,
            method: LightMethod::Delete,
            route: Route::UserMeGuild { guild_id },
            params: None,
        }
    }

    /// The request that sends a message to a channel.
    ///
    /// `map` is the payload as JSON text: without files it is the body, with
    /// files it travels beside them in a multipart body.
    pub fn send_message(
        &self,
        channel_id: ChannelId,
        files: Vec<CreateAttachment>,
        map: String,
    ) -> (req: Request<'static>)
        ensures
            req.method == LightMethod::Post,
            req.route == (Route::ChannelMessages { channel_id }),
            carries_payload(req, files, map),
            req.headers is None,
            req.params is None,
            req.wf(),
    {
        let (body, multipart) = payload_with_files(files, map);
        Request {
            body,
            multipart,
            headers: None,
            method: LightMethod::Post,
            route: Route::ChannelMessages { channel_id },
            params: None,
        }
    }

    /// The request that pins a message in a channel.
    ///
    /// The response is expected to have no content.
    pub fn pin_message(
        &self,
        channel_id: ChannelId,
        message_id: MessageId,
        audit_log_reason: Option<&str>,
    ) -> (req: Request<'static>)
        ensures
            req.method == LightMethod::Put,
            req.route == (Route::ChannelPin { channel_id, message_id }),
            req.body is None,
            req.multipart is None,
            req.extra_headers() == reason_header(audit_log_reason),
            req.params is None,
            req.wf(),
    {
        Request {
            body: None,
            multipart: None,
            headers: reason_headers(audit_log_reason),
            method: LightMethod::Put,
            route: Route::ChannelPin { channel_id, message_id },
            params: None,
        }
    }

    /// The request that unbans a user from a guild.
    ///
    /// The response is expected to have no content.
    pub fn remove_ban(
        &self,
        guild_id: GuildId,
        user_id: UserId,
        audit_log_reason: Option<&str>,
    ) -> (req: Request<'static>)
        ensures
            req.method == LightMethod::Delete,
            req.route == (Route::GuildBan { guild_id, user_id }),
            req.body is None,
            req.multipart is None,
            req.extra_headers() == reason_header(audit_log_reason),
            req.params is None,
            req.wf(),
    {
        Request {
            body: None,
            multipart: None,
            headers: reason_headers(audit_log_reason),
            method: LightMethod::Delete,
            route: Route::GuildBan { guild_id, user_id },
            params: None,
        }
    }

    /// The request that deletes a single role from a member in a guild.
    ///
    /// The response is expected to have no content.
    pub fn remove_member_role(
        &self,
        guild_id: GuildId,
        user_id: UserId,
        role_id: RoleId,
        audit_log_reason: Option<&str>,
    ) -> (req: Request<'static>)
        ensures
            req.method == LightMethod::Delete,
            req.route == (Route::GuildMemberRole { guild_id, user_id, role_id }),
            req.body is None,
            req.multipart is None,
            req.extra_headers() == reason_header(audit_log_reason),
            req.params is None,
            req.wf(),
    {
        Request {
            body: None,
            multipart: None,
            headers: reason_headers(audit_log_reason),
            method: LightMethod::Delete,
            route: Route::GuildMemberRole { guild_id, user_id, role_id },
            params: None,
        }
    }

    /// The request that returns a list of members in a guild whose username or
    /// nickname starts with a provided string.
    ///
    /// The objects in the response do not name their guild;
    /// [`Http::with_guild_id_in_each`] puts it in before they are decoded.
    pub fn search_guild_members<'a>(
        &self,
        guild_id: GuildId,
        query: &'a str,
        limit: Option<NonMaxU16>,
    ) -> (req: Request<'a>)
        ensures
            req.method == LightMethod::Get,
            req.route == (Route::GuildMembersSearch { guild_id }),
            req.body is None,
            req.multipart is None,
            req.headers is None,
            req.query() == Some(
                seq![("query"@, query@)] + seq![
                    (
                        "limit"@,
                        decimal(
                            match limit {
                                Some(v) => u16_of(v) as nat,
                                None => MEMBER_FETCH_LIMIT as nat,
                            },
                        ),
                    ),
                ],
            ),
            req.wf(),
    {
        let mut params = params_new();
        params_push(&mut params, "query", String::from_str(query));
        let limit_value: u16 = match limit {
            Some(v) => v.get(),
            None => MEMBER_FETCH_LIMIT,
        };
        params_push(&mut params, "limit", decimal_u64(limit_value as u64));
        let params = Some(params);
        let req = Request {
            body: None,
            multipart: None,
            headers: None,
            method: LightMethod::Get,
            route: Route::GuildMembersSearch { guild_id },
            params,
        };
        assert(req.query()->0 =~= seq![("query"@, query@)] + seq![
                (
                    "limit"@,
                    decimal(
                        match limit {
                            Some(v) => u16_of(v) as nat,
                            None => MEMBER_FETCH_LIMIT as nat,
                        },
                    ),
                ),
            ]);
        req
    }

    /// The request that starts removing some members from a guild based on the
    /// last time they've been online.
    pub fn start_guild_prune(
        &self,
        guild_id: GuildId,
        days: u8,
        audit_log_reason: Option<&str>,
    ) -> (req: Request<'static>)
        ensures
            req.method == LightMethod::Post,
            req.route == (Route::GuildPrune { guild_id }),
            req.body is None,
            req.multipart is None,
            req.extra_headers() == reason_header(audit_log_reason),
            req.query() == Some(seq![("days"@, decimal(days as nat))]),
            req.wf(),
    {
        let mut params = params_new();
        params_push(&mut params, "days", decimal_u64(days as u64));
        let params = Some(params);
        let req = Request {
            body: None,
            multipart: None,
            headers: reason_headers(audit_log_reason),
            method: LightMethod::Post,
            route: Route::GuildPrune { guild_id },
            params,
        };
        assert(req.query()->0 =~= seq![("days"@, decimal(days as nat))]);
        req
    }

    /// The request that starts syncing an integration with a guild.
    ///
    /// The response is expected to have no content.
    pub fn start_integration_sync(
        &self,
        guild_id: GuildId,
        integration_id: IntegrationId,
    ) -> (req: Request<'static>)
        ensures
            req.method == LightMethod::Post,
            req.route == (Route::GuildIntegrationSync { guild_id, integration_id }),
            req.body is None,
            req.multipart is None,
            req.headers is None,
            req.params is None,
            req.wf(),
    {
        Request {
            body: None,
            multipart: None,
            headers: None,
            method: LightMethod::Post,
            route: Route::GuildIntegrationSync { guild_id, integration_id },
            params: None,
        }
    }

    /// The request that unpins a message from a channel.
    ///
    /// The response is expected to have no content.
    pub fn unpin_message(
        &self,
        channel_id: ChannelId,
        message_id: MessageId,
        audit_log_reason: Option<&str>,
    ) -> (req: Request<'static>)
        ensures
            req.method == LightMethod::Delete,
            req.route == (Route::ChannelPin { channel_id, message_id }),
            req.body is None,
            req.multipart is None,
            req.extra_headers() == reason_header(audit_log_reason),
            req.params is None,
            req.wf(),
    {
        Request {
            body: None,
            multipart: None,
            headers: reason_headers(audit_log_reason),
            method: LightMethod::Delete,
            route: Route::ChannelPin { channel_id, message_id },
            params: None,
        }
    }

    /// Names the guild in an object that the server sent without it: sets the
    /// member `guild_id` to the id. A value that is no object stays as it is.
    pub fn with_guild_id(value: JsonValue, guild_id: GuildId) -> (named: JsonValue)
        ensures
            value.with_number(named, "guild_id"@, decimal(guild_id.0 as nat)),
    {
        value.insert_u64("guild_id", guild_id.get())
    }

    /// Names the guild in each object of an array that the server sent
    /// without it. A value that is no array stays as it is, and so does an
    /// element that is no object.
    pub fn with_guild_id_in_each(value: JsonValue, guild_id: GuildId) -> (named: JsonValue)
        ensures
            value.with_number_in_each(named, "guild_id"@, decimal(guild_id.0 as nat)),
    {
        value.insert_u64_in_each("guild_id", guild_id.get())
    }

    /// Gives a finished call's decoded value. `outcome` is how the call
    /// ended; `decoded` is the body of its response decoded as the caller's
    /// type, absent if the body does not have that shape. A failed call keeps
    /// its error; a successful one whose body could not be decoded fails as
    /// [`DispatchError::Decode`].
    pub fn fire<T>(
        outcome: Result<RawResponse, DispatchError>,
        decoded: Option<T>,
    ) -> (r: Result<T, DispatchError>)
        ensures
            match outcome {
                Err(e) => r == Err::<T, DispatchError>(e),
                Ok(_) => match decoded {
                    Some(value) => r == Ok::<T, DispatchError>(value),
                    None => r matches Err(e) && e is Decode,
                },
            },
    {
        match outcome {
            Err(e) => Err(e),
            Ok(_) => match decoded {
                Some(value) => Ok(value),
                None => Err(DispatchError::Decode),
            },
        }
    }

    /// Assembles a request for the transport with the client's token and
    /// proxy: the first half of a call. The second half is the ratelimiter's:
    /// [`Ratelimiter::after_response`] says whether the response ends the
    /// call, and with what.
    pub fn request(&self, req: Request<'_>) -> (t: TransportRequest)
        requires
            req.wf(),
        ensures
            t.method == req.method,
            t.url@ == req.address(self.proxy_address()),
            header_pairs(t.headers@) == req.sent_headers(self.token_text()),
            req.sends_body(t.body),
    {
        let token = match &self.token {
            Some(t) => Some(t.expose_secret()),
            None => None,
        };
        let proxy = match &self.proxy {
            Some(p) => Some(p.as_str()),
            None => None,
        };
        req.build(token, proxy)
    }

    /// Ends a call that expects no content. A failed call keeps its error.
    /// A successful one succeeds whatever its status: with 204 silently,
    /// with another status with a line for the log that names the route and
    /// the status.
    pub fn wind(
        route: Route<'_>,
        outcome: Result<RawResponse, DispatchError>,
    ) -> (r: Result<Option<String>, DispatchError>)
        ensures
            match outcome {
                Err(e) => r == Err::<Option<String>, DispatchError>(e),
                Ok(raw) => r matches Ok(note) && (if raw.status == NO_CONTENT {
                    note is None
                } else {
                    note matches Some(line) && line@ == wind_diagnostic(route, raw.status)
                }),
            },
    {
        match outcome {
            Err(e) => Err(e),
            Ok(raw) => {
                if raw.status == NO_CONTENT {
                    Ok(None)
                } else {
                    let mut line = String::from_str("Mismatched successful response status from ");
                    line.append(route.path().as_str());
                    line.append("! Expected 'No Content' but got ");
                    line.append(decimal_u64(raw.status as u64).as_str());
                    Ok(Some(line))
                }
            },
        }
    }
}

} // verus!
