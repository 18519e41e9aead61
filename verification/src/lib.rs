//! Client core for a discodo audio node.
//!
//! The crate decides what is sent to the node and what a reply means. It
//! performs no input or output itself: every call hands back the request to
//! send, and the reply is handed in once it has arrived.
//!
//! A call runs in three steps. An operation of [`Discodo`] gives the
//! [`http::Call`]: the request and the way its reply is read, or nothing
//! where the call names nobody. The caller sends the request and hands the
//! status code of the reply to [`http::Http::status`], which either ends the
//! call or asks for the body. The body then goes to [`http::Http::body`],
//! which ends the call.
//!
//! Numbers that the node's interface writes with a fraction are held by
//! their bit patterns ([`model::Binary32`], [`model::Binary64`]); the crate
//! never computes with them.

use vstd::prelude::*;

pub mod http;
pub mod model;
pub mod request_values;
pub mod response_values;
pub mod text;

use crate::http::{
    get_request, headers_of, option_view, post_request, result_view, Call, CallView, DiscodoError,
    DiscodoErrorView, Http, Identity, Method, RequestView, Shape,
};
use crate::model::{Binary32, GuildId, UserId};
use crate::request_values::{
    LoadSource, LoadSourceView, Nothing, PutSoucre, PutSoucreView, Seek, SetAutoplay, SetCrossfade,
    SetGapless, SetVolume, Skip, Unmark, UnmarkView,
};
use crate::response_values::Source;

verus! {

/// Port of a node that was given none.
pub const DEFAULT_PORT: usize = 8000;

/// Connection settings of one node, fixed when the client is made.
#[derive(Clone, Debug, PartialEq, Eq)]
pub struct ClientBuilder {
    pub host: String,
    pub port: usize,
    pub password: String,
    pub http_uri: String,
    pub ws_uri: String,
}

/// The shared secret of a node that was given none.
pub open spec fn default_password() -> Seq<char> {
    "hellodiscodo"@
}

/// Base URI of the REST interface: `http://host:port/`.
pub open spec fn http_base(host: Seq<char>, port: nat) -> Seq<char> {
    "http://"@ + host + ":"@ + text::decimal(port) + "/"@
}

/// URI of the streaming endpoint: `ws://host:port/ws/`.
pub open spec fn ws_base(host: Seq<char>, port: nat) -> Seq<char> {
    "ws://"@ + host + ":"@ + text::decimal(port) + "/ws/"@
}

/// The text of an optional string slice.
pub open spec fn optional_str(text: Option<&str>) -> Option<Seq<char>> {
    match text {
        Some(t) => Some(t@),
        None => None,
    }
}

impl ClientBuilder {
    /// Both base URIs are the ones derived from host and port.
    pub open spec fn well_formed(&self) -> bool {
        &&& self.http_uri@ == http_base(self.host@, self.port as nat)
        &&& self.ws_uri@ == ws_base(self.host@, self.port as nat)
    }

    /// These are the settings for the node at `host`, with 8000 for a
    /// missing port and `hellodiscodo` for a missing password.
    pub open spec fn describes(
        &self,
        host: Seq<char>,
        port: Option<usize>,
        password: Option<Seq<char>>,
    ) -> bool {
        &&& self.host@ == host
        &&& self.port == match port {
            Some(p) => p,
            None => DEFAULT_PORT,
        }
        &&& self.password@ == match password {
            Some(p) => p,
            None => default_password(),
        }
        &&& self.well_formed()
    }

    /// Settings for the node at `host`. A missing port is 8000, a missing
    /// password is `hellodiscodo`.
    pub fn new(host: &str, port: Option<usize>, password: Option<&str>) -> (config: Self)
        ensures
            config.describes(host@, port, optional_str(password)),
    {
        let port = match port {
            Some(some) => some,
            None => DEFAULT_PORT,
        };
        let password = match password {
            Some(some) => String::from_str(some),
            None => String::from_str("hellodiscodo"),
        };
        let digits = text::to_decimal(port as u64);
        let mut http_uri = String::from_str("http://");
        http_uri.append(host);
        http_uri.append(":");
        http_uri.append(digits.as_str());
        http_uri.append("/");
        let mut ws_uri = String::from_str("ws://");
        ws_uri.append(host);
        ws_uri.append(":");
        ws_uri.append(digits.as_str());
        ws_uri.append("/ws/");
        Self { host: String::from_str(host), port, password, http_uri, ws_uri }
    }
}

/// Whom the client works for. The identity is assigned once and then stays.
#[derive(Clone, Copy, Debug, PartialEq, Eq, Structural)]
pub struct ClientData {
    pub shard_count: u64,
    pub initialed: bool,
    pub user_id: UserId,
    pub guild_id: GuildId,
}

impl ClientData {
    /// The state of a client that has no identity yet.
    pub open spec fn unset() -> ClientData {
        ClientData { shard_count: 0, initialed: false, user_id: UserId(0), guild_id: GuildId(0) }
    }

    /// The state after an attempt to assign an identity: the first attempt
    /// is taken and locks the state, every later one changes nothing.
    pub open spec fn assigned(self, user_id: UserId, guild_id: GuildId) -> ClientData {
        if self.initialed {
            self
        } else {
            ClientData { shard_count: self.shard_count, initialed: true, user_id, guild_id }
        }
    }
}

impl Default for ClientData {
    fn default() -> (data: ClientData)
        ensures
            data == ClientData::unset(),
    {
        ClientData { shard_count: 0, initialed: false, user_id: UserId(0), guild_id: GuildId(0) }
    }
}

/// Whether an attempt to assign an identity was taken.
#[derive(Clone, Copy, Debug, PartialEq, Eq, Structural)]
pub enum Assignment {
    /// The identity was assigned and is now locked.
    Assigned,
    /// An identity had been assigned before; nothing changed.
    AlreadyInitialized,
}

/// Whether a call names nobody: one of its two identifiers is the zero
/// that stands for "none". Such a call sends nothing.
pub open spec fn unidentified(user_id: UserId, guild_id: GuildId) -> bool {
    user_id.0 == 0 || guild_id.0 == 0
}

/// The call that reads `router` for nobody.
pub open spec fn read_call(
    config: ClientBuilder,
    router: Seq<char>,
    shape: Shape,
) -> CallView<Nothing> {
    CallView { request: get_request(config, router, None, None), shape }
}

/// The call that reads `router` for a user in a guild, or none where the
/// call names nobody.
pub open spec fn guild_read_call(
    config: ClientBuilder,
    router: Seq<char>,
    user_id: UserId,
    guild_id: GuildId,
    shape: Shape,
) -> Option<CallView<Nothing>> {
    if unidentified(user_id, guild_id) {
        None
    } else {
        Some(CallView { request: get_request(config, router, Some(user_id), Some(guild_id)), shape })
    }
}

/// The call that writes to `router` for a user in a guild, or none where
/// the call names nobody. It is made under the user's identity.
pub open spec fn guild_write_call<P>(
    config: ClientBuilder,
    router: Seq<char>,
    user_id: UserId,
    guild_id: GuildId,
    json: Option<P>,
    shape: Shape,
) -> Option<CallView<P>> {
    if unidentified(user_id, guild_id) {
        None
    } else {
        Some(
            CallView {
                request: RequestView {
                    method: Method::Post,
                    uri: config.http_uri@ + router,
                    headers: headers_of(config.password@, Identity::User(user_id)),
                    json,
                },
                shape,
            },
        )
    }
}

/// A URL of the `url` crate, as `url::Url::parse` hands it out. The client
/// passes it on without looking inside.
#[verifier::external_type_specification]
#[verifier::external_body]
pub struct ExUrl(url::Url);

/// The reason for which `url::Url::parse` refuses a text.
#[verifier::external_type_specification]
#[verifier::external_body]
pub struct ExUrlParseError(url::ParseError);

/// Whether `url::Url::parse` takes `text` as an absolute URL.
pub uninterp spec fn url_parses(text: Seq<char>) -> bool;

/// `url::Url::parse`: reads `text` as an absolute URL. Nothing is claimed
/// of the URL or of the reason for a refusal, only that the same text is
/// always taken or always refused.
#[verifier::external_body]
fn parse_url(text: &str) -> (url: Result<url::Url, url::ParseError>)
    ensures
        (url is Ok) == url_parses(text@),
{
    url::Url::parse(text)
}

/// The client of one node: its settings and the identity it works for.
#[derive(Clone, Debug, PartialEq, Eq)]
pub struct Discodo {
    client_data: ClientData,
    config: ClientBuilder,
}

impl Discodo {
    /// The settings that the client was made with.
    pub closed spec fn spec_config(&self) -> &ClientBuilder {
        &self.config
    }

    /// The identity state of the client.
    pub closed spec fn spec_client_data(&self) -> ClientData {
        self.client_data
    }

    /// The settings that the client was made with.
    #[verifier::when_used_as_spec(spec_config)]
    pub fn config(&self) -> (config: &ClientBuilder)
        ensures
            config == self.spec_config(),
    {
        &self.config
    }

    /// The identity state of the client.
    #[verifier::when_used_as_spec(spec_client_data)]
    pub fn client_data(&self) -> (data: ClientData)
        ensures
            data == self.spec_client_data(),
    {
        self.client_data
    }

    /// A client for the node at `host` that has no identity yet. A missing
    /// port is 8000, a missing password is `hellodiscodo`.
    pub fn serenity(host: &str, port: Option<usize>, password: Option<&str>) -> (discodo: Self)
        ensures
            discodo.config().describes(host@, port, optional_str(password)),
            discodo.client_data() == ClientData::unset(),
    {
        Self { client_data: ClientData::default(), config: ClientBuilder::new(host, port, password) }
    }

    /// The streaming endpoint of the node, for the connection that is opened
    /// when the client starts. The endpoint is `ws_uri` read as a URL; where
    /// that is no URL there is nothing to connect to.
    pub fn connect(&self) -> (endpoint: Result<url::Url, DiscodoError>)
        ensures
            endpoint is Ok <==> url_parses(self.config().ws_uri@),
            endpoint matches Err(error) ==> error@ == DiscodoErrorView::InvalidEndpoint(
                self.config().ws_uri@,
            ),
    {
        let parsed = parse_url(self.config.ws_uri.as_str());
        self.endpoint(parsed)
    }

    /// What reading `ws_uri` as a URL came to: the URL where it is one,
    /// else a failure that quotes `ws_uri`.
    pub fn endpoint(
        &self,
        parsed: Result<url::Url, url::ParseError>,
    ) -> (endpoint: Result<url::Url, DiscodoError>)
        ensures
            match parsed {
                Ok(url) => endpoint == Ok::<url::Url, DiscodoError>(url),
                Err(_) => endpoint is Err && endpoint->Err_0@ == DiscodoErrorView::InvalidEndpoint(
                    self.config().ws_uri@,
                ),
            },
    {
        match parsed {
            Ok(url) => Ok(url),
            Err(_) => Err(DiscodoError::InvalidEndpoint(self.config.ws_uri.clone())),
        }
    }

    /// Assigns the identity that the client works for. Only the first call
    /// does so; after it the identity is locked and later calls change
    /// nothing.
    pub fn get(&mut self, user_id: UserId, guild_id: GuildId) -> (assignment: Assignment)
        ensures
            final(self).client_data() == old(self).client_data().assigned(user_id, guild_id),
            final(self).config() == old(self).config(),
            assignment == if old(self).client_data().initialed {
                Assignment::AlreadyInitialized
            } else {
                Assignment::Assigned
            },
    {
        if self.client_data.initialed {
            return Assignment::AlreadyInitialized;
        }
        self.client_data.guild_id = guild_id;
        self.client_data.user_id = user_id;
        self.client_data.initialed = true;
        Assignment::Assigned
    }

    /// The call of a guild-scoped read.
    fn guild_read(
        &self,
        router: &str,
        user_id: UserId,
        guild_id: GuildId,
        shape: Shape,
    ) -> (call: Option<Call<Nothing>>)
        ensures
            option_view(call) == guild_read_call(
                *self.config(),
                router@,
                user_id,
                guild_id,
                shape,
            ),
    {
        if user_id.is_unset() || guild_id.is_unset() {
            return None;
        }
        Some(Call { request: Http::get(self, router, Some(user_id), Some(guild_id)), shape })
    }

    /// The call of a guild-scoped write.
    fn guild_write<T: View>(
        &self,
        router: &str,
        user_id: UserId,
        guild_id: GuildId,
        json: Option<T>,
        shape: Shape,
    ) -> (call: Option<Call<T>>)
        ensures
            option_view(call) == guild_write_call(
                *self.config(),
                router@,
                user_id,
                guild_id,
                option_view(json),
                shape,
            ),
    {
        if user_id.is_unset() || guild_id.is_unset() {
            return None;
        }
        // The dispatcher refuses only a write for nobody, and this one is
        // made for a user.
        match Http::post(self, router, Some(user_id), Some(guild_id), json) {
            Ok(request) => Some(Call { request, shape }),
            Err(_) => None,
        }
    }

    /// Reads the load figures of the node. The reply is JSON.
    pub fn status(&self) -> (call: Call<Nothing>)
        ensures
            call@ == read_call(*self.config(), "status"@, Shape::Json),
    {
        Call { request: Http::get(self, "status", None, None), shape: Shape::Json }
    }

    /// Reads the state of the node's address planner, as text.
    pub fn planner(&self) -> (call: Call<Nothing>)
        ensures
            call@ == read_call(*self.config(), "planner"@, Shape::Text),
    {
        Call { request: Http::get(self, "planner", None, None), shape: Shape::Text }
    }

    /// Releases one address of the planner. The operation is a write that
    /// names neither a user nor a guild, and the dispatcher makes no write
    /// for nobody: the call always fails with `IdentityMissing`.
    pub fn unmark(&self, address: &str) -> (call: Result<Call<Unmark>, DiscodoError>)
        ensures
            result_view(call) == Err::<CallView<UnmarkView>, DiscodoErrorView>(
                DiscodoErrorView::IdentityMissing,
            ),
    {
        let json = Unmark { address: String::from_str(address) };
        match Http::post(self, "planner/unmark", None, None, Some(json)) {
            Ok(request) => Ok(Call { request, shape: Shape::Text }),
            Err(error) => Err(error),
        }
    }

    /// Releases all addresses of the planner. Like [`Discodo::unmark`] it
    /// names nobody and always fails with `IdentityMissing`.
    pub fn unmark_all(&self) -> (call: Result<Call<Nothing>, DiscodoError>)
        ensures
            result_view(call) == Err::<CallView<Nothing>, DiscodoErrorView>(
                DiscodoErrorView::IdentityMissing,
            ),
    {
        match Http::post::<Nothing>(self, "planner/unmark/all", None, None, None) {
            Ok(request) => Ok(Call { request, shape: Shape::Text }),
            Err(error) => Err(error),
        }
    }

    /// Looks up the source that `query` names. The query is appended to the
    /// route as it is. The reply is JSON.
    pub fn get_source(&self, query: &str) -> (call: Call<Nothing>)
        ensures
            call@ == read_call(*self.config(), "getSource?query="@ + query@, Shape::Json),
    {
        let router = text::join("getSource?query=", query);
        Call { request: Http::get(self, router.as_str(), None, None), shape: Shape::Json }
    }

    /// Enqueues `source` for the guild. The reply is text.
    pub fn put_source(
        &self,
        user_id: UserId,
        guild_id: GuildId,
        source: Source,
    ) -> (call: Option<Call<PutSoucre>>)
        ensures
            option_view(call) == guild_write_call(
                *self.config(),
                "putSource"@,
                user_id,
                guild_id,
                Some((PutSoucreView { source: source@ })),
                Shape::Text,
            ),
    {
        self.guild_write("putSource", user_id, guild_id, Some(PutSoucre { source }), Shape::Text)
    }

    /// Searches for `query` and enqueues what is found for the guild. The
    /// reply is text.
    pub fn load_source(
        &self,
        user_id: UserId,
        guild_id: GuildId,
        query: &str,
    ) -> (call: Option<Call<LoadSource>>)
        ensures
            option_view(call) == guild_write_call(
                *self.config(),
                "loadSource"@,
                user_id,
                guild_id,
                Some((LoadSourceView { query: query@ })),
                Shape::Text,
            ),
    {
        if user_id.is_unset() || guild_id.is_unset() {
            return None;
        }
        let json = LoadSource { query: String::from_str(query) };
        self.guild_write("loadSource", user_id, guild_id, Some(json), Shape::Text)
    }

    /// Sets the volume of the guild's player. Only the status code of the
    /// reply counts.
    pub fn set_volume(
        &self,
        user_id: UserId,
        guild_id: GuildId,
        volume: Binary32,
    ) -> (call: Option<Call<SetVolume>>)
        ensures
            option_view(call) == guild_write_call(
                *self.config(),
                "setVolume"@,
                user_id,
                guild_id,
                Some((SetVolume { volume })),
                Shape::Status,
            ),
    {
        self.guild_write("setVolume", user_id, guild_id, Some(SetVolume { volume }), Shape::Status)
    }

    /// Sets the crossfade of the guild's player. Only the status code of
    /// the reply counts.
    pub fn set_crossfade(
        &self,
        user_id: UserId,
        guild_id: GuildId,
        crossfade: Binary32,
    ) -> (call: Option<Call<SetCrossfade>>)
        ensures
            option_view(call) == guild_write_call(
                *self.config(),
                "setCrossfade"@,
                user_id,
                guild_id,
                Some((SetCrossfade { crossfade })),
                Shape::Status,
            ),
    {
        self.guild_write(
            "setCrossfade",
            user_id,
            guild_id,
            Some(SetCrossfade { crossfade }),
            Shape::Status,
        )
    }

    /// Sets the gapless length of the guild's player. Only the status code
    /// of the reply counts.
    pub fn set_gapless(
        &self,
        user_id: UserId,
        guild_id: GuildId,
        gapless: Binary32,
    ) -> (call: Option<Call<SetGapless>>)
        ensures
            option_view(call) == guild_write_call(
                *self.config(),
                "setGapless"@,
                user_id,
                guild_id,
                Some((SetGapless { gapless })),
                Shape::Status,
            ),
    {
        self.guild_write(
            "setGapless",
            user_id,
            guild_id,
            Some(SetGapless { gapless }),
            Shape::Status,
        )
    }

    /// Switches autoplay of the guild's player. Only the status code of the
    /// reply counts.
    pub fn set_autoplay(
        &self,
        user_id: UserId,
        guild_id: GuildId,
        autoplay: bool,
    ) -> (call: Option<Call<SetAutoplay>>)
        ensures
            option_view(call) == guild_write_call(
                *self.config(),
                "setAutoplay"@,
                user_id,
                guild_id,
                Some((SetAutoplay { autoplay })),
                Shape::Status,
            ),
    {
        self.guild_write(
            "setAutoplay",
            user_id,
            guild_id,
            Some(SetAutoplay { autoplay }),
            Shape::Status,
        )
    }

    /// Jumps to `offset` in what the guild's player plays. Only the status
    /// code of the reply counts.
    pub fn seek(
        &self,
        user_id: UserId,
        guild_id: GuildId,
        offset: Binary32,
    ) -> (call: Option<Call<Seek>>)
        ensures
            option_view(call) == guild_write_call(
                *self.config(),
                "seek"@,
                user_id,
                guild_id,
                Some((Seek { offset })),
                Shape::Status,
            ),
    {
        self.guild_write("seek", user_id, guild_id, Some(Seek { offset }), Shape::Status)
    }

    /// Skips `offset` ahead in the guild's queue. Only the status code of
    /// the reply counts.
    pub fn skip(
        &self,
        user_id: UserId,
        guild_id: GuildId,
        offset: Binary32,
    ) -> (call: Option<Call<Skip>>)
        ensures
            option_view(call) == guild_write_call(
                *self.config(),
                "skip"@,
                user_id,
                guild_id,
                Some((Skip { offset })),
                Shape::Status,
            ),
    {
        self.guild_write("skip", user_id, guild_id, Some(Skip { offset }), Shape::Status)
    }

    /// Pauses the guild's player. Only the status code of the reply counts.
    pub fn pause(&self, user_id: UserId, guild_id: GuildId) -> (call: Option<Call<Nothing>>)
        ensures
            option_view(call) == guild_write_call::<Nothing>(
                *self.config(),
                "pause"@,
                user_id,
                guild_id,
                None,
                Shape::Status,
            ),
    {
        self.guild_write::<Nothing>("pause", user_id, guild_id, None, Shape::Status)
    }

    /// Resumes the guild's player. Only the status code of the reply counts.
    pub fn resume(&self, user_id: UserId, guild_id: GuildId) -> (call: Option<Call<Nothing>>)
        ensures
            option_view(call) == guild_write_call::<Nothing>(
                *self.config(),
                "resume"@,
                user_id,
                guild_id,
                None,
                Shape::Status,
            ),
    {
        self.guild_write::<Nothing>("resume", user_id, guild_id, None, Shape::Status)
    }

    /// Shuffles the guild's queue. The reply is text.
    pub fn shuffle(&self, user_id: UserId, guild_id: GuildId) -> (call: Option<Call<Nothing>>)
        ensures
            option_view(call) == guild_write_call::<Nothing>(
                *self.config(),
                "shuffle"@,
                user_id,
                guild_id,
                None,
                Shape::Text,
            ),
    {
        self.guild_write::<Nothing>("shuffle", user_id, guild_id, None, Shape::Text)
    }

    /// Removes from the guild's queue. The reply is text.
    pub fn remove(&self, user_id: UserId, guild_id: GuildId) -> (call: Option<Call<Nothing>>)
        ensures
            option_view(call) == guild_write_call::<Nothing>(
                *self.config(),
                "remove"@,
                user_id,
                guild_id,
                None,
                Shape::Text,
            ),
    {
        self.guild_write::<Nothing>("remove", user_id, guild_id, None, Shape::Text)
    }

    /// Reads the state of the guild's player, as text.
    pub fn state(&self, user_id: UserId, guild_id: GuildId) -> (call: Option<Call<Nothing>>)
        ensures
            option_view(call) == guild_read_call(
                *self.config(),
                "state"@,
                user_id,
                guild_id,
                Shape::Text,
            ),
    {
        self.guild_read("state", user_id, guild_id, Shape::Text)
    }

    /// Reads the guild's queue, as text.
    pub fn queue(&self, user_id: UserId, guild_id: GuildId) -> (call: Option<Call<Nothing>>)
        ensures
            option_view(call) == guild_read_call(
                *self.config(),
                "queue"@,
                user_id,
                guild_id,
                Shape::Text,
            ),
    {
        self.guild_read("queue", user_id, guild_id, Shape::Text)
    }

    /// Setting a filter is an operation of the node that this client does
    /// not offer yet: the call always fails with `Unsupported` and sends
    /// nothing.
    pub fn set_filter(
        &self,
        _user_id: UserId,
        _guild_id: GuildId,
    ) -> (call: Result<Call<Nothing>, DiscodoError>)
        ensures
            result_view(call) == Err::<CallView<Nothing>, DiscodoErrorView>(
                DiscodoErrorView::Unsupported,
            ),
    {
        Err(DiscodoError::Unsupported)
    }
}

/// A guild-scoped write that names somebody sends what the dispatcher
/// makes of a write for that user and that guild.
pub proof fn lemma_guild_write_is_a_post<P>(
    config: ClientBuilder,
    router: Seq<char>,
    user_id: UserId,
    guild_id: GuildId,
    json: Option<P>,
    shape: Shape,
)
    requires
        !unidentified(user_id, guild_id),
    ensures
        guild_write_call(config, router, user_id, guild_id, json, shape) is Some,
        post_request(config, router, Some(user_id), Some(guild_id), json) == Ok::<
            RequestView<P>,
            DiscodoErrorView,
        >(guild_write_call(config, router, user_id, guild_id, json, shape)->Some_0.request),
{
}

/// A guild-scoped call that names nobody sends nothing, whatever it was
/// to read or write; one that names both a user and a guild sends exactly
/// one request.
pub proof fn lemma_unidentified_sends_nothing<P>(
    config: ClientBuilder,
    router: Seq<char>,
    user_id: UserId,
    guild_id: GuildId,
    json: Option<P>,
    shape: Shape,
)
    ensures
        guild_read_call(config, router, user_id, guild_id, shape) is None <==> (user_id.0 == 0
            || guild_id.0 == 0),
        guild_write_call(config, router, user_id, guild_id, json, shape) is None <==> (user_id.0
            == 0 || guild_id.0 == 0),
{
}

/// The identity is written once: whatever the state was, a second
/// assignment after a first leaves it as the first left it, and locked.
pub proof fn lemma_identity_write_once(
    data: ClientData,
    first_user: UserId,
    first_guild: GuildId,
    second_user: UserId,
    second_guild: GuildId,
)
    ensures
        data.assigned(first_user, first_guild).initialed,
        data.assigned(first_user, first_guild).assigned(second_user, second_guild)
            == data.assigned(first_user, first_guild),
        !data.initialed ==> data.assigned(first_user, first_guild).user_id == first_user
            && data.assigned(first_user, first_guild).guild_id == first_guild,
{
}

} // verus!
