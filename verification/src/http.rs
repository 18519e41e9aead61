//! The dispatcher: which request a call sends, and what a reply means.

use crate::model::{GuildId, UserId};
use crate::request_values::Nothing;
use crate::text;
use crate::ClientBuilder;
use crate::Discodo;
use vstd::prelude::*;

verus! {

/// The two request methods that the node's interface uses.
#[derive(Clone, Copy, Debug, PartialEq, Eq, Structural)]
pub enum Method {
    Get,
    Post,
}

/// Whom a request is made for.
#[derive(Clone, Copy, Debug, PartialEq, Eq, Structural)]
pub enum Identity {
    /// Nobody: the request carries no identity header.
    Anonymous,
    /// A user: the request carries `User-ID`.
    User(UserId),
    /// A guild: the request carries `Guild-ID`.
    Guild(GuildId),
}

/// One header line of a request.
#[derive(Clone, Debug, PartialEq, Eq)]
pub struct Header {
    pub name: String,
    pub value: String,
}

/// A header line as plain text.
pub struct HeaderView {
    pub name: Seq<char>,
    pub value: Seq<char>,
}

impl View for Header {
    type V = HeaderView;

    open spec fn view(&self) -> HeaderView {
        HeaderView { name: self.name@, value: self.value@ }
    }
}

/// The header lines of a list, as plain text and in the same order.
pub open spec fn header_views(headers: Seq<Header>) -> Seq<HeaderView> {
    headers.map_values(|h: Header| h@)
}

/// A request that is ready to be sent. `json` is the body, to be written
/// as JSON; a request without one has no body at all.
#[derive(Clone, Debug, PartialEq, Eq)]
pub struct Request<T> {
    pub method: Method,
    pub uri: String,
    pub headers: Vec<Header>,
    pub json: Option<T>,
}

/// A request as plain values.
pub struct RequestView<P> {
    pub method: Method,
    pub uri: Seq<char>,
    pub headers: Seq<HeaderView>,
    pub json: Option<P>,
}

impl<T: View> View for Request<T> {
    type V = RequestView<T::V>;

    open spec fn view(&self) -> RequestView<T::V> {
        RequestView {
            method: self.method,
            uri: self.uri@,
            headers: header_views(self.headers@),
            json: option_view(self.json),
        }
    }
}

/// How the reply to a call is read.
#[derive(Clone, Copy, Debug, PartialEq, Eq, Structural)]
pub enum Shape {
    /// The body is JSON, to be decoded into a record.
    Json,
    /// The body is handed on as it came.
    Text,
    /// Only the status code counts; the body is not read.
    Status,
}

/// One call to the node: the request to send and how to read the reply.
#[derive(Clone, Debug, PartialEq, Eq)]
pub struct Call<T> {
    pub request: Request<T>,
    pub shape: Shape,
}

/// A call as plain values.
pub struct CallView<P> {
    pub request: RequestView<P>,
    pub shape: Shape,
}

impl<T: View> View for Call<T> {
    type V = CallView<T::V>;

    open spec fn view(&self) -> CallView<T::V> {
        CallView { request: self.request@, shape: self.shape }
    }
}

/// What a call that went well yields.
#[derive(Clone, Debug, PartialEq, Eq)]
pub enum Outcome {
    /// The body of the reply, JSON that is still to be decoded.
    Json(String),
    /// The body of the reply, as it came.
    Text(String),
    /// The status code of the reply.
    Status(u16),
}

/// An [`Outcome`] with its strings as plain text.
pub enum OutcomeView {
    Json(Seq<char>),
    Text(Seq<char>),
    Status(u16),
}

impl View for Outcome {
    type V = OutcomeView;

    open spec fn view(&self) -> OutcomeView {
        match self {
            Outcome::Json(body) => OutcomeView::Json(body@),
            Outcome::Text(body) => OutcomeView::Text(body@),
            Outcome::Status(status) => OutcomeView::Status(*status),
        }
    }
}

/// What to do once the status code of a reply is known.
#[derive(Debug, PartialEq, Eq)]
pub enum Step {
    /// Read the body of the reply and hand it to [`Http::body`].
    ReadBody,
    /// The call is over; the body, if any, is not read.
    Done(Result<Outcome, DiscodoError>),
}

/// A [`Step`] with its strings as plain text.
pub enum StepView {
    ReadBody,
    Done(Result<OutcomeView, DiscodoErrorView>),
}

impl View for Step {
    type V = StepView;

    open spec fn view(&self) -> StepView {
        match self {
            Step::ReadBody => StepView::ReadBody,
            Step::Done(result) => StepView::Done(result_view(*result)),
        }
    }
}

/// Why a call did not yield a result.
#[derive(Clone, Debug, PartialEq, Eq)]
pub enum DiscodoError {
    /// The node answered 403: it does not accept the shared secret.
    AuthRejected,
    /// The node answered 404; the text is the body of that answer.
    RemoteNotFound(String),
    /// A mutating request was asked for with neither a user nor a guild.
    IdentityMissing,
    /// The request could not be sent or the reply could not be read.
    TransportFailure(String),
    /// The body of the reply to `operation` is not the JSON that was expected.
    DecodeFailure { operation: String, body: String },
    /// The operation exists at the node but not in this client.
    Unsupported,
    /// The streaming endpoint's URI is not a URL.
    InvalidEndpoint(String),
}

/// A [`DiscodoError`] with its strings as plain text.
pub enum DiscodoErrorView {
    AuthRejected,
    RemoteNotFound(Seq<char>),
    IdentityMissing,
    TransportFailure(Seq<char>),
    DecodeFailure { operation: Seq<char>, body: Seq<char> },
    Unsupported,
    InvalidEndpoint(Seq<char>),
}

impl View for DiscodoError {
    type V = DiscodoErrorView;

    open spec fn view(&self) -> DiscodoErrorView {
        match self {
            DiscodoError::AuthRejected => DiscodoErrorView::AuthRejected,
            DiscodoError::RemoteNotFound(detail) => DiscodoErrorView::RemoteNotFound(detail@),
            DiscodoError::IdentityMissing => DiscodoErrorView::IdentityMissing,
            DiscodoError::TransportFailure(detail) => DiscodoErrorView::TransportFailure(detail@),
            DiscodoError::DecodeFailure { operation, body } => DiscodoErrorView::DecodeFailure {
                operation: operation@,
                body: body@,
            },
            DiscodoError::Unsupported => DiscodoErrorView::Unsupported,
            DiscodoError::InvalidEndpoint(uri) => DiscodoErrorView::InvalidEndpoint(uri@),
        }
    }
}

/// An optional value taken by its view.
pub open spec fn option_view<T: View>(option: Option<T>) -> Option<T::V> {
    match option {
        Some(value) => Some(value@),
        None => None,
    }
}

/// A result with both sides taken by their views.
pub open spec fn result_view<T: View, E: View>(result: Result<T, E>) -> Result<T::V, E::V> {
    match result {
        Ok(value) => Ok(value@),
        Err(error) => Err(error@),
    }
}

/// The identity that a request is made under: the user where one is given,
/// else the guild where one is given, else nobody.
pub open spec fn identity_of(user_id: Option<UserId>, guild_id: Option<GuildId>) -> Identity {
    match user_id {
        Some(user) => Identity::User(user),
        None => match guild_id {
            Some(guild) => Identity::Guild(guild),
            None => Identity::Anonymous,
        },
    }
}

/// The header line that tells the node the identity, if there is one.
pub open spec fn identity_header(identity: Identity) -> Option<HeaderView> {
    match identity {
        Identity::Anonymous => None,
        Identity::User(user) => Some(
            HeaderView { name: "User-ID"@, value: text::decimal(user.0 as nat) },
        ),
        Identity::Guild(guild) => Some(
            HeaderView { name: "Guild-ID"@, value: text::decimal(guild.0 as nat) },
        ),
    }
}

/// Whether a header line tells the node an identity.
pub open spec fn is_identity_header(header: HeaderView) -> bool {
    header.name == "User-ID"@ || header.name == "Guild-ID"@
}

/// Whether one of the header lines tells the node an identity.
pub open spec fn names_somebody(headers: Seq<HeaderView>) -> bool {
    exists|i: int| 0 <= i < headers.len() && is_identity_header(#[trigger] headers[i])
}

/// All header lines of a request: the shared secret first, then the
/// identity if there is one.
pub open spec fn headers_of(secret: Seq<char>, identity: Identity) -> Seq<HeaderView> {
    let authorization = HeaderView { name: "Authorization"@, value: secret };
    match identity_header(identity) {
        Some(header) => seq![authorization, header],
        None => seq![authorization],
    }
}

/// The request that a read of `router` sends.
pub open spec fn get_request(
    config: ClientBuilder,
    router: Seq<char>,
    user_id: Option<UserId>,
    guild_id: Option<GuildId>,
) -> RequestView<Nothing> {
    RequestView {
        method: Method::Get,
        uri: config.http_uri@ + router,
        headers: headers_of(config.password@, identity_of(user_id, guild_id)),
        json: None,
    }
}

/// The request that a write to `router` sends, or the refusal to make one
/// for nobody.
pub open spec fn post_request<P>(
    config: ClientBuilder,
    router: Seq<char>,
    user_id: Option<UserId>,
    guild_id: Option<GuildId>,
    json: Option<P>,
) -> Result<RequestView<P>, DiscodoErrorView> {
    if identity_of(user_id, guild_id) == Identity::Anonymous {
        Err(DiscodoErrorView::IdentityMissing)
    } else {
        Ok(
            RequestView {
                method: Method::Post,
                uri: config.http_uri@ + router,
                headers: headers_of(config.password@, identity_of(user_id, guild_id)),
                json,
            },
        )
    }
}

/// Status code by which the node refuses the shared secret.
pub const FORBIDDEN: u16 = 403;

/// Status code by which the node reports that it did not find something.
pub const NOT_FOUND: u16 = 404;

/// What the status code of a reply asks for. A 403 ends the call at once. A
/// 404 has its reason in the body, so the body is read. Every other code is
/// no failure of the call: the body is read unless only the code counts.
pub open spec fn after_status(shape: Shape, status: u16) -> StepView {
    if status == FORBIDDEN {
        StepView::Done(Err(DiscodoErrorView::AuthRejected))
    } else if status == NOT_FOUND {
        StepView::ReadBody
    } else if shape == Shape::Status {
        StepView::Done(Ok(OutcomeView::Status(status)))
    } else {
        StepView::ReadBody
    }
}

/// What a reply with this status code and this body means.
pub open spec fn after_body(
    shape: Shape,
    status: u16,
    body: Seq<char>,
) -> Result<OutcomeView, DiscodoErrorView> {
    if status == FORBIDDEN {
        Err(DiscodoErrorView::AuthRejected)
    } else if status == NOT_FOUND {
        Err(DiscodoErrorView::RemoteNotFound(body))
    } else {
        Ok(
            match shape {
                Shape::Json => OutcomeView::Json(body),
                Shape::Text => OutcomeView::Text(body),
                Shape::Status => OutcomeView::Status(status),
            },
        )
    }
}

/// Picks the identity of a request: the user wins over the guild.
pub fn select_identity(user_id: Option<UserId>, guild_id: Option<GuildId>) -> (identity: Identity)
    ensures
        identity == identity_of(user_id, guild_id),
{
    match user_id {
        Some(user) => Identity::User(user),
        None => match guild_id {
            Some(guild) => Identity::Guild(guild),
            None => Identity::Anonymous,
        },
    }
}

impl Identity {
    /// Writes the identity as a header line.
    pub fn header(&self) -> (header: Option<Header>)
        ensures
            option_view(header) == identity_header(*self),
    {
        match self {
            Identity::Anonymous => None,
            Identity::User(user) => Some(
                Header { name: String::from_str("User-ID"), value: text::to_decimal(user.0) },
            ),
            Identity::Guild(guild) => Some(
                Header { name: String::from_str("Guild-ID"), value: text::to_decimal(guild.0) },
            ),
        }
    }
}

/// Writes the header lines of a request.
pub fn request_headers(config: &ClientBuilder, identity: Identity) -> (headers: Vec<Header>)
    ensures
        header_views(headers@) == headers_of(config.password@, identity),
{
    let mut headers: Vec<Header> = Vec::new();
    headers.push(
        Header { name: String::from_str("Authorization"), value: config.password.clone() },
    );
    match identity.header() {
        Some(header) => {
            headers.push(header);
        },
        None => {},
    }
    assert(header_views(headers@) =~= headers_of(config.password@, identity));
    headers
}

/// The dispatcher.
pub struct Http;

impl Http {
    /// The request that reads `router`. It is made under the identity that
    /// [`identity_of`] picks, which may be nobody, and has no body.
    pub fn get(
        discodo: &Discodo,
        router: &str,
        user_id: Option<UserId>,
        guild_id: Option<GuildId>,
    ) -> (request: Request<Nothing>)
        ensures
            request@ == get_request(*discodo.config(), router@, user_id, guild_id),
    {
        let config = discodo.config();
        let identity = select_identity(user_id, guild_id);
        Request {
            method: Method::Get,
            uri: text::join(config.http_uri.as_str(), router),
            headers: request_headers(config, identity),
            json: None,
        }
    }

    /// The request that writes to `router`, with `json` as its body. A write
    /// must be made for somebody: with neither a user nor a guild there is no
    /// request, and the call fails with `IdentityMissing`.
    pub fn post<T: View>(
        discodo: &Discodo,
        router: &str,
        user_id: Option<UserId>,
        guild_id: Option<GuildId>,
        json: Option<T>,
    ) -> (request: Result<Request<T>, DiscodoError>)
        ensures
            result_view(request) == post_request(
                *discodo.config(),
                router@,
                user_id,
                guild_id,
                option_view(json),
            ),
    {
        let config = discodo.config();
        let identity = select_identity(user_id, guild_id);
        match identity {
            Identity::Anonymous => Err(DiscodoError::IdentityMissing),
            _ => Ok(
                Request {
                    method: Method::Post,
                    uri: text::join(config.http_uri.as_str(), router),
                    headers: request_headers(config, identity),
                    json,
                },
            ),
        }
    }

    /// What to do with a reply whose status code has arrived: see
    /// [`after_status`].
    pub fn status(shape: Shape, status: u16) -> (step: Step)
        ensures
            step@ == after_status(shape, status),
    {
        if status == FORBIDDEN {
            Step::Done(Err(DiscodoError::AuthRejected))
        } else if status == NOT_FOUND {
            Step::ReadBody
        } else {
            match shape {
                Shape::Status => Step::Done(Ok(Outcome::Status(status))),
                _ => Step::ReadBody,
            }
        }
    }

    /// What a reply means whose body has been read: see [`after_body`].
    pub fn body(shape: Shape, status: u16, body: String) -> (outcome: Result<Outcome, DiscodoError>)
        ensures
            result_view(outcome) == after_body(shape, status, body@),
    {
        if status == FORBIDDEN {
            Err(DiscodoError::AuthRejected)
        } else if status == NOT_FOUND {
            Err(DiscodoError::RemoteNotFound(body))
        } else {
            match shape {
                Shape::Json => Ok(Outcome::Json(body)),
                Shape::Text => Ok(Outcome::Text(body)),
                Shape::Status => Ok(Outcome::Status(status)),
            }
        }
    }

    /// Ends a call whose request could not be sent or whose reply could not
    /// be read: the call fails with `TransportFailure`, which quotes `detail`.
    pub fn failure(detail: String) -> (outcome: Result<Outcome, DiscodoError>)
        ensures
            result_view(outcome) == Err::<OutcomeView, DiscodoErrorView>(
                DiscodoErrorView::TransportFailure(detail@),
            ),
    {
        Err(DiscodoError::TransportFailure(detail))
    }

    /// Ends a call whose reply was JSON. `value` is what decoding `body`
    /// gave. Where it gave nothing, the failure names the operation and
    /// keeps the body as it came.
    pub fn decoded<T>(
        operation: &str,
        body: String,
        value: Option<T>,
    ) -> (result: Result<T, DiscodoError>)
        ensures
            match value {
                Some(v) => result == Ok::<T, DiscodoError>(v),
                None => result is Err && result->Err_0@ == (DiscodoErrorView::DecodeFailure {
                    operation: operation@,
                    body: body@,
                }),
            },
    {
        match value {
            Some(v) => Ok(v),
            None => Err(
                DiscodoError::DecodeFailure { operation: String::from_str(operation), body },
            ),
        }
    }
}

/// A 403 ends every call with `AuthRejected`, however its reply would have
/// been read, and nothing of the reply is read after it.
pub proof fn lemma_forbidden_ends_call(shape: Shape, body: Seq<char>)
    ensures
        after_status(shape, FORBIDDEN) == StepView::Done(Err(DiscodoErrorView::AuthRejected)),
        after_body(shape, FORBIDDEN, body) == Err::<OutcomeView, DiscodoErrorView>(
            DiscodoErrorView::AuthRejected,
        ),
{
}

/// A 404 ends every call with `RemoteNotFound`, and the failure carries the
/// body of the reply letter for letter.
pub proof fn lemma_not_found_carries_body(shape: Shape, body: Seq<char>)
    ensures
        after_status(shape, NOT_FOUND) == StepView::ReadBody,
        after_body(shape, NOT_FOUND, body) == Err::<OutcomeView, DiscodoErrorView>(
            DiscodoErrorView::RemoteNotFound(body),
        ),
{
}

/// No status code but 403 and 404 fails a call: the code or the body comes
/// back as the call's outcome.
pub proof fn lemma_other_status_passes(shape: Shape, status: u16, body: Seq<char>)
    requires
        status != FORBIDDEN,
        status != NOT_FOUND,
    ensures
        after_body(shape, status, body) is Ok,
        shape == Shape::Status ==> after_status(shape, status) == StepView::Done(
            Ok(OutcomeView::Status(status)),
        ),
        shape != Shape::Status ==> after_status(shape, status) == StepView::ReadBody,
{
}

/// Where the status code alone ends a call, the body has no say: reading
/// it anyway would give the same outcome.
pub proof fn lemma_unread_body_is_irrelevant(shape: Shape, status: u16, body: Seq<char>)
    ensures
        after_status(shape, status) is Done ==> after_status(shape, status) == StepView::Done(
            after_body(shape, status, body),
        ),
{
}

/// The header lines of a request tell the node an identity exactly when
/// the request is made for somebody.
pub proof fn lemma_identity_is_told(secret: Seq<char>, identity: Identity)
    ensures
        names_somebody(headers_of(secret, identity)) <==> identity != Identity::Anonymous,
{
    reveal_strlit("Authorization");
    reveal_strlit("User-ID");
    reveal_strlit("Guild-ID");
    let headers = headers_of(secret, identity);
    assert(headers[0].name.len() == 13);
    assert("User-ID"@.len() == 7);
    assert("Guild-ID"@.len() == 8);
    if identity != Identity::Anonymous {
        assert(is_identity_header(headers[1]));
    }
}

/// A read made for nobody carries the shared secret and nothing else:
/// neither `User-ID` nor `Guild-ID` is among its header lines, and it has
/// no body.
pub proof fn lemma_anonymous_read(config: ClientBuilder, router: Seq<char>)
    ensures
        get_request(config, router, None, None).headers == seq![
            (HeaderView { name: "Authorization"@, value: config.password@ }),
        ],
        !names_somebody(get_request(config, router, None, None).headers),
        get_request(config, router, None, None).json is None,
{
    lemma_identity_is_told(config.password@, Identity::Anonymous);
}

/// A write is refused exactly when it is made for nobody, and then with
/// `IdentityMissing`.
pub proof fn lemma_write_needs_identity<P>(
    config: ClientBuilder,
    router: Seq<char>,
    user_id: Option<UserId>,
    guild_id: Option<GuildId>,
    json: Option<P>,
)
    ensures
        post_request(config, router, user_id, guild_id, json) is Err <==> (user_id is None
            && guild_id is None),
        post_request(config, router, user_id, guild_id, json) is Err ==> post_request(
            config,
            router,
            user_id,
            guild_id,
            json,
        ) == Err::<RequestView<P>, DiscodoErrorView>(DiscodoErrorView::IdentityMissing),
{
}

/// Where a user is given the request is made for that user, whatever the
/// guild; a guild counts only where no user is given.
pub proof fn lemma_user_wins(user_id: UserId, guild_id: Option<GuildId>)
    ensures
        identity_of(Some(user_id), guild_id) == Identity::User(user_id),
        guild_id matches Some(guild) ==> identity_of(None, guild_id) == Identity::Guild(guild),
{
}

} // verus!
