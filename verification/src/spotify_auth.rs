//! Authentication against the provider: the authorization-code grant, the
//! refresh of an expired token, and what the cache holds afterwards.
//!
//! Nothing here opens a browser or a socket. Each flow is a machine that is
//! told what happened and says what to do next.

use vstd::prelude::*;
use vstd::string::StringExecFns;
use vstd::utf8::{encode_utf8, is_ascii_chars, is_ascii_chars_encode_utf8};
use crate::api_spec::{HttpRequest, Method};
use crate::auth_client::AuthClient;
use crate::cache::{Cache, SpotifyCache};
use crate::describe::Describe;
use crate::encoding::{
    base64_encode,
    base64_standard_text,
    form_urlencode,
    form_urlencoded_text,
    url_error_message,
    url_input_fits,
    url_with_params,
    url_with_params_text,
    BASE64_INPUT_LIMIT,
};
use crate::http::{
    accepted_text,
    extracted,
    extraction_failure,
    extraction_text,
    is_accepted,
    is_refusal_of,
    Response,
    ResponseError,
};
use crate::params::{count_name, distinct_names, pair_texts, pairs_to_map, PairSeq, Params};
use crate::server::{Request, TcpServerError};
use crate::text::{decimal, decimal_text, labelled};
use crate::time::{TimeSpan, Timestamp};
use crate::token::{RefreshTokenFromApi, Token, TokenFromApi};

verus! {

/// The port on which the redirect is received.
pub const REDIRECT_PORT: u16 = 8888;

/// Why there is no usable token for a client.
#[derive(Debug)]
pub enum AuthError {
    /// No token is kept: the user has to authenticate first. Nothing is
    /// started on the user's behalf.
    NeedsInitialAuth,
    /// The kept token has expired and the provider gave no new one.
    FailedTokenRefresh(ResponseError),
}

/// Why the authorization-code grant gave no token, by the stage that failed.
#[derive(Debug)]
pub enum InitialAuthError {
    /// The address of the consent page is no URL; the text is the parser's
    /// message.
    FailedCallbackUrlCreation(String),
    /// The browser could not be opened; the text is the system's message.
    FailedToOpenAuthWindow(String),
    /// The redirect could not be received.
    FailedToReadRedirect(TcpServerError),
    /// The redirect carries no `code`; the parameters are those it carries.
    CodeNotFoundInRedirect(Params),
    /// The code could not be exchanged for a token.
    FailedToGetToken(ResponseError),
}

/// The base address of the provider's account service.
pub open spec fn auth_endpoint() -> Seq<char> {
    "https://accounts.spotify.com"@
}

/// The address of the consent page.
pub open spec fn authorize_address() -> Seq<char> {
    auth_endpoint() + "/authorize"@
}

/// The address of the token endpoint.
pub open spec fn token_address() -> Seq<char> {
    auth_endpoint() + "/api/token"@
}

/// The permissions that are asked for, separated by spaces.
pub open spec fn api_scope() -> Seq<char> {
    "user-read-playback-state user-modify-playback-state user-library-modify"@
}

/// The address that the provider redirects the browser to.
pub open spec fn redirect_uri_text(port: u16) -> Seq<char> {
    "http://localhost:"@ + decimal_text(port as nat) + "/callback"@
}

/// The query parameters of the consent page, in order.
pub open spec fn authorize_params(client_id: Seq<char>, port: u16) -> PairSeq {
    seq![
        ("response_type"@, "code"@),
        ("client_id"@, client_id),
        ("redirect_uri"@, redirect_uri_text(port)),
        ("scope"@, api_scope()),
    ]
}

/// The fields of the form that exchanges an authorization code.
pub open spec fn code_grant_form(code: Seq<char>, port: u16) -> PairSeq {
    seq![
        ("grant_type"@, "authorization_code"@),
        ("code"@, code),
        ("redirect_uri"@, redirect_uri_text(port)),
    ]
}

/// The fields of the form that exchanges a refresh token.
pub open spec fn refresh_grant_form(refresh_token: Seq<char>) -> PairSeq {
    seq![("grant_type"@, "refresh_token"@), ("refresh_token"@, refresh_token)]
}

/// The application's credentials as one text: the id, a colon, the secret.
pub open spec fn credentials_text(client_id: Seq<char>, client_secret: Seq<char>) -> Seq<char> {
    client_id + seq![':'] + client_secret
}

/// Whether the credentials are short enough to be encoded.
pub open spec fn credentials_fit(client_id: Seq<char>, client_secret: Seq<char>) -> bool {
    encode_utf8(credentials_text(client_id, client_secret)).len() <= BASE64_INPUT_LIMIT
}

/// The value of the `Authorization` header of the scheme `Basic`, given
/// the encoded credentials.
pub open spec fn basic_authorization_text(encoded: Seq<char>) -> Seq<char> {
    "Basic "@ + encoded
}

/// The headers of a request to the token endpoint.
pub open spec fn token_request_headers(client_id: Seq<char>, client_secret: Seq<char>) -> PairSeq {
    seq![
        (
            "Authorization"@,
            basic_authorization_text(
                base64_standard_text(credentials_text(client_id, client_secret)),
            ),
        ),
        ("Content-Type"@, "application/x-www-form-urlencoded"@),
    ]
}

proof fn lemma_count_four(pairs: PairSeq, name: Seq<char>)
    requires
        pairs.len() == 4,
    ensures
        count_name(pairs, name) == (if pairs[0].0 == name {
            1nat
        } else {
            0nat
        }) + (if pairs[1].0 == name {
            1nat
        } else {
            0nat
        }) + (if pairs[2].0 == name {
            1nat
        } else {
            0nat
        }) + (if pairs[3].0 == name {
            1nat
        } else {
            0nat
        }),
{
    let three = pairs.drop_last();
    let two = three.drop_last();
    let one = two.drop_last();
    let none = one.drop_last();
    assert(one.last() == pairs[0]);
    assert(two.last() == pairs[1]);
    assert(three.last() == pairs[2]);
    assert(pairs.last() == pairs[3]);
    assert(count_name(none, name) == 0);
    assert(count_name(one, name) == count_name(none, name) + if one.last().0 == name {
        1nat
    } else {
        0nat
    });
    assert(count_name(two, name) == count_name(one, name) + if two.last().0 == name {
        1nat
    } else {
        0nat
    });
    assert(count_name(three, name) == count_name(two, name) + if three.last().0 == name {
        1nat
    } else {
        0nat
    });
}

/// Whether `request` is the `POST` of the form `form` to the token
/// endpoint, authorized by the application's credentials.
pub open spec fn is_token_request(
    request: HttpRequest<String>,
    client_id: Seq<char>,
    client_secret: Seq<char>,
    form: PairSeq,
) -> bool {
    &&& request.method == Method::Post
    &&& request.url@ == token_address()
    &&& pair_texts(request.headers@) == token_request_headers(client_id, client_secret)
    &&& request.body matches Some(text)
    &&& text@ == form_urlencoded_text(form)
}

/// Each of the four parameters of the consent page occurs exactly once,
/// and the redirect address is the local one on the given port.
pub proof fn lemma_authorize_params(client_id: Seq<char>, port: u16)
    ensures
        authorize_params(client_id, port).len() == 4,
        distinct_names(authorize_params(client_id, port)),
        count_name(authorize_params(client_id, port), "response_type"@) == 1,
        count_name(authorize_params(client_id, port), "client_id"@) == 1,
        count_name(authorize_params(client_id, port), "redirect_uri"@) == 1,
        count_name(authorize_params(client_id, port), "scope"@) == 1,
        pairs_to_map(authorize_params(client_id, port))["response_type"@] == "code"@,
        pairs_to_map(authorize_params(client_id, port))["client_id"@] == client_id,
        pairs_to_map(authorize_params(client_id, port))["redirect_uri"@] == redirect_uri_text(
            port,
        ),
        pairs_to_map(authorize_params(client_id, port))["scope"@] == api_scope(),
{
    reveal_strlit("response_type");
    reveal_strlit("client_id");
    reveal_strlit("redirect_uri");
    reveal_strlit("scope");
    assert("response_type"@.len() == 13);
    assert("redirect_uri"@.len() == 12);
    assert("client_id"@.len() == 9);
    assert("scope"@.len() == 5);
    let all = authorize_params(client_id, port);
    assert(all[0].0 == "response_type"@);
    assert(all[1].0 == "client_id"@);
    assert(all[2].0 == "redirect_uri"@);
    assert(all[3].0 == "scope"@);
    lemma_count_four(all, "response_type"@);
    lemma_count_four(all, "client_id"@);
    lemma_count_four(all, "redirect_uri"@);
    lemma_count_four(all, "scope"@);
    let three = all.drop_last();
    let two = three.drop_last();
    let one = two.drop_last();
    let none = one.drop_last();
    assert(one.last() == all[0]);
    assert(two.last() == all[1]);
    assert(three.last() == all[2]);
    assert(all.last() == all[3]);
    assert(pairs_to_map(none) == Map::<Seq<char>, Seq<char>>::empty());
    assert(pairs_to_map(one) == pairs_to_map(none).insert(one.last().0, one.last().1));
    assert(pairs_to_map(two) == pairs_to_map(one).insert(two.last().0, two.last().1));
    assert(pairs_to_map(three) == pairs_to_map(two).insert(three.last().0, three.last().1));
    assert(pairs_to_map(all) == pairs_to_map(three).insert(all.last().0, all.last().1));
}

/// The address of the consent page is short and holds no `#`: pairs of any
/// length may be put into its query.
pub proof fn lemma_authorize_address()
    ensures
        encode_utf8(authorize_address()).len() == 38,
        !authorize_address().contains('#'),
        forall|pairs: PairSeq| url_input_fits(authorize_address(), pairs),
{
    reveal_strlit("https://accounts.spotify.com");
    reveal_strlit("/authorize");
    let address = authorize_address();
    assert(address.len() == 38);
    assert(is_ascii_chars(address));
    is_ascii_chars_encode_utf8(address);
    assert forall|i: int| 0 <= i < address.len() implies address[i] != '#' by {}
}

/// The address that the provider redirects the browser to.
pub fn redirect_uri(port: u16) -> (r: String)
    ensures
        r@ == redirect_uri_text(port),
{
    let mut r = String::from_str("http://localhost:");
    r.append(decimal(port as u64).as_str());
    r.append("/callback");
    r
}

fn pair(name: &str, value: &str) -> (r: (String, String))
    ensures
        r.0@ == name@,
        r.1@ == value@,
{
    (String::from_str(name), String::from_str(value))
}

/// The address of the consent page for the application `client_id`, with
/// its query.
///
/// The query is made of exactly the parameters of [`authorize_params`], and
/// the `url` crate puts them behind the address. Where it refuses, the
/// failure is that of the first stage of the grant.
pub fn authorize_url(client_id: &str) -> (r: Result<String, InitialAuthError>)
    ensures
        match r {
            Ok(url) => url_with_params_text(
                authorize_address(),
                authorize_params(client_id@, REDIRECT_PORT),
            ) == Some(url@),
            Err(e) => e is FailedCallbackUrlCreation && url_with_params_text(
                authorize_address(),
                authorize_params(client_id@, REDIRECT_PORT),
            ) is None,
        },
{
    let mut address = String::from_str("https://accounts.spotify.com");
    address.append("/authorize");
    let uri = redirect_uri(REDIRECT_PORT);
    let mut params: Vec<(String, String)> = Vec::new();
    params.push(pair("response_type", "code"));
    params.push(pair("client_id", client_id));
    params.push(pair("redirect_uri", uri.as_str()));
    params.push(
        pair(
            "scope",
            "user-read-playback-state user-modify-playback-state user-library-modify",
        ),
    );
    assert(pair_texts(params@) =~= authorize_params(client_id@, REDIRECT_PORT));
    proof {
        lemma_authorize_address();
    }
    match url_with_params(address.as_str(), &params) {
        Ok(url) => Ok(url),
        Err(e) => Err(InitialAuthError::FailedCallbackUrlCreation(url_error_message(&e))),
    }
}

/// What the browser's launch means for the grant.
pub fn open_auth_window(opened: Result<(), String>) -> (r: Result<(), InitialAuthError>)
    ensures
        match opened {
            Ok(_) => r is Ok,
            Err(message) => r == Err::<(), InitialAuthError>(
                InitialAuthError::FailedToOpenAuthWindow(message),
            ),
        },
{
    match opened {
        Ok(_) => Ok(()),
        Err(message) => Err(InitialAuthError::FailedToOpenAuthWindow(message)),
    }
}

/// The authorization code that the redirect carries.
///
/// A receiver that failed is a failure to read the redirect. A request
/// without the parameter `code` is a failure that carries all the
/// parameters that did come, unchanged.
pub fn get_code_from_callback(callback: Result<Request, TcpServerError>) -> (r: Result<
    String,
    InitialAuthError,
>)
    ensures
        match callback {
            Ok(request) => if request.params@.contains_key("code"@) {
                r matches Ok(code) && code@ == request.params@["code"@]
            } else {
                r == Err::<String, InitialAuthError>(
                    InitialAuthError::CodeNotFoundInRedirect(request.params),
                )
            },
            Err(e) => r == Err::<String, InitialAuthError>(
                InitialAuthError::FailedToReadRedirect(e),
            ),
        },
{
    match callback {
        Ok(request) => {
            let code = match request.params.get("code") {
                Some(code) => Some(code.clone()),
                None => None,
            };
            match code {
                Some(code) => Ok(code),
                None => Err(InitialAuthError::CodeNotFoundInRedirect(request.params)),
            }
        },
        Err(e) => Err(InitialAuthError::FailedToReadRedirect(e)),
    }
}

/// Whether the credentials are short enough to be encoded.
pub fn check_credentials(client_id: &str, client_secret: &str) -> (r: bool)
    ensures
        r == credentials_fit(client_id@, client_secret@),
{
    let credentials = credentials(client_id, client_secret);
    credentials.as_str().as_bytes().len() <= BASE64_INPUT_LIMIT
}

fn credentials(client_id: &str, client_secret: &str) -> (r: String)
    ensures
        r@ == credentials_text(client_id@, client_secret@),
{
    let mut r = String::from_str(client_id);
    proof {
        reveal_strlit(":");
    }
    r.append(":");
    r.append(client_secret);
    assert(r@ =~= credentials_text(client_id@, client_secret@));
    r
}

/// The value of the `Authorization` header of the scheme `Basic`, given
/// the encoded credentials.
pub fn basic_authorization(encoded: &str) -> (r: String)
    ensures
        r@ == basic_authorization_text(encoded@),
{
    let mut r = String::from_str("Basic ");
    r.append(encoded);
    r
}

/// A request to the token endpoint: a `POST` of a form, with the
/// authorization given.
pub fn form_request(authorization: String, form: String) -> (r: HttpRequest<String>)
    ensures
        r.method == Method::Post,
        r.url@ == token_address(),
        pair_texts(r.headers@) == seq![
            ("Authorization"@, authorization@),
            ("Content-Type"@, "application/x-www-form-urlencoded"@),
        ],
        r.body == Some(form),
{
    let mut url = String::from_str("https://accounts.spotify.com");
    url.append("/api/token");
    let mut headers: Vec<(String, String)> = Vec::new();
    headers.push((String::from_str("Authorization"), authorization));
    headers.push(pair("Content-Type", "application/x-www-form-urlencoded"));
    assert(pair_texts(headers@) =~= seq![
        ("Authorization"@, authorization@),
        ("Content-Type"@, "application/x-www-form-urlencoded"@),
    ]);
    HttpRequest { method: Method::Post, url, headers, body: Some(form) }
}

/// The request that exchanges the authorization code `code` for a token.
pub fn token_request(code: &str, client_id: &str, client_secret: &str) -> (r: HttpRequest<String>)
    requires
        credentials_fit(client_id@, client_secret@),
    ensures
        is_token_request(r, client_id@, client_secret@, code_grant_form(code@, REDIRECT_PORT)),
{
    let credentials = credentials(client_id, client_secret);
    let encoded = base64_encode(credentials.as_str());
    let uri = redirect_uri(REDIRECT_PORT);
    let mut fields: Vec<(String, String)> = Vec::new();
    fields.push(pair("grant_type", "authorization_code"));
    fields.push(pair("code", code));
    fields.push(pair("redirect_uri", uri.as_str()));
    assert(pair_texts(fields@) =~= code_grant_form(code@, REDIRECT_PORT));
    form_request(basic_authorization(encoded.as_str()), form_urlencode(&fields))
}

/// The request that exchanges the refresh token of `prev_token` for a new
/// token.
pub fn refresh_request(prev_token: &Token, client_id: &str, client_secret: &str) -> (r:
    HttpRequest<String>)
    requires
        credentials_fit(client_id@, client_secret@),
    ensures
        is_token_request(
            r,
            client_id@,
            client_secret@,
            refresh_grant_form(prev_token.refresh_token@),
        ),
{
    let credentials = credentials(client_id, client_secret);
    let encoded = base64_encode(credentials.as_str());
    let mut fields: Vec<(String, String)> = Vec::new();
    fields.push(pair("grant_type", "refresh_token"));
    fields.push(pair("refresh_token", prev_token.refresh_token.as_str()));
    assert(pair_texts(fields@) =~= refresh_grant_form(prev_token.refresh_token@));
    form_request(basic_authorization(encoded.as_str()), form_urlencode(&fields))
}

/// A client that holds a usable token and signs requests with it.
#[derive(Debug)]
pub struct SpotifyAuthClient {
    token: Token,
}

/// What the cache says about a client's token at some instant.
#[derive(Debug)]
pub enum CachedAuth {
    /// The kept token is valid and is used as it is.
    Valid(Token),
    /// The kept token has expired and has to be refreshed before use.
    Expired(Token),
}

impl View for SpotifyAuthClient {
    type V = Token;

    closed spec fn view(&self) -> Token {
        self.token
    }
}

impl AuthClient for SpotifyAuthClient {
    closed spec fn authorization(&self) -> Seq<char> {
        self.token.auth_text()
    }

    fn add_auth<T>(&self, request: HttpRequest<T>) -> (r: HttpRequest<T>) {
        request.header("Authorization", self.token.as_auth())
    }
}

impl SpotifyAuthClient {
    /// The client signs with the header value of its token.
    pub proof fn lemma_authorization(self)
        ensures
            self.authorization() == self@.auth_text(),
    {
    }

    /// The token that the client holds.
    pub fn token(&self) -> (r: &Token)
        ensures
            *r == self@,
    {
        &self.token
    }

    /// The client for the token that authentication gave, and the cache
    /// updated with it. Where authentication failed there is no client, and
    /// the cache stays as it was.
    pub fn new(cache: &mut Cache, authed: Result<Token, AuthError>) -> (r: Result<Self, AuthError>)
        ensures
            match authed {
                Ok(token) => {
                    &&& r matches Ok(client)
                    &&& client@ == token
                    &&& final(cache).token() == Some(token)
                },
                Err(e) => r == Err::<SpotifyAuthClient, AuthError>(e) && *final(cache) == *old(cache),
            },
    {
        match authed {
            Ok(token) => {
                cache.modules.spotify = Some(SpotifyCache { token: token.clone() });
                Ok(SpotifyAuthClient { token })
            },
            Err(e) => Err(e),
        }
    }

    /// Forgets the kept token, whatever it is. The provider is not told.
    pub fn remove_auth_from_cache(cache: &mut Cache)
        ensures
            final(cache).token() is None,
            final(cache).modules.spotify is None,
    {
        cache.modules.spotify = None;
    }

    /// Keeps the token that the authorization-code grant gave. Where the
    /// grant failed, its error comes back and the cache stays as it was.
    pub fn add_auth_to_cache(cache: &mut Cache, granted: Result<Token, InitialAuthError>) -> (r:
        Result<(), InitialAuthError>)
        ensures
            match granted {
                Ok(token) => r is Ok && final(cache).token() == Some(token),
                Err(e) => r == Err::<(), InitialAuthError>(e) && *final(cache) == *old(cache),
            },
    {
        match granted {
            Ok(token) => {
                cache.modules.spotify = Some(SpotifyCache { token });
                Ok(())
            },
            Err(e) => Err(e),
        }
    }

    /// The token that is kept, where one is.
    pub fn get_token_from_cache(cache: &Cache) -> (r: Option<&Token>)
        ensures
            match r {
                Some(token) => cache.token() == Some(*token),
                None => cache.token() is None,
            },
    {
        match &cache.modules.spotify {
            Some(kept) => Some(&kept.token),
            None => None,
        }
    }

    /// What the cache says at `now`. Without a kept token the user has to
    /// authenticate first; a kept token is valid or expired, by its
    /// lifetime.
    pub fn auth(cache: &Cache, now: Timestamp) -> (r: Result<CachedAuth, AuthError>)
        ensures
            match cache.token() {
                Some(token) => if token.valid_at(now) {
                    r == Ok::<CachedAuth, AuthError>(CachedAuth::Valid(token))
                } else {
                    r == Ok::<CachedAuth, AuthError>(CachedAuth::Expired(token))
                },
                None => r == Err::<CachedAuth, AuthError>(AuthError::NeedsInitialAuth),
            },
    {
        match Self::get_token_from_cache(cache) {
            Some(token) => {
                if token.is_valid(now) {
                    Ok(CachedAuth::Valid(token.clone()))
                } else {
                    Ok(CachedAuth::Expired(token.clone()))
                }
            },
            None => Err(AuthError::NeedsInitialAuth),
        }
    }
}

/// Where the authorization-code grant stands.
#[derive(Clone, Copy, Debug, PartialEq, Eq, Structural)]
pub enum GrantStage {
    /// Nothing has been done yet.
    Start,
    /// The browser is being opened on the consent page.
    AwaitingBrowser,
    /// The redirect is being waited for.
    AwaitingRedirect,
    /// The token endpoint has been asked.
    AwaitingReply,
    /// The answer of the token endpoint is being read.
    AwaitingToken,
    /// The grant has ended, with a token or with an error.
    Done,
}

/// What happened outside, as the grant is told.
#[derive(Debug)]
pub enum GrantEvent {
    /// The user asked for authentication.
    Begin,
    /// The browser was opened, or not, with the system's message.
    BrowserOpened(Result<(), String>),
    /// The receiver of the redirect has ended.
    Redirect(Result<Request, TcpServerError>),
    /// The token endpoint has answered, or the request could not be sent.
    Reply(Result<Response, String>),
    /// The answer has been read as data, or not, at the given instant.
    TokenRead(Result<TokenFromApi, String>, Timestamp),
}

/// What is to be done next for the grant.
#[derive(Debug)]
pub enum GrantAction {
    /// Open the browser on this address.
    OpenBrowser(String),
    /// Receive the redirect on this port.
    Listen(u16),
    /// Send this request to the token endpoint.
    Send(HttpRequest<String>),
    /// Read this text as the answer of the token endpoint.
    ReadToken(String),
    /// The grant has ended with this outcome.
    Finish(Result<Token, InitialAuthError>),
    /// Nothing: the event does not belong to the stage.
    Ignore,
}

/// Where the refresh of an expired token stands.
#[derive(Clone, Copy, Debug, PartialEq, Eq, Structural)]
pub enum RefreshStage {
    /// Nothing has been done yet.
    Start,
    /// The token endpoint has been asked.
    AwaitingReply,
    /// The answer of the token endpoint is being read.
    AwaitingToken,
    /// The refresh has ended, with a token or with an error.
    Done,
}

/// What happened outside, as the refresh is told.
#[derive(Debug)]
pub enum RefreshEvent {
    /// The refresh is asked for.
    Begin,
    /// The token endpoint has answered, or the request could not be sent.
    Reply(Result<Response, String>),
    /// The answer has been read as data, or not, at the given instant.
    TokenRead(Result<RefreshTokenFromApi, String>, Timestamp),
}

/// What is to be done next for the refresh.
#[derive(Debug)]
pub enum RefreshAction {
    /// Send this request to the token endpoint.
    Send(HttpRequest<String>),
    /// Read this text as the answer of the token endpoint.
    ReadToken(String),
    /// The refresh has ended with this outcome.
    Finish(Result<Token, AuthError>),
    /// Nothing: the event does not belong to the stage.
    Ignore,
}

/// Whether the step of the grant at `stage` on `event` is the one that
/// encodes the credentials: the redirect has come, and it carries a code.
pub open spec fn grant_encodes(stage: GrantStage, event: GrantEvent) -> bool {
    stage == GrantStage::AwaitingRedirect && (event matches GrantEvent::Redirect(Ok(request))
        && request.params@.contains_key("code"@))
}

/// Whether `action` ends a refresh with the token that an answer without
/// a refresh token asks for: the refresh token of the previous token, and
/// everything else from the answer, received at `now`.
pub open spec fn ends_carrying_forward(
    action: RefreshAction,
    answer: RefreshTokenFromApi,
    prev_token: Token,
    now: Timestamp,
) -> bool {
    &&& action matches RefreshAction::Finish(Ok(token))
    &&& token.refresh_token == prev_token.refresh_token
    &&& token.access_token == answer.access_token
    &&& token.token_type == answer.token_type
    &&& token.expires_in == (TimeSpan { secs: answer.expires_in, nanos: 0 })
    &&& token.time_set == now
}

/// Whether the step of the refresh at `stage` on `event` is the one that
/// encodes the credentials: the first.
pub open spec fn refresh_encodes(stage: RefreshStage, event: RefreshEvent) -> bool {
    stage == RefreshStage::Start && event is Begin
}

impl SpotifyAuthClient {
    /// One step of the authorization-code grant for the application
    /// `client_id`.
    ///
    /// The stages follow each other in one order: the consent page is
    /// opened, the redirect received and its code taken, the code exchanged
    /// at the token endpoint, the answer read and stamped with the instant
    /// it was read at. A stage that fails ends the grant with the error of
    /// that stage; no stage is tried twice. An event that does not belong to
    /// the stage changes nothing.
    ///
    /// The credentials have to be short enough to be encoded at the one step
    /// that encodes them, the one that takes the code from the redirect:
    /// [`check_credentials`] tests it.
    pub fn initial_auth(
        stage: GrantStage,
        event: GrantEvent,
        client_id: &str,
        client_secret: &str,
    ) -> (r: (GrantStage, GrantAction))
        requires
            grant_encodes(stage, event) ==> credentials_fit(client_id@, client_secret@),
        ensures
            match (stage, event) {
                (GrantStage::Start, GrantEvent::Begin) => match url_with_params_text(
                    authorize_address(),
                    authorize_params(client_id@, REDIRECT_PORT),
                ) {
                    Some(url) => r.0 == GrantStage::AwaitingBrowser && (
                    r.1 matches GrantAction::OpenBrowser(opened) && opened@ == url),
                    None => r.0 == GrantStage::Done && (r.1 matches GrantAction::Finish(Err(e))
                        && e is FailedCallbackUrlCreation),
                },
                (GrantStage::AwaitingBrowser, GrantEvent::BrowserOpened(opened)) => match opened {
                    Ok(_) => r.0 == GrantStage::AwaitingRedirect && r.1 == GrantAction::Listen(
                        REDIRECT_PORT,
                    ),
                    Err(message) => r.0 == GrantStage::Done && r.1 == GrantAction::Finish(
                        Err(InitialAuthError::FailedToOpenAuthWindow(message)),
                    ),
                },
                (GrantStage::AwaitingRedirect, GrantEvent::Redirect(callback)) => match callback {
                    Ok(request) => if request.params@.contains_key("code"@) {
                        &&& r.0 == GrantStage::AwaitingReply
                        &&& r.1 matches GrantAction::Send(sent)
                        &&& is_token_request(
                            sent,
                            client_id@,
                            client_secret@,
                            code_grant_form(request.params@["code"@], REDIRECT_PORT),
                        )
                    } else {
                        r.0 == GrantStage::Done && r.1 == GrantAction::Finish(
                            Err(InitialAuthError::CodeNotFoundInRedirect(request.params)),
                        )
                    },
                    Err(e) => r.0 == GrantStage::Done && r.1 == GrantAction::Finish(
                        Err(InitialAuthError::FailedToReadRedirect(e)),
                    ),
                },
                (GrantStage::AwaitingReply, GrantEvent::Reply(sent)) => if is_accepted(sent) {
                    r.0 == GrantStage::AwaitingToken && (r.1 matches GrantAction::ReadToken(text)
                        && text@ == extraction_text(sent->Ok_0))
                } else {
                    r.0 == GrantStage::Done && (r.1 matches GrantAction::Finish(
                        Err(
                            InitialAuthError::FailedToGetToken(ResponseError::InvalidResposne(e)),
                        ),
                    ) && is_refusal_of(e, sent))
                },
                (GrantStage::AwaitingToken, GrantEvent::TokenRead(read, now)) => r.0
                    == GrantStage::Done && match read {
                    Ok(answer) => r.1 == GrantAction::Finish(Ok(answer.issued(now))),
                    Err(message) => r.1 == GrantAction::Finish(
                        Err(InitialAuthError::FailedToGetToken(extraction_failure(message))),
                    ),
                },
                _ => r.0 == stage && r.1 is Ignore,
            },
    {
        match (stage, event) {
            (GrantStage::Start, GrantEvent::Begin) => match authorize_url(client_id) {
                Ok(url) => (GrantStage::AwaitingBrowser, GrantAction::OpenBrowser(url)),
                Err(e) => (GrantStage::Done, GrantAction::Finish(Err(e))),
            },
            (GrantStage::AwaitingBrowser, GrantEvent::BrowserOpened(opened)) => {
                match open_auth_window(opened) {
                    Ok(_) => (GrantStage::AwaitingRedirect, GrantAction::Listen(REDIRECT_PORT)),
                    Err(e) => (GrantStage::Done, GrantAction::Finish(Err(e))),
                }
            },
            (GrantStage::AwaitingRedirect, GrantEvent::Redirect(callback)) => {
                match get_code_from_callback(callback) {
                    Ok(code) => (
                        GrantStage::AwaitingReply,
                        GrantAction::Send(token_request(code.as_str(), client_id, client_secret)),
                    ),
                    Err(e) => (GrantStage::Done, GrantAction::Finish(Err(e))),
                }
            },
            (GrantStage::AwaitingReply, GrantEvent::Reply(sent)) => match accepted_text(sent) {
                Ok(text) => (GrantStage::AwaitingToken, GrantAction::ReadToken(text)),
                Err(e) => (
                    GrantStage::Done,
                    GrantAction::Finish(Err(InitialAuthError::FailedToGetToken(e))),
                ),
            },
            (GrantStage::AwaitingToken, GrantEvent::TokenRead(read, now)) => match extracted(
                read,
            ) {
                Ok(answer) => (
                    GrantStage::Done,
                    GrantAction::Finish(Ok(Token::from_api(answer, now))),
                ),
                Err(e) => (
                    GrantStage::Done,
                    GrantAction::Finish(Err(InitialAuthError::FailedToGetToken(e))),
                ),
            },
            (stage, _) => (stage, GrantAction::Ignore),
        }
    }

    /// One step of the refresh of the expired token `prev_token`.
    ///
    /// The token endpoint is asked with the refresh token of `prev_token`;
    /// its answer is read and stamped with the instant it was read at. The
    /// new token carries the previous refresh token forward where the answer
    /// has none. A reply that refuses, or one that cannot be read, ends the
    /// refresh as a failed refresh, which is told apart from the lack of any
    /// token. An event that does not belong to the stage changes nothing.
    ///
    /// The credentials have to be short enough to be encoded at the first
    /// step, the only one that encodes them: [`check_credentials`] tests it.
    pub fn refresh_token(
        stage: RefreshStage,
        event: RefreshEvent,
        prev_token: &Token,
        client_id: &str,
        client_secret: &str,
    ) -> (r: (RefreshStage, RefreshAction))
        requires
            refresh_encodes(stage, event) ==> credentials_fit(client_id@, client_secret@),
        ensures
            match (stage, event) {
                (
                    RefreshStage::AwaitingToken,
                    RefreshEvent::TokenRead(Ok(answer), now),
                ) => answer.refresh_token is None ==> ends_carrying_forward(
                    r.1,
                    answer,
                    *prev_token,
                    now,
                ),
                _ => true,
            },
            match (stage, event) {
                (RefreshStage::Start, RefreshEvent::Begin) => {
                    &&& r.0 == RefreshStage::AwaitingReply
                    &&& r.1 matches RefreshAction::Send(sent)
                    &&& is_token_request(
                        sent,
                        client_id@,
                        client_secret@,
                        refresh_grant_form(prev_token.refresh_token@),
                    )
                },
                (RefreshStage::AwaitingReply, RefreshEvent::Reply(sent)) => if is_accepted(sent) {
                    r.0 == RefreshStage::AwaitingToken && (
                    r.1 matches RefreshAction::ReadToken(text) && text@ == extraction_text(
                        sent->Ok_0,
                    ))
                } else {
                    r.0 == RefreshStage::Done && (r.1 matches RefreshAction::Finish(
                        Err(AuthError::FailedTokenRefresh(ResponseError::InvalidResposne(e))),
                    ) && is_refusal_of(e, sent))
                },
                (RefreshStage::AwaitingToken, RefreshEvent::TokenRead(read, now)) => r.0
                    == RefreshStage::Done && match read {
                    Ok(answer) => r.1 == RefreshAction::Finish(
                        Ok(answer.refreshed(*prev_token, now)),
                    ),
                    Err(message) => r.1 == RefreshAction::Finish(
                        Err(AuthError::FailedTokenRefresh(extraction_failure(message))),
                    ),
                },
                _ => r.0 == stage && r.1 is Ignore,
            },
    {
        match (stage, event) {
            (RefreshStage::Start, RefreshEvent::Begin) => (
                RefreshStage::AwaitingReply,
                RefreshAction::Send(refresh_request(prev_token, client_id, client_secret)),
            ),
            (RefreshStage::AwaitingReply, RefreshEvent::Reply(sent)) => match accepted_text(
                sent,
            ) {
                Ok(text) => (RefreshStage::AwaitingToken, RefreshAction::ReadToken(text)),
                Err(e) => (
                    RefreshStage::Done,
                    RefreshAction::Finish(Err(AuthError::FailedTokenRefresh(e))),
                ),
            },
            (RefreshStage::AwaitingToken, RefreshEvent::TokenRead(read, now)) => match extracted(
                read,
            ) {
                Ok(answer) => (
                    RefreshStage::Done,
                    RefreshAction::Finish(Ok(answer.to_token(prev_token, now))),
                ),
                Err(e) => (
                    RefreshStage::Done,
                    RefreshAction::Finish(Err(AuthError::FailedTokenRefresh(e))),
                ),
            },
            (stage, _) => (stage, RefreshAction::Ignore),
        }
    }
}

impl Describe for AuthError {
    open spec fn text(&self) -> Seq<char> {
        match *self {
            AuthError::NeedsInitialAuth =>
                "You are unauthenticated, run `music auth` to to authenticate"@,
            AuthError::FailedTokenRefresh(cause) => "Failed to refresh authentication token: "@
                + cause.text(),
        }
    }

    fn to_string(&self) -> (r: String) {
        match self {
            AuthError::NeedsInitialAuth => String::from_str(
                "You are unauthenticated, run `music auth` to to authenticate",
            ),
            AuthError::FailedTokenRefresh(cause) => labelled(
                "Failed to refresh authentication token: ",
                cause.to_string().as_str(),
            ),
        }
    }
}

impl Describe for InitialAuthError {
    open spec fn text(&self) -> Seq<char> {
        match *self {
            InitialAuthError::FailedCallbackUrlCreation(message) =>
                "Failed to create a valid callback URL, this is usually a problem in the code: "@
                    + message@,
            InitialAuthError::FailedToOpenAuthWindow(message) =>
                "Failed to open the Spotify authorization window: "@ + message@,
            InitialAuthError::FailedToReadRedirect(cause) => "Failed to read the the redirect: "@
                + cause.text(),
            InitialAuthError::CodeNotFoundInRedirect(params) =>
                "Code param not found in redirect, given params: "@ + params.text(),
            InitialAuthError::FailedToGetToken(cause) => "Failed to get a token: "@
                + cause.text(),
        }
    }

    fn to_string(&self) -> (r: String) {
        match self {
            InitialAuthError::FailedCallbackUrlCreation(message) => labelled(
                "Failed to create a valid callback URL, this is usually a problem in the code: ",
                message.as_str(),
            ),
            InitialAuthError::FailedToOpenAuthWindow(message) => labelled(
                "Failed to open the Spotify authorization window: ",
                message.as_str(),
            ),
            InitialAuthError::FailedToReadRedirect(cause) => labelled(
                "Failed to read the the redirect: ",
                cause.to_string().as_str(),
            ),
            InitialAuthError::CodeNotFoundInRedirect(params) => labelled(
                "Code param not found in redirect, given params: ",
                params.to_string().as_str(),
            ),
            InitialAuthError::FailedToGetToken(cause) => labelled(
                "Failed to get a token: ",
                cause.to_string().as_str(),
            ),
        }
    }
}

} // verus!
