//! The session and the two flows that fill it: login with a user's
//! credentials, and renewal with the provider's session cookie.
//!
//! A flow is a sequence of requests.  `login` and `renew` ask for the first;
//! `advance` reads the outcome of the request that was asked for last and
//! either asks for the next, or ends the flow.

use vstd::prelude::*;
use crate::cookies::{
    cookie_parsed, header_pairs, lemma_jar_round_trip, merged, render, CookieJar,
};
use crate::discovery::{auth_endpoint_uri_with, discovered_request, discovery_url};
use crate::error::AuthError;
use crate::http::{
    get_redirect_url, is_redirection, read_headers, redirect_target, redirects, Exchange,
    ExchangeView, HttpResponse, Request, RequestView, ResponseView,
};
use crate::page::{login_params, scrape_login_info, scraped};
use crate::pairs::{lookup, pairs_map, pairs_view, upsert, Pair};
use crate::token::{generate_random_bytes, is_token};
use crate::urls::{
    fragment_of, full_auth_url, option_text, url_fragment, url_joined, AUTH_BASE_URL,
    DISCOVERY_PATH, MARKER_BYTES,
};

verus! {

/// The cookie by which the provider knows its session.  It alone outlives a
/// flow, and it is what makes a renewal possible.
pub const SESSION_COOKIE: &'static str = "idsrv";

/// The field of the callback that carries the identity token.
pub const ID_TOKEN: &'static str = "id_token";

/// The name and value pairs that `serde_urlencoded::from_str` decodes `text`
/// to, in their order, or `None` where it rejects `text`.
pub uninterp spec fn form_decoded(text: Seq<char>) -> Option<Seq<Pair>>;

/// What an optional list of pairs holds.
pub open spec fn option_pairs(pairs: Option<Vec<(String, String)>>) -> Option<Seq<Pair>> {
    match pairs {
        Some(pairs) => Some(pairs_view(pairs@)),
        None => None,
    }
}

/// Calls `serde_urlencoded::from_str` for a list of pairs of strings.
#[verifier::external_body]
pub(crate) fn decode_form(text: &str) -> (pairs: Option<Vec<(String, String)>>)
    ensures
        option_pairs(pairs) == form_decoded(text@),
{
    serde_urlencoded::from_str::<Vec<(String, String)>>(text).ok()
}

/// A user's name and password.
#[derive(Clone, Debug)]
pub struct Credentials {
    pub username: String,
    pub password: String,
}

/// The text of `Credentials`.
pub struct CredentialsView {
    pub username: Seq<char>,
    pub password: Seq<char>,
}

impl View for Credentials {
    type V = CredentialsView;

    open spec fn view(&self) -> CredentialsView {
        CredentialsView { username: self.username@, password: self.password@ }
    }
}

/// The text of optional `Credentials`.
pub open spec fn option_credentials(credentials: Option<Credentials>) -> Option<CredentialsView> {
    match credentials {
        Some(credentials) => Some(credentials@),
        None => None,
    }
}

/// What a flow waits for: the response to the request it asked for last.
#[derive(Clone, Debug)]
pub enum Pending {
    /// The discovery document.  `login` holds the credentials in a login and
    /// nothing in a renewal; `state` and `nonce` are the markers of the flow.
    Discovery { login: Option<Credentials>, state: String, nonce: String },
    /// The answer to the authorization request of a login, which redirects to
    /// the login page.
    LoginRedirect { credentials: Credentials },
    /// The login page.
    LoginPage { credentials: Credentials },
    /// The answer to the credentials.
    LoginPost,
    /// The response that redirects to the callback URL.
    Callback,
}

/// The text of a `Pending`.
pub enum PendingView {
    Discovery { login: Option<CredentialsView>, state: Seq<char>, nonce: Seq<char> },
    LoginRedirect { credentials: CredentialsView },
    LoginPage { credentials: CredentialsView },
    LoginPost,
    Callback,
}

impl View for Pending {
    type V = PendingView;

    open spec fn view(&self) -> PendingView {
        match self {
            Pending::Discovery { login, state, nonce } => PendingView::Discovery {
                login: option_credentials(*login),
                state: state@,
                nonce: nonce@,
            },
            Pending::LoginRedirect { credentials } => PendingView::LoginRedirect {
                credentials: credentials@,
            },
            Pending::LoginPage { credentials } => PendingView::LoginPage {
                credentials: credentials@,
            },
            Pending::LoginPost => PendingView::LoginPost,
            Pending::Callback => PendingView::Callback,
        }
    }
}

/// What a flow does next.
#[derive(Clone, Debug)]
pub enum Step {
    /// Send `request`, then call `advance` with `pending` and the outcome.
    Send { request: Request, pending: Pending },
    /// The flow is over and the session holds a fresh token.
    Done,
    /// The flow is over and has failed.
    Failed(AuthError),
}

/// The text of a `Step`.
pub enum StepView {
    Send { request: RequestView, pending: PendingView },
    Done,
    Failed(AuthError),
}

impl View for Step {
    type V = StepView;

    open spec fn view(&self) -> StepView {
        match self {
            Step::Send { request, pending } => StepView::Send {
                request: request@,
                pending: pending@,
            },
            Step::Done => StepView::Done,
            Step::Failed(error) => StepView::Failed(*error),
        }
    }
}

/// The session: the identity token, once a flow has succeeded, and the cookie
/// jar.
#[derive(Clone, Debug)]
pub struct Authorization {
    /// The identity token; `None` until a login has succeeded.
    pub jwt: Option<String>,
    cookies: CookieJar,
}

/// The text of an `Authorization`: the token, and the cookies in the order of
/// the jar.
pub struct AuthView {
    pub token: Option<Seq<char>>,
    pub cookies: Seq<Pair>,
}

impl View for Authorization {
    type V = AuthView;

    open spec fn view(&self) -> AuthView {
        AuthView { token: self.token(), cookies: self.jar().pairs() }
    }
}

/// The text of a response or the failure in its place.
pub open spec fn result_response(response: Result<HttpResponse, AuthError>) -> Result<
    ResponseView,
    AuthError,
> {
    match response {
        Ok(response) => Ok(response@),
        Err(error) => Err(error),
    }
}

/// The first step of a flow: fetch the discovery document.
pub open spec fn first_step(
    credentials: Option<CredentialsView>,
    state: Seq<char>,
    nonce: Seq<char>,
) -> StepView {
    match url_joined(AUTH_BASE_URL@, DISCOVERY_PATH@) {
        None => StepView::Failed(AuthError::UnresolvableUrl),
        Some(url) => StepView::Send {
            request: RequestView::Fetch { url },
            pending: PendingView::Discovery { login: credentials, state, nonce },
        },
    }
}

/// The first step of a renewal.  A session that never logged in has nothing
/// to renew, and nothing is sent.
pub open spec fn renew_step(auth: AuthView, state: Seq<char>, nonce: Seq<char>) -> StepView {
    if auth.token is None {
        StepView::Failed(AuthError::LoginRequired)
    } else {
        first_step(None, state, nonce)
    }
}

/// What receiving `outcome` makes of the jar `cookies`, and the response that
/// is then read.  Every `Set-Cookie` header of a response is merged into the
/// jar, whatever the response says else.
pub open spec fn received(cookies: Seq<Pair>, outcome: ExchangeView) -> (
    Seq<Pair>,
    Result<ResponseView, AuthError>,
) {
    match outcome {
        ExchangeView::NoClient => (cookies, Err(AuthError::ClientUnavailable)),
        ExchangeView::NoReply => (cookies, Err(AuthError::RequestFailed)),
        ExchangeView::Reply(response) => (
            merged(cookies, response.set_cookies).0,
            match merged(cookies, response.set_cookies).1 {
                Some(error) => Err(error),
                None => Ok(response),
            },
        ),
    }
}

/// The step that follows a redirection: GET its target with the cookies of
/// the jar.
pub open spec fn followed(cookies: Seq<Pair>, response: ResponseView, pending: PendingView) -> StepView {
    match redirect_target(response) {
        Err(error) => StepView::Failed(error),
        Ok(url) => StepView::Send {
            request: RequestView::Get { url, cookie: render(cookies) },
            pending,
        },
    }
}

/// The step that follows the discovery document: GET the authorization
/// request.  The discovery exchange leaves the jar alone.
pub open spec fn discovered(
    cookies: Seq<Pair>,
    credentials: Option<CredentialsView>,
    state: Seq<char>,
    nonce: Seq<char>,
    outcome: ExchangeView,
) -> StepView {
    match discovered_request(outcome, state, nonce) {
        Err(error) => StepView::Failed(error),
        Ok(url) => StepView::Send {
            request: RequestView::Get { url, cookie: render(cookies) },
            pending: match credentials {
                Some(credentials) => PendingView::LoginRedirect { credentials },
                None => PendingView::Callback,
            },
        },
    }
}

/// The step that follows the login page: POST the credentials, signed with
/// the page's anti-forgery token, to the page's login URL.
pub open spec fn submitted(
    cookies: Seq<Pair>,
    response: ResponseView,
    credentials: CredentialsView,
) -> StepView {
    match response.body {
        None => StepView::Failed(AuthError::UnreadableBody),
        Some(html) => match scraped(html) {
            Err(error) => StepView::Failed(error),
            Ok(info) => match url_joined(AUTH_BASE_URL@, info.login_url) {
                None => StepView::Failed(AuthError::UnresolvableUrl),
                Some(url) => StepView::Send {
                    request: RequestView::Post {
                        url,
                        cookie: render(cookies),
                        form: login_params(
                            info.name,
                            info.value,
                            credentials.username,
                            credentials.password,
                        ),
                    },
                    pending: PendingView::LoginPost,
                },
            },
        },
    }
}

/// The step that follows the answer to the credentials.  Anything but a
/// redirection means that the provider refused them.
pub open spec fn answered(cookies: Seq<Pair>, response: ResponseView) -> StepView {
    if redirects(response.status) {
        followed(cookies, response, PendingView::Callback)
    } else {
        StepView::Failed(AuthError::InvalidCredentials)
    }
}

/// The fields that the callback URL `url` carries in its fragment.
pub open spec fn token_response(url: Seq<char>) -> Result<Seq<Pair>, AuthError> {
    match url_fragment(url) {
        None => Err(AuthError::InvalidCallback),
        Some(fragment) => if fragment.len() == 0 {
            Err(AuthError::InvalidCallback)
        } else {
            match form_decoded(fragment) {
                None => Err(AuthError::InvalidCallback),
                Some(fields) => Ok(fields),
            }
        },
    }
}

/// What the fields of a callback make of a session.  With an `id_token` among
/// the fields and the session cookie in the jar, the token is taken and every
/// other cookie is dropped.  Else the session stays as it is.
pub open spec fn accepted(auth: AuthView, fields: Seq<Pair>) -> (AuthView, Result<bool, AuthError>) {
    if !pairs_map(fields).contains_key(ID_TOKEN@) {
        (auth, Err(AuthError::MissingIdToken))
    } else if !pairs_map(auth.cookies).contains_key(SESSION_COOKIE@) {
        (auth, Err(AuthError::MissingSessionCookie))
    } else {
        (
            AuthView {
                token: Some(pairs_map(fields)[ID_TOKEN@]),
                cookies: seq![(SESSION_COOKIE@, pairs_map(auth.cookies)[SESSION_COOKIE@])],
            },
            Ok(true),
        )
    }
}

/// What the callback URL `url` makes of a session.
pub open spec fn called_back(auth: AuthView, url: Seq<char>) -> (AuthView, Result<bool, AuthError>) {
    match token_response(url) {
        Err(error) => (auth, Err(error)),
        Ok(fields) => accepted(auth, fields),
    }
}

/// How a flow ends on the response that redirects to the callback URL.
pub open spec fn finished(auth: AuthView, response: ResponseView) -> (AuthView, StepView) {
    match redirect_target(response) {
        Err(error) => (auth, StepView::Failed(error)),
        Ok(url) => match called_back(auth, url).1 {
            Ok(_) => (called_back(auth, url).0, StepView::Done),
            Err(error) => (called_back(auth, url).0, StepView::Failed(error)),
        },
    }
}

/// The session after `outcome` has been received, and the response that is
/// then read: the token stays, and the jar takes the cookies of the response.
pub open spec fn heard(auth: AuthView, outcome: ExchangeView) -> (
    AuthView,
    Result<ResponseView, AuthError>,
) {
    (
        AuthView { token: auth.token, cookies: received(auth.cookies, outcome).0 },
        received(auth.cookies, outcome).1,
    )
}

/// The transition of a flow: what the session is after `outcome` has been
/// read in the state `pending`, and the step that follows.
pub open spec fn advanced(auth: AuthView, pending: PendingView, outcome: ExchangeView) -> (
    AuthView,
    StepView,
) {
    match pending {
        PendingView::Discovery { login, state, nonce } => (
            auth,
            discovered(auth.cookies, login, state, nonce, outcome),
        ),
        PendingView::LoginRedirect { credentials } => match heard(auth, outcome) {
            (now, Err(error)) => (now, StepView::Failed(error)),
            (now, Ok(response)) => (
                now,
                followed(now.cookies, response, PendingView::LoginPage { credentials }),
            ),
        },
        PendingView::LoginPage { credentials } => match heard(auth, outcome) {
            (now, Err(error)) => (now, StepView::Failed(error)),
            (now, Ok(response)) => (now, submitted(now.cookies, response, credentials)),
        },
        PendingView::LoginPost => match heard(auth, outcome) {
            (now, Err(error)) => (now, StepView::Failed(error)),
            (now, Ok(response)) => (now, answered(now.cookies, response)),
        },
        PendingView::Callback => match heard(auth, outcome) {
            (now, Err(error)) => (now, StepView::Failed(error)),
            (now, Ok(response)) => finished(now, response),
        },
    }
}

impl Authorization {
    /// The text of the identity token of the session.
    pub closed spec fn token(&self) -> Option<Seq<char>> {
        option_text(self.jwt)
    }

    /// The cookie jar of the session.
    pub closed spec fn jar(&self) -> CookieJar {
        self.cookies
    }

    /// The invariant of the session: the jar is well formed and was filled
    /// from `Set-Cookie` headers only.
    pub open spec fn wf(&self) -> bool {
        self.jar().wf() && self.jar().is_separable()
    }

    /// A session that has not logged in: no token and no cookies.
    pub fn new() -> (auth: Authorization)
        ensures
            auth.wf(),
            auth@ == (AuthView { token: None, cookies: Seq::empty() }),
    {
        Authorization { jwt: None, cookies: CookieJar::new() }
    }

    /// The identity token of the session.
    pub fn id_token(&self) -> (token: Option<String>)
        ensures
            option_text(token) == self@.token,
    {
        match &self.jwt {
            Some(token) => Some(token.clone()),
            None => None,
        }
    }

    /// The cookie jar of the session.
    pub fn cookies(&self) -> (jar: &CookieJar)
        ensures
            *jar == self.jar(),
    {
        &self.cookies
    }

    /// The value of the `Cookie` header that presents the jar.
    pub fn generate_cookie_header(&self) -> (header: String)
        ensures
            header@ == render(self@.cookies),
    {
        self.cookies.header_value()
    }

    /// Sets the cookie that one `Set-Cookie` header assigns.
    pub fn add_cookie(&mut self, set_cookie_header: &str) -> (outcome: Result<(), AuthError>)
        requires
            old(self).wf(),
        ensures
            final(self).wf(),
            final(self)@.token == old(self)@.token,
            match cookie_parsed(set_cookie_header@) {
                Some((name, value)) => {
                    &&& outcome is Ok
                    &&& final(self)@.cookies == upsert(old(self)@.cookies, name, value)
                },
                None => {
                    &&& outcome == Err::<(), AuthError>(AuthError::MalformedCookie)
                    &&& final(self)@.cookies == old(self)@.cookies
                },
            },
    {
        self.cookies.add_cookie(set_cookie_header)
    }

    /// A GET of `url` that presents the jar.
    pub fn get_request(&self, url: String) -> (request: Request)
        ensures
            request@ == (RequestView::Get { url: url@, cookie: render(self@.cookies) }),
    {
        Request::Get { url, cookie: self.generate_cookie_header() }
    }

    /// A POST of `form` to `url` that presents the jar.
    pub fn post_request(&self, url: String, form: Vec<(String, String)>) -> (request: Request)
        ensures
            request@ == (RequestView::Post {
                url: url@,
                cookie: render(self@.cookies),
                form: pairs_view(form@),
            }),
    {
        Request::Post { url, cookie: self.generate_cookie_header(), form }
    }

    /// Reads the outcome of a request: merges the cookies that a response sets
    /// into the jar, and hands the response on.
    pub fn receive(&mut self, outcome: Exchange) -> (response: Result<HttpResponse, AuthError>)
        requires
            old(self).wf(),
        ensures
            final(self).wf(),
            final(self)@.token == old(self)@.token,
            final(self)@.cookies == received(old(self)@.cookies, outcome@).0,
            result_response(response) == received(old(self)@.cookies, outcome@).1,
    {
        match outcome {
            Exchange::NoClient => Err(AuthError::ClientUnavailable),
            Exchange::NoReply => Err(AuthError::RequestFailed),
            Exchange::Reply(response) => {
                let set_cookies = read_headers(&response.set_cookies);
                match self.cookies.merge(&set_cookies) {
                    Err(error) => Err(error),
                    Ok(()) => Ok(response),
                }
            },
        }
    }

    /// Takes the identity token out of the fields of a callback, and drops
    /// every cookie but the provider's session cookie.
    pub fn accept_tokens(&mut self, fields: &Vec<(String, String)>) -> (outcome: Result<
        bool,
        AuthError,
    >)
        requires
            old(self).wf(),
        ensures
            final(self).wf(),
            final(self)@ == accepted(old(self)@, pairs_view(fields@)).0,
            outcome == accepted(old(self)@, pairs_view(fields@)).1,
    {
        match lookup(fields, ID_TOKEN) {
            None => Err(AuthError::MissingIdToken),
            Some(token) => match self.cookies.get(SESSION_COOKIE) {
                None => Err(AuthError::MissingSessionCookie),
                Some(_) => {
                    self.jwt = Some(token);
                    self.cookies.retain_only(SESSION_COOKIE);
                    Ok(true)
                },
            },
        }
    }

    /// Ends a flow on its callback URL: reads the fields in the fragment of
    /// the URL and accepts them.
    pub fn handle_callback(&mut self, callback_url: &str) -> (outcome: Result<bool, AuthError>)
        requires
            old(self).wf(),
        ensures
            final(self).wf(),
            final(self)@ == called_back(old(self)@, callback_url@).0,
            outcome == called_back(old(self)@, callback_url@).1,
    {
        match fragment_of(callback_url) {
            None => Err(AuthError::InvalidCallback),
            Some(fragment) => {
                if fragment.as_str().is_empty() {
                    return Err(AuthError::InvalidCallback);
                }
                match decode_form(fragment.as_str()) {
                    None => Err(AuthError::InvalidCallback),
                    Some(fields) => self.accept_tokens(&fields),
                }
            },
        }
    }

    /// The first step of a flow with the markers `state` and `nonce`.
    fn begin(credentials: Option<Credentials>, state: String, nonce: String) -> (step: Step)
        ensures
            step@ == first_step(option_credentials(credentials), state@, nonce@),
    {
        match discovery_url() {
            Err(error) => Step::Failed(error),
            Ok(url) => Step::Send {
                request: Request::Fetch { url },
                pending: Pending::Discovery { login: credentials, state, nonce },
            },
        }
    }

    /// Starts a login with the markers `state` and `nonce`.
    pub fn login_with(&self, username: &str, password: &str, state: String, nonce: String) -> (step:
        Step)
        ensures
            step@ == first_step(
                Some(CredentialsView { username: username@, password: password@ }),
                state@,
                nonce@,
            ),
    {
        let credentials = Credentials {
            username: username.to_owned(),
            password: password.to_owned(),
        };
        Authorization::begin(Some(credentials), state, nonce)
    }

    /// Starts a login, with fresh random markers of sixteen bytes each.
    pub fn login(&self, username: &str, password: &str) -> (step: Step)
        ensures
            exists|state: Seq<char>, nonce: Seq<char>|
                is_token(state, MARKER_BYTES as nat) && is_token(nonce, MARKER_BYTES as nat)
                    && step@ == #[trigger] first_step(
                    Some(CredentialsView { username: username@, password: password@ }),
                    state,
                    nonce,
                ),
    {
        let state = generate_random_bytes(MARKER_BYTES);
        let nonce = generate_random_bytes(MARKER_BYTES);
        self.login_with(username, password, state, nonce)
    }

    /// Starts a renewal with the markers `state` and `nonce`.
    pub fn renew_with(&self, state: String, nonce: String) -> (step: Step)
        ensures
            step@ == renew_step(self@, state@, nonce@),
    {
        if self.jwt.is_none() {
            return Step::Failed(AuthError::LoginRequired);
        }
        Authorization::begin(None, state, nonce)
    }

    /// Starts a renewal, with fresh random markers of sixteen bytes each.  A
    /// session without a token fails at once.
    pub fn renew(&self) -> (step: Step)
        ensures
            self@.token is None ==> step@ == StepView::Failed(AuthError::LoginRequired),
            exists|state: Seq<char>, nonce: Seq<char>|
                is_token(state, MARKER_BYTES as nat) && is_token(nonce, MARKER_BYTES as nat)
                    && step@ == #[trigger] renew_step(self@, state, nonce),
    {
        let state = generate_random_bytes(MARKER_BYTES);
        let nonce = generate_random_bytes(MARKER_BYTES);
        self.renew_with(state, nonce)
    }

    /// The step that follows a redirection.
    fn follow(&self, response: &HttpResponse, pending: Pending) -> (step: Step)
        ensures
            step@ == followed(self@.cookies, response@, pending@),
    {
        match get_redirect_url(response) {
            Err(error) => Step::Failed(error),
            Ok(url) => Step::Send { request: self.get_request(url), pending },
        }
    }

    /// The step that follows the discovery document.
    fn discover(
        &self,
        credentials: Option<Credentials>,
        state: &str,
        nonce: &str,
        outcome: Exchange,
    ) -> (step: Step)
        ensures
            step@ == discovered(
                self@.cookies,
                option_credentials(credentials),
                state@,
                nonce@,
                outcome@,
            ),
    {
        match auth_endpoint_uri_with(&outcome, state, nonce) {
            Err(error) => Step::Failed(error),
            Ok(url) => Step::Send {
                request: self.get_request(url),
                pending: match credentials {
                    Some(credentials) => Pending::LoginRedirect { credentials },
                    None => Pending::Callback,
                },
            },
        }
    }

    /// The step that follows the login page.
    fn submit(&self, response: &HttpResponse, credentials: &Credentials) -> (step: Step)
        ensures
            step@ == submitted(self@.cookies, response@, credentials@),
    {
        match &response.body {
            None => Step::Failed(AuthError::UnreadableBody),
            Some(html) => match scrape_login_info(html.as_str()) {
                Err(error) => Step::Failed(error),
                Ok(info) => match full_auth_url(info.login_url.as_str()) {
                    Err(error) => Step::Failed(error),
                    Ok(url) => {
                        let form = info.anti_forgery.build_login_params(
                            credentials.username.as_str(),
                            credentials.password.as_str(),
                        );
                        Step::Send { request: self.post_request(url, form), pending: Pending::LoginPost }
                    },
                },
            },
        }
    }

    /// The end of a flow, on the response that redirects to the callback URL.
    fn finish(&mut self, response: &HttpResponse) -> (step: Step)
        requires
            old(self).wf(),
        ensures
            final(self).wf(),
            final(self)@ == finished(old(self)@, response@).0,
            step@ == finished(old(self)@, response@).1,
    {
        match get_redirect_url(response) {
            Err(error) => Step::Failed(error),
            Ok(url) => match self.handle_callback(url.as_str()) {
                Ok(_) => Step::Done,
                Err(error) => Step::Failed(error),
            },
        }
    }

    /// Reads the outcome of the request that the flow asked for last, and
    /// says what the flow does next.
    pub fn advance(&mut self, pending: Pending, outcome: Exchange) -> (step: Step)
        requires
            old(self).wf(),
        ensures
            final(self).wf(),
            final(self)@ == advanced(old(self)@, pending@, outcome@).0,
            step@ == advanced(old(self)@, pending@, outcome@).1,
    {
        match pending {
            Pending::Discovery { login, state, nonce } => self.discover(
                login,
                state.as_str(),
                nonce.as_str(),
                outcome,
            ),
            Pending::LoginRedirect { credentials } => match self.receive(outcome) {
                Err(error) => Step::Failed(error),
                Ok(response) => self.follow(&response, Pending::LoginPage { credentials }),
            },
            Pending::LoginPage { credentials } => match self.receive(outcome) {
                Err(error) => Step::Failed(error),
                Ok(response) => self.submit(&response, &credentials),
            },
            Pending::LoginPost => match self.receive(outcome) {
                Err(error) => Step::Failed(error),
                Ok(response) => {
                    if is_redirection(response.status) {
                        self.follow(&response, Pending::Callback)
                    } else {
                        Step::Failed(AuthError::InvalidCredentials)
                    }
                },
            },
            Pending::Callback => match self.receive(outcome) {
                Err(error) => Step::Failed(error),
                Ok(response) => self.finish(&response),
            },
        }
    }
}

/// The `Cookie` header of a session reads back as its jar: the same cookies in
/// the same order.
pub proof fn lemma_session_header_round_trip(auth: Authorization)
    requires
        auth.wf(),
    ensures
        header_pairs(render(auth@.cookies)) == auth@.cookies,
        pairs_map(header_pairs(render(auth@.cookies))) == auth.jar()@,
{
    lemma_jar_round_trip(auth.jar());
}

/// A callback URL without a fragment is an invalid callback, and leaves the
/// session as it was.
pub proof fn lemma_callback_needs_fragment(auth: AuthView, url: Seq<char>)
    requires
        url_fragment(url) is None,
    ensures
        called_back(auth, url) == (auth, Err::<bool, AuthError>(AuthError::InvalidCallback)),
{
}

/// A callback is accepted exactly when its fields hold an `id_token` and the
/// jar holds the session cookie.  The session then holds that token, and the
/// session cookie and no other; else the session is as it was.
pub proof fn lemma_accepted(auth: AuthView, fields: Seq<Pair>)
    ensures
        accepted(auth, fields).1 is Ok <==> pairs_map(fields).contains_key(ID_TOKEN@) && pairs_map(
            auth.cookies,
        ).contains_key(SESSION_COOKIE@),
        accepted(auth, fields).1 is Ok ==> {
            &&& accepted(auth, fields).0.token == Some(pairs_map(fields)[ID_TOKEN@])
            &&& pairs_map(accepted(auth, fields).0.cookies) == pairs_map(auth.cookies).restrict(
                set![SESSION_COOKIE@],
            )
        },
        accepted(auth, fields).1 is Err ==> accepted(auth, fields).0 == auth,
{
    if accepted(auth, fields).1 is Ok {
        let kept = accepted(auth, fields).0.cookies;
        assert(kept.drop_last() =~= Seq::<Pair>::empty());
        assert(pairs_map(kept.drop_last()) =~= Map::empty());
        assert(pairs_map(kept) =~= pairs_map(auth.cookies).restrict(set![SESSION_COOKIE@]));
    }
}

/// Credentials that the provider answers without a redirection are invalid
/// credentials, and the token stays as it was.  This holds where the cookies
/// that the answer sets could be merged.
pub proof fn lemma_refused_credentials(auth: AuthView, response: ResponseView)
    requires
        merged(auth.cookies, response.set_cookies).1 is None,
        !redirects(response.status),
    ensures
        advanced(auth, PendingView::LoginPost, ExchangeView::Reply(response)).1 == StepView::Failed(
            AuthError::InvalidCredentials,
        ),
        advanced(auth, PendingView::LoginPost, ExchangeView::Reply(response)).0.token == auth.token,
{
}

/// A session without a token cannot renew: the flow fails before anything is
/// sent, whatever the markers.
pub proof fn lemma_renew_needs_login(auth: AuthView, state: Seq<char>, nonce: Seq<char>)
    requires
        auth.token is None,
    ensures
        renew_step(auth, state, nonce) == StepView::Failed(AuthError::LoginRequired),
{
}

/// The discovery exchange has no effect on the session.
pub proof fn lemma_discovery_keeps_session(
    auth: AuthView,
    login: Option<CredentialsView>,
    state: Seq<char>,
    nonce: Seq<char>,
    outcome: ExchangeView,
) 
    ensures
        advanced(auth, PendingView::Discovery { login, state, nonce }, outcome).0 == auth,
{
}

/// A flow changes the token only when it is done.  A step that sends or fails
/// leaves the token as it was; a step that is done leaves a token, and a jar
/// that holds the session cookie and no other.
pub proof fn lemma_token_changes_when_done(
    auth: AuthView,
    pending: PendingView,
    outcome: ExchangeView,
)
    ensures
        !(advanced(auth, pending, outcome).1 is Done) ==> advanced(auth, pending, outcome).0.token
            == auth.token,
        advanced(auth, pending, outcome).1 is Done ==> {
            &&& advanced(auth, pending, outcome).0.token is Some
            &&& advanced(auth, pending, outcome).0.cookies.len() == 1
            &&& advanced(auth, pending, outcome).0.cookies[0].0 == SESSION_COOKIE@
        },
{
}

} // verus!
