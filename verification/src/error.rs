//! Why a login or a renewal was given up.

use vstd::prelude::*;

verus! {

/// The families of failure.  Every failure ends the call that met it; nothing
/// is retried.
#[derive(Clone, Copy, Debug, PartialEq, Eq, Structural)]
pub enum ErrorKind {
    /// The network, TLS or the connection failed.
    Transport,
    /// A response did not have the shape the protocol needs.
    ProtocolShape,
    /// The login form could not be located on the login page.
    Scrape,
    /// The final redirect did not carry a usable token.
    Callback,
    /// The operation was called in a state that does not allow it.
    StatePrecondition,
    /// A cookie was malformed or missing.
    Cookie,
}

/// A failed step of a login or a renewal.
#[derive(Clone, Copy, Debug, PartialEq, Eq, Structural)]
pub enum AuthError {
    /// No HTTP client could be built.
    ClientUnavailable,
    /// A request was sent and no response came back.
    RequestFailed,
    /// The discovery document could not be fetched.
    DiscoveryUnreachable,
    /// The discovery document names no authorization endpoint.
    DiscoveryUnreadable,
    /// The authorization endpoint is not an absolute URL.
    InvalidEndpoint,
    /// A path could not be resolved against the provider's origin.
    UnresolvableUrl,
    /// A `Set-Cookie` header is not text.
    UnreadableSetCookie,
    /// A `Set-Cookie` header is no cookie assignment.
    MalformedCookie,
    /// A redirection was expected and the response has no `Location`.
    ExpectedRedirection,
    /// The `Location` header is not text.
    UnreadableLocation,
    /// The `Location` header is no URL.
    InvalidLocation,
    /// The login page has no body text.
    UnreadableBody,
    /// The login page is too large to be searched.
    OversizedPage,
    /// The login page embeds no JSON.
    NoEmbeddedJson,
    /// The embedded text holds a broken character entity.
    MalformedEntities,
    /// The embedded text is not the JSON of a login form.
    MalformedJson,
    /// The provider answered the credentials without a redirection.
    InvalidCredentials,
    /// A renewal was asked for before any login.
    LoginRequired,
    /// The callback URL has no fragment, or one that cannot be decoded.
    InvalidCallback,
    /// The callback carries no identity token.
    MissingIdToken,
    /// The provider's session cookie was never set.
    MissingSessionCookie,
}

impl AuthError {
    /// The family of `self`.
    pub open spec fn spec_kind(self) -> ErrorKind {
        match self {
            AuthError::ClientUnavailable
            | AuthError::RequestFailed
            | AuthError::DiscoveryUnreachable => ErrorKind::Transport,
            AuthError::DiscoveryUnreadable
            | AuthError::InvalidEndpoint
            | AuthError::UnresolvableUrl
            | AuthError::ExpectedRedirection
            | AuthError::UnreadableLocation
            | AuthError::InvalidLocation
            | AuthError::InvalidCredentials => ErrorKind::ProtocolShape,
            AuthError::UnreadableBody
            | AuthError::OversizedPage
            | AuthError::NoEmbeddedJson
            | AuthError::MalformedEntities
            | AuthError::MalformedJson => ErrorKind::Scrape,
            AuthError::InvalidCallback | AuthError::MissingIdToken => ErrorKind::Callback,
            AuthError::LoginRequired => ErrorKind::StatePrecondition,
            AuthError::UnreadableSetCookie
            | AuthError::MalformedCookie
            | AuthError::MissingSessionCookie => ErrorKind::Cookie,
        }
    }

    /// The reason, as a short sentence for a person.
    pub open spec fn spec_message(self) -> Seq<char> {
        match self {
            AuthError::ClientUnavailable => "Unable to create HTTP client"@,
            AuthError::RequestFailed => "Failed HTTP request"@,
            AuthError::DiscoveryUnreachable => "Failed to HTTP GET the discovery path"@,
            AuthError::DiscoveryUnreadable => "Unable to deserialize discovery json"@,
            AuthError::InvalidEndpoint => "Unable to parse discovery url"@,
            AuthError::UnresolvableUrl => "Unable to join URL's"@,
            AuthError::UnreadableSetCookie => "Unable to read set-cookie header"@,
            AuthError::MalformedCookie => "Unable to parse cookie"@,
            AuthError::ExpectedRedirection => "Invalid response from server, expected redirection"@,
            AuthError::UnreadableLocation => "Unable to read location header"@,
            AuthError::InvalidLocation => "Unable to parse the url of location"@,
            AuthError::UnreadableBody => "Unable to read HTTP response body"@,
            AuthError::OversizedPage => "HTTP response body is too large"@,
            AuthError::NoEmbeddedJson => "No JSON was sent"@,
            AuthError::MalformedEntities => "Unable to decode HTML entities"@,
            AuthError::MalformedJson => "Unable to decode JSON"@,
            AuthError::InvalidCredentials => "Invalid credentials"@,
            AuthError::LoginRequired => "Please login first."@,
            AuthError::InvalidCallback => "Invalid callback"@,
            AuthError::MissingIdToken => "No id_token in callback"@,
            AuthError::MissingSessionCookie => "No idsrv cookie was set"@,
        }
    }

    /// The family of failure that `self` belongs to.
    pub fn kind(&self) -> (kind: ErrorKind)
        ensures
            kind == self.spec_kind(),
    {
        match self {
            AuthError::ClientUnavailable
            | AuthError::RequestFailed
            | AuthError::DiscoveryUnreachable => ErrorKind::Transport,
            AuthError::DiscoveryUnreadable
            | AuthError::InvalidEndpoint
            | AuthError::UnresolvableUrl
            | AuthError::ExpectedRedirection
            | AuthError::UnreadableLocation
            | AuthError::InvalidLocation
            | AuthError::InvalidCredentials => ErrorKind::ProtocolShape,
            AuthError::UnreadableBody
            | AuthError::OversizedPage
            | AuthError::NoEmbeddedJson
            | AuthError::MalformedEntities
            | AuthError::MalformedJson => ErrorKind::Scrape,
            AuthError::InvalidCallback | AuthError::MissingIdToken => ErrorKind::Callback,
            AuthError::LoginRequired => ErrorKind::StatePrecondition,
            AuthError::UnreadableSetCookie
            | AuthError::MalformedCookie
            | AuthError::MissingSessionCookie => ErrorKind::Cookie,
        }
    }

    /// The reason string to show to the user.
    pub fn message(&self) -> (text: &'static str)
        ensures
            text@ == self.spec_message(),
    {
        match self {
            AuthError::ClientUnavailable => "Unable to create HTTP client",
            AuthError::RequestFailed => "Failed HTTP request",
            AuthError::DiscoveryUnreachable => "Failed to HTTP GET the discovery path",
            AuthError::DiscoveryUnreadable => "Unable to deserialize discovery json",
            AuthError::InvalidEndpoint => "Unable to parse discovery url",
            AuthError::UnresolvableUrl => "Unable to join URL's",
            AuthError::UnreadableSetCookie => "Unable to read set-cookie header",
            AuthError::MalformedCookie => "Unable to parse cookie",
            AuthError::ExpectedRedirection => "Invalid response from server, expected redirection",
            AuthError::UnreadableLocation => "Unable to read location header",
            AuthError::InvalidLocation => "Unable to parse the url of location",
            AuthError::UnreadableBody => "Unable to read HTTP response body",
            AuthError::OversizedPage => "HTTP response body is too large",
            AuthError::NoEmbeddedJson => "No JSON was sent",
            AuthError::MalformedEntities => "Unable to decode HTML entities",
            AuthError::MalformedJson => "Unable to decode JSON",
            AuthError::InvalidCredentials => "Invalid credentials",
            AuthError::LoginRequired => "Please login first.",
            AuthError::InvalidCallback => "Invalid callback",
            AuthError::MissingIdToken => "No id_token in callback",
            AuthError::MissingSessionCookie => "No idsrv cookie was set",
        }
    }
}

} // verus!
