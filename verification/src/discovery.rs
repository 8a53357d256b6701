//! The provider's discovery document and the authorization request that is
//! built from it.

use vstd::prelude::*;
use crate::error::AuthError;
use crate::http::{Exchange, ExchangeView};
use crate::json::{json_string, json_string_at};
use crate::token::{generate_random_bytes, is_token};
use crate::urls::{
    add_auth_params, full_auth_url, parse_url, result_text, url_joined, url_parsed,
    with_auth_params, AUTH_BASE_URL, DISCOVERY_PATH, MARKER_BYTES,
};

verus! {

/// The authorization request that the discovery document `discovery` leads
/// to: its `authorization_endpoint`, read as an absolute URL, with the
/// parameters of the request appended.
pub open spec fn authorization_request(
    discovery: Seq<char>,
    state: Seq<char>,
    nonce: Seq<char>,
) -> Result<Seq<char>, AuthError> {
    match json_string_at(discovery, "/authorization_endpoint"@) {
        None => Err(AuthError::DiscoveryUnreadable),
        Some(endpoint) => match url_parsed(endpoint) {
            None => Err(AuthError::InvalidEndpoint),
            Some(url) => match with_auth_params(url, state, nonce) {
                None => Err(AuthError::InvalidEndpoint),
                Some(request) => Ok(request),
            },
        },
    }
}

/// The authorization request that fetching the discovery document leads to.
/// The fetch must have been answered, and the answer must have a body.
pub open spec fn discovered_request(
    outcome: ExchangeView,
    state: Seq<char>,
    nonce: Seq<char>,
) -> Result<Seq<char>, AuthError> {
    match outcome {
        ExchangeView::Reply(response) => match response.body {
            None => Err(AuthError::DiscoveryUnreadable),
            Some(discovery) => authorization_request(discovery, state, nonce),
        },
        _ => Err(AuthError::DiscoveryUnreachable),
    }
}

/// The URL of the discovery document.
pub fn discovery_url() -> (url: Result<String, AuthError>)
    ensures
        result_text(url) == match url_joined(AUTH_BASE_URL@, DISCOVERY_PATH@) {
            Some(url) => Ok::<Seq<char>, AuthError>(url),
            None => Err(AuthError::UnresolvableUrl),
        },
{
    full_auth_url(DISCOVERY_PATH)
}

/// The authorization request for the discovery document `discovery`, with the
/// given markers as its `state` and `nonce`.
pub fn request_for(discovery: &str, state: &str, nonce: &str) -> (request: Result<
    String,
    AuthError,
>)
    ensures
        result_text(request) == authorization_request(discovery@, state@, nonce@),
{
    match json_string(discovery, "/authorization_endpoint") {
        None => Err(AuthError::DiscoveryUnreadable),
        Some(endpoint) => match parse_url(endpoint.as_str()) {
            None => Err(AuthError::InvalidEndpoint),
            Some(url) => match add_auth_params(url.as_str(), state, nonce) {
                None => Err(AuthError::InvalidEndpoint),
                Some(request) => Ok(request),
            },
        },
    }
}

/// The authorization request that `outcome`, the outcome of fetching the
/// discovery document, leads to, with the given markers as its `state` and
/// `nonce`.
pub fn auth_endpoint_uri_with(outcome: &Exchange, state: &str, nonce: &str) -> (request: Result<
    String,
    AuthError,
>)
    ensures
        result_text(request) == discovered_request(outcome@, state@, nonce@),
{
    match outcome {
        Exchange::Reply(response) => match &response.body {
            None => Err(AuthError::DiscoveryUnreadable),
            Some(discovery) => request_for(discovery.as_str(), state, nonce),
        },
        _ => Err(AuthError::DiscoveryUnreachable),
    }
}

/// The authorization request that `outcome`, the outcome of fetching the
/// discovery document, leads to, with a fresh random `state` and `nonce` of
/// sixteen bytes each.
pub fn auth_endpoint_uri(outcome: &Exchange) -> (request: Result<String, AuthError>)
    ensures
        exists|state: Seq<char>, nonce: Seq<char>|
            is_token(state, MARKER_BYTES as nat) && is_token(nonce, MARKER_BYTES as nat)
                && result_text(request) == #[trigger] discovered_request(outcome@, state, nonce),
{
    let state = generate_random_bytes(MARKER_BYTES);
    let nonce = generate_random_bytes(MARKER_BYTES);
    auth_endpoint_uri_with(outcome, state.as_str(), nonce.as_str())
}

} // verus!
