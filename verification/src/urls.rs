//! URLs of the provider: the fixed addresses, resolving a path against the
//! provider's origin, and the authorization request with its parameters.
//!
//! A URL is kept as its text.  Parsing and rewriting are the `url` crate's.

use vstd::prelude::*;
use vstd::string::*;
use crate::error::AuthError;

verus! {

/// The origin of the provider.  Relative URLs resolve against it.
pub const AUTH_BASE_URL: &'static str = "https://luminus.nus.edu.sg";

/// The path of the discovery document under the provider's origin.
pub const DISCOVERY_PATH: &'static str = "/v2/auth/.well-known/openid-configuration";

/// The client that asks for authorization.
pub const CLIENT_ID: &'static str = "verso";

/// The capabilities asked for, separated by spaces.
pub const SCOPE: &'static str =
    "profile email role openid lms.read calendar.read lms.delete lms.write calendar.write gradebook.write offline_access";

/// What the provider is to answer with: the implicit flow, all three at once.
pub const RESPONSE_TYPE: &'static str = "id_token token code";

/// Where the provider sends the user agent back to.
pub const REDIRECT_URI: &'static str = "https://luminus.nus.edu.sg/auth/callback";

/// The number of random bytes in a `state` or a `nonce`.
pub const MARKER_BYTES: usize = 16;

/// The longest URL, parameter name or parameter value, in characters, that is
/// handed on for rewriting.  The `url` crate keeps offsets into a URL in 32
/// bits; this bound keeps every rewritten URL far below that.
pub const MAX_URL_LEN: usize = 0x10_0000;

/// The text of the URL that `url::Url::parse` reads in `text`, or `None` where
/// it rejects `text`.
pub uninterp spec fn url_parsed(text: Seq<char>) -> Option<Seq<char>>;

/// The text of the URL that `url::Url::join` resolves `reference` to against
/// the URL `base`, or `None` where `base` is no URL or the two do not join.
pub uninterp spec fn url_joined(base: Seq<char>, reference: Seq<char>) -> Option<Seq<char>>;

/// The text of the URL `url` after `append_pair(name, value)` on its
/// `url::Url::query_pairs_mut`, or `None` where `url` is no URL.
pub uninterp spec fn url_with_pair(url: Seq<char>, name: Seq<char>, value: Seq<char>) -> Option<
    Seq<char>,
>;

/// The fragment that `url::Url::fragment` finds in the URL `url`: what follows
/// its `#`.  `None` where `url` is no URL or has no `#`.
pub uninterp spec fn url_fragment(url: Seq<char>) -> Option<Seq<char>>;

/// The text of an optional string.
pub open spec fn option_text(text: Option<String>) -> Option<Seq<char>> {
    match text {
        Some(text) => Some(text@),
        None => None,
    }
}

/// The text of a string or the failure in its place.
pub open spec fn result_text(text: Result<String, AuthError>) -> Result<Seq<char>, AuthError> {
    match text {
        Ok(text) => Ok(text@),
        Err(error) => Err(error),
    }
}

/// One more query parameter on an optional URL: nothing where there is no URL,
/// or where the URL, the name or the value is longer than `MAX_URL_LEN`.
pub open spec fn with_pair(url: Option<Seq<char>>, name: Seq<char>, value: Seq<char>) -> Option<
    Seq<char>,
> {
    match url {
        Some(url) => if url.len() <= MAX_URL_LEN && name.len() <= MAX_URL_LEN && value.len()
            <= MAX_URL_LEN {
            url_with_pair(url, name, value)
        } else {
            None
        },
        None => None,
    }
}

/// The authorization request: `url` with `state`, `nonce`, `client_id`,
/// `scope`, `response_type` and `redirect_uri` appended to its query, in this
/// order.
pub open spec fn with_auth_params(url: Seq<char>, state: Seq<char>, nonce: Seq<char>) -> Option<
    Seq<char>,
> {
    let url = with_pair(Some(url), "state"@, state);
    let url = with_pair(url, "nonce"@, nonce);
    let url = with_pair(url, "client_id"@, CLIENT_ID@);
    let url = with_pair(url, "scope"@, SCOPE@);
    let url = with_pair(url, "response_type"@, RESPONSE_TYPE@);
    with_pair(url, "redirect_uri"@, REDIRECT_URI@)
}

/// Calls `url::Url::parse` and hands out the text of the URL it read.
#[verifier::external_body]
pub(crate) fn parse_url(text: &str) -> (url: Option<String>)
    ensures
        option_text(url) == url_parsed(text@),
{
    url::Url::parse(text).ok().map(String::from)
}

/// Calls `url::Url::join` on the URL that `base` parses to, and hands out the
/// text of the URL it resolved `reference` to.
#[verifier::external_body]
pub(crate) fn join_url(base: &str, reference: &str) -> (url: Option<String>)
    ensures
        option_text(url) == url_joined(base@, reference@),
{
    url::Url::parse(base).ok()?.join(reference).ok().map(String::from)
}

/// Calls `append_pair` on the `url::Url::query_pairs_mut` of the URL that `url`
/// parses to, and hands out the text of the URL after it.  The lengths are
/// bounded because the crate panics on a URL whose offsets do not fit in 32
/// bits.
#[verifier::external_body]
fn append_query_pair(url: &str, name: &str, value: &str) -> (longer: Option<String>)
    requires
        url@.len() <= MAX_URL_LEN,
        name@.len() <= MAX_URL_LEN,
        value@.len() <= MAX_URL_LEN,
    ensures
        option_text(longer) == url_with_pair(url@, name@, value@),
{
    let mut parsed = url::Url::parse(url).ok()?;
    parsed.query_pairs_mut().append_pair(name, value);
    Some(String::from(parsed))
}

/// Calls `url::Url::fragment` on the URL that `url` parses to.
#[verifier::external_body]
pub(crate) fn fragment_of(url: &str) -> (fragment: Option<String>)
    ensures
        option_text(fragment) == url_fragment(url@),
{
    url::Url::parse(url).ok()?.fragment().map(String::from)
}

/// Resolves `path` against the provider's origin.
pub fn full_auth_url(path: &str) -> (url: Result<String, AuthError>)
    ensures
        result_text(url) == match url_joined(AUTH_BASE_URL@, path@) {
            Some(url) => Ok::<Seq<char>, AuthError>(url),
            None => Err(AuthError::UnresolvableUrl),
        },
{
    match join_url(AUTH_BASE_URL, path) {
        Some(url) => Ok(url),
        None => Err(AuthError::UnresolvableUrl),
    }
}

/// Appends one parameter to the query of `url`, where there is a URL and
/// nothing is too long.
fn append_pair(url: Option<String>, name: &str, value: &str) -> (longer: Option<String>)
    ensures
        option_text(longer) == with_pair(option_text(url), name@, value@),
{
    match url {
        Some(url) => {
            if url.as_str().unicode_len() <= MAX_URL_LEN && name.unicode_len() <= MAX_URL_LEN
                && value.unicode_len() <= MAX_URL_LEN {
                append_query_pair(url.as_str(), name, value)
            } else {
                None
            }
        },
        None => None,
    }
}

/// Appends the parameters of an authorization request to the query of `url`:
/// the two markers `state` and `nonce`, then the fixed `client_id`, `scope`,
/// `response_type` and `redirect_uri`.
pub fn add_auth_params(url: &str, state: &str, nonce: &str) -> (request: Option<String>)
    ensures
        option_text(request) == with_auth_params(url@, state@, nonce@),
{
    let request = append_pair(Some(url.to_owned()), "state", state);
    let request = append_pair(request, "nonce", nonce);
    let request = append_pair(request, "client_id", CLIENT_ID);
    let request = append_pair(request, "scope", SCOPE);
    let request = append_pair(request, "response_type", RESPONSE_TYPE);
    append_pair(request, "redirect_uri", REDIRECT_URI)
}

} // verus!
