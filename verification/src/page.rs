//! The login page: finding the JSON that it embeds and reading the login form
//! out of it.

use vstd::prelude::*;
use vstd::string::*;
use crate::error::AuthError;
use crate::json::{json_string, json_string_at};
use crate::pairs::{distinct_names, pairs_map, pairs_view, set_pair, upsert, Pair};
use crate::urls::option_text;

verus! {

/// The `id` of the element that holds the embedded JSON.
pub const MODEL_ID: &'static str = "modelJson";

/// The longest page, in characters, that is searched.  The HTML parser keeps
/// lengths in 32 bits; this bound keeps every page below that.
pub const MAX_PAGE_LEN: usize = 0x0400_0000;

/// The text content of each element of the HTML document `html` whose `id`
/// attribute is `id`, in document order, as the `select` crate parses the
/// document, finds the elements and gathers their text.
pub uninterp spec fn html_texts_by_id(html: Seq<char>, id: Seq<char>) -> Seq<Seq<char>>;

/// `text` without the white space at its two ends, as `str::trim` leaves it.
pub uninterp spec fn trimmed(text: Seq<char>) -> Seq<char>;

/// `text` with each HTML character entity replaced by its character, as
/// `htmlescape::decode_html` does it, or `None` where it finds a broken entity.
pub uninterp spec fn entities_decoded(text: Seq<char>) -> Option<Seq<char>>;

/// What a list of strings holds, each string taken as its text.
pub open spec fn strings_view(items: Seq<String>) -> Seq<Seq<char>> {
    items.map_values(|item: String| item@)
}

/// Parses `html` with `select::document::Document::from`, finds the elements
/// whose `id` is `id` with `Document::find` and the predicate `Attr`, and hands
/// out the `Node::text` of each.  The length is bounded because the parser
/// panics on a text whose length does not fit in 32 bits.
#[verifier::external_body]
pub(crate) fn texts_by_id(html: &str, id: &str) -> (texts: Vec<String>)
    requires
        html@.len() <= MAX_PAGE_LEN,
    ensures
        strings_view(texts@) == html_texts_by_id(html@, id@),
{
    let document = select::document::Document::from(html);
    document.find(select::predicate::Attr("id", id)).map(|node| node.text()).collect()
}

/// Calls `str::trim`.
#[verifier::external_body]
pub(crate) fn trim(text: &str) -> (inner: &str)
    ensures
        inner@ == trimmed(text@),
{
    text.trim()
}

/// Calls `htmlescape::decode_html`.
#[verifier::external_body]
pub(crate) fn decode_entities(text: &str) -> (decoded: Option<String>)
    ensures
        option_text(decoded) == entities_decoded(text@),
{
    htmlescape::decode_html(text).ok()
}

/// The anti-forgery token of a login form: the name of the form field and the
/// value that it must carry.
#[derive(Clone, Debug)]
pub struct Xsrf {
    pub name: String,
    pub value: String,
}

/// The login form as the login page describes it.
#[derive(Clone, Debug)]
pub struct LoginInfo {
    pub anti_forgery: Xsrf,
    pub login_url: String,
}

/// The text of a `LoginInfo`.
pub struct LoginInfoView {
    pub name: Seq<char>,
    pub value: Seq<char>,
    pub login_url: Seq<char>,
}

impl View for LoginInfo {
    type V = LoginInfoView;

    open spec fn view(&self) -> LoginInfoView {
        LoginInfoView {
            name: self.anti_forgery.name@,
            value: self.anti_forgery.value@,
            login_url: self.login_url@,
        }
    }
}

/// The text of a login form or the failure in its place.
pub open spec fn result_info(info: Result<LoginInfo, AuthError>) -> Result<
    LoginInfoView,
    AuthError,
> {
    match info {
        Ok(info) => Ok(info@),
        Err(error) => Err(error),
    }
}

/// The fields of a login request: `username`, `password`, and the anti-forgery
/// field last, each set in turn, so that a later field replaces an earlier one
/// of the same name.
pub open spec fn login_params(
    name: Seq<char>,
    value: Seq<char>,
    username: Seq<char>,
    password: Seq<char>,
) -> Seq<Pair> {
    upsert(
        upsert(upsert(Seq::empty(), "username"@, username), "password"@, password),
        name,
        value,
    )
}

/// The login form made of the three strings that describe it; a failure where
/// one is missing.
pub open spec fn login_info_of(
    name: Option<Seq<char>>,
    value: Option<Seq<char>>,
    login_url: Option<Seq<char>>,
) -> Result<LoginInfoView, AuthError> {
    match (name, value, login_url) {
        (Some(name), Some(value), Some(login_url)) => Ok(LoginInfoView { name, value, login_url }),
        _ => Err(AuthError::MalformedJson),
    }
}

/// The login form that the JSON text `json` describes: the strings at
/// `antiForgery.name`, `antiForgery.value` and `loginUrl`.
pub open spec fn login_info_in(json: Seq<char>) -> Result<LoginInfoView, AuthError> {
    login_info_of(
        json_string_at(json, "/antiForgery/name"@),
        json_string_at(json, "/antiForgery/value"@),
        json_string_at(json, "/loginUrl"@),
    )
}

/// The JSON text that the elements found on a page embed: that of the last
/// element; a failure where none was found.
pub open spec fn embedded_of(texts: Seq<Seq<char>>) -> Result<Seq<char>, AuthError> {
    if texts.len() == 0 {
        Err(AuthError::NoEmbeddedJson)
    } else {
        Ok(texts.last())
    }
}

/// The login form that the page `html` describes.  The page is searched for
/// the element whose `id` is `modelJson`; its text is trimmed, its character
/// entities are decoded, and the result is read as JSON.
pub open spec fn scraped(html: Seq<char>) -> Result<LoginInfoView, AuthError> {
    if html.len() > MAX_PAGE_LEN {
        Err(AuthError::OversizedPage)
    } else {
        match embedded_of(html_texts_by_id(html, MODEL_ID@)) {
            Err(error) => Err(error),
            Ok(raw) => match entities_decoded(trimmed(raw)) {
                None => Err(AuthError::MalformedEntities),
                Some(json) => login_info_in(json),
            },
        }
    }
}

impl Xsrf {
    /// The fields of the login request for `username` and `password`, signed
    /// with this token.  The field of the token is set last: where it is named
    /// `username` or `password` it replaces that field.
    pub fn build_login_params(&self, username: &str, password: &str) -> (params: Vec<
        (String, String),
    >)
        ensures
            pairs_view(params@) == login_params(self.name@, self.value@, username@, password@),
            distinct_names(pairs_view(params@)),
            pairs_map(pairs_view(params@)) == Map::<Seq<char>, Seq<char>>::empty().insert(
                "username"@,
                username@,
            ).insert("password"@, password@).insert(self.name@, self.value@),
    {
        let mut params: Vec<(String, String)> = Vec::new();
        assert(pairs_view(params@) =~= Seq::<Pair>::empty());
        set_pair(&mut params, "username".to_owned(), username.to_owned());
        set_pair(&mut params, "password".to_owned(), password.to_owned());
        set_pair(&mut params, self.name.clone(), self.value.clone());
        params
    }
}

impl LoginInfo {
    /// The login form made of the three strings that describe it.
    pub fn from_parts(name: Option<String>, value: Option<String>, login_url: Option<String>) -> (info:
        Result<LoginInfo, AuthError>)
        ensures
            result_info(info) == login_info_of(
                option_text(name),
                option_text(value),
                option_text(login_url),
            ),
    {
        match (name, value, login_url) {
            (Some(name), Some(value), Some(login_url)) => Ok(
                LoginInfo { anti_forgery: Xsrf { name, value }, login_url },
            ),
            _ => Err(AuthError::MalformedJson),
        }
    }

    /// Reads the login form out of the JSON text `json`.
    pub fn from_json(json: &str) -> (info: Result<LoginInfo, AuthError>)
        ensures
            result_info(info) == login_info_in(json@),
    {
        LoginInfo::from_parts(
            json_string(json, "/antiForgery/name"),
            json_string(json, "/antiForgery/value"),
            json_string(json, "/loginUrl"),
        )
    }
}

/// The JSON text that the elements found on a page embed: that of the last.
pub fn pick_embedded(texts: Vec<String>) -> (raw: Result<String, AuthError>)
    ensures
        crate::urls::result_text(raw) == embedded_of(strings_view(texts@)),
{
    let mut texts = texts;
    match texts.pop() {
        Some(raw) => Ok(raw),
        None => Err(AuthError::NoEmbeddedJson),
    }
}

/// Reads the login form out of the login page `html`.
pub fn scrape_login_info(html: &str) -> (info: Result<LoginInfo, AuthError>)
    ensures
        result_info(info) == scraped(html@),
{
    if html.unicode_len() > MAX_PAGE_LEN {
        return Err(AuthError::OversizedPage);
    }
    match pick_embedded(texts_by_id(html, MODEL_ID)) {
        Err(error) => Err(error),
        Ok(raw) => match decode_entities(trim(raw.as_str())) {
            None => Err(AuthError::MalformedEntities),
            Some(json) => LoginInfo::from_json(json.as_str()),
        },
    }
}

} // verus!
