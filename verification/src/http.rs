//! Requests and responses as plain values.  The protocol decides what is
//! sent and reads what came back; sending is left to the caller.

use vstd::prelude::*;
use crate::cookies::texts_view;
use crate::error::AuthError;
use crate::pairs::{pairs_view, Pair};
use crate::urls::{join_url, option_text, result_text, url_joined, AUTH_BASE_URL};

verus! {

/// What the protocol reads of an HTTP response.  Header values are the bytes
/// that came over the wire.
#[derive(Clone, Debug)]
pub struct HttpResponse {
    /// The status code.
    pub status: u16,
    /// The value of the `Location` header, where the response has one.
    pub location: Option<Vec<u8>>,
    /// The value of every `Set-Cookie` header, in the order of the response.
    pub set_cookies: Vec<Vec<u8>>,
    /// The body as text; `None` where it could not be read.
    pub body: Option<String>,
}

/// An `HttpResponse` with its header values read as text.  A header value
/// that cannot be read as text stands as `None`.
pub struct ResponseView {
    pub status: u16,
    pub location: Option<Option<Seq<char>>>,
    pub set_cookies: Seq<Option<Seq<char>>>,
    pub body: Option<Seq<char>>,
}

/// Whether `byte` may stand in a header value that is read as text: visible
/// ASCII, a space or a tab.
pub open spec fn is_visible_ascii(byte: u8) -> bool {
    (32 <= byte && byte < 127) || byte == 9
}

/// The text of a header value: its bytes as characters, where every byte is
/// visible ASCII.
pub open spec fn header_text(value: Seq<u8>) -> Option<Seq<char>> {
    if forall|i: int| 0 <= i < value.len() ==> is_visible_ascii(#[trigger] value[i]) {
        Some(value.map_values(|byte: u8| byte as char))
    } else {
        None
    }
}

/// The texts of a list of header values.
pub open spec fn header_texts(values: Seq<Vec<u8>>) -> Seq<Option<Seq<char>>> {
    values.map_values(|value: Vec<u8>| header_text(value@))
}

impl View for HttpResponse {
    type V = ResponseView;

    open spec fn view(&self) -> ResponseView {
        ResponseView {
            status: self.status,
            location: match self.location {
                Some(value) => Some(header_text(value@)),
                None => None,
            },
            set_cookies: header_texts(self.set_cookies@),
            body: option_text(self.body),
        }
    }
}

/// How sending a request ended.
#[derive(Clone, Debug)]
pub enum Exchange {
    /// No HTTP client could be built, so nothing was sent.
    NoClient,
    /// The request was sent and the transport failed.
    NoReply,
    /// A response came back.
    Reply(HttpResponse),
}

/// The text of an `Exchange`.
pub enum ExchangeView {
    NoClient,
    NoReply,
    Reply(ResponseView),
}

impl View for Exchange {
    type V = ExchangeView;

    open spec fn view(&self) -> ExchangeView {
        match self {
            Exchange::NoClient => ExchangeView::NoClient,
            Exchange::NoReply => ExchangeView::NoReply,
            Exchange::Reply(response) => ExchangeView::Reply(response@),
        }
    }
}

/// A request for the caller to send.
#[derive(Clone, Debug)]
pub enum Request {
    /// A plain GET: no cookies, redirects followed.
    Fetch { url: String },
    /// A GET that presents the cookie jar and follows no redirect.
    Get { url: String, cookie: String },
    /// A POST of a form that presents the cookie jar and follows no redirect.
    Post { url: String, cookie: String, form: Vec<(String, String)> },
}

/// The text of a `Request`.
pub enum RequestView {
    Fetch { url: Seq<char> },
    Get { url: Seq<char>, cookie: Seq<char> },
    Post { url: Seq<char>, cookie: Seq<char>, form: Seq<Pair> },
}

impl View for Request {
    type V = RequestView;

    open spec fn view(&self) -> RequestView {
        match self {
            Request::Fetch { url } => RequestView::Fetch { url: url@ },
            Request::Get { url, cookie } => RequestView::Get { url: url@, cookie: cookie@ },
            Request::Post { url, cookie, form } => RequestView::Post {
                url: url@,
                cookie: cookie@,
                form: pairs_view(form@),
            },
        }
    }
}

/// Whether `status` is a redirection: a code from 300 to 399.
pub open spec fn redirects(status: u16) -> bool {
    300 <= status < 400
}

/// Where a response redirects to: its `Location`, resolved against the
/// provider's origin.
pub open spec fn redirect_target(response: ResponseView) -> Result<Seq<char>, AuthError> {
    match response.location {
        None => Err(AuthError::ExpectedRedirection),
        Some(None) => Err(AuthError::UnreadableLocation),
        Some(Some(location)) => match url_joined(AUTH_BASE_URL@, location) {
            None => Err(AuthError::InvalidLocation),
            Some(url) => Ok(url),
        },
    }
}

/// Calls `String::push`, which appends one character.
#[verifier::external_body]
fn push_char(text: &mut String, c: char)
    ensures
        final(text)@ == old(text)@.push(c),
{
    text.push(c)
}

/// Reads a header value as text.
pub fn read_header(value: &Vec<u8>) -> (text: Option<String>)
    ensures
        option_text(text) == header_text(value@),
{
    let mut text = String::new();
    let mut i: usize = 0;
    while i < value.len()
        invariant
            i <= value.len(),
            forall|j: int| 0 <= j < i ==> is_visible_ascii(#[trigger] value[j]),
            text@ == value@.take(i as int).map_values(|byte: u8| byte as char),
        decreases value.len() - i,
    {
        let byte: u8 = value[i];
        if !((32 <= byte && byte < 127) || byte == 9) {
            return None;
        }
        push_char(&mut text, byte as char);
        assert(text@ =~= value@.take(i + 1).map_values(|byte: u8| byte as char));
        i += 1;
    }
    assert(value@.take(value.len() as int) =~= value@);
    Some(text)
}

/// Reads each of a list of header values as text.
pub fn read_headers(values: &Vec<Vec<u8>>) -> (texts: Vec<Option<String>>)
    ensures
        texts_view(texts@) == header_texts(values@),
{
    let mut texts: Vec<Option<String>> = Vec::new();
    let mut i: usize = 0;
    while i < values.len()
        invariant
            i <= values.len(),
            texts.len() == i,
            texts_view(texts@) == header_texts(values@.take(i as int)),
        decreases values.len() - i,
    {
        let ghost so_far = texts@;
        texts.push(read_header(&values[i]));
        assert forall|j: int| 0 <= j < texts.len() implies texts_view(texts@)[j] == header_texts(
            values@.take(i + 1),
        )[j] by {
            if j < i {
                assert(texts_view(so_far)[j] == header_texts(values@.take(i as int))[j]);
            }
        }
        assert(texts_view(texts@) =~= header_texts(values@.take(i + 1)));
        i += 1;
    }
    assert(values@.take(values.len() as int) =~= values@);
    texts
}

/// Whether `status` is a redirection.
pub fn is_redirection(status: u16) -> (yes: bool)
    ensures
        yes == redirects(status),
{
    300 <= status && status < 400
}

/// The URL that `response` redirects to.
pub fn get_redirect_url(response: &HttpResponse) -> (url: Result<String, AuthError>)
    ensures
        result_text(url) == redirect_target(response@),
{
    match &response.location {
        None => Err(AuthError::ExpectedRedirection),
        Some(value) => match read_header(value) {
            None => Err(AuthError::UnreadableLocation),
            Some(location) => match join_url(AUTH_BASE_URL, location.as_str()) {
                None => Err(AuthError::InvalidLocation),
                Some(url) => Ok(url),
            },
        },
    }
}

} // verus!
