//! Headless OpenID Connect login against a single identity provider.
//!
//! The crate holds the protocol: the cookie jar, the authorization request,
//! the scraping of the login page and the parsing of the final callback.  It
//! never touches the network.  A caller sends each [`Request`] that a flow
//! asks for and hands the [`Exchange`] back to [`Authorization::advance`],
//! until the flow is done or has failed.

pub mod authorization;
pub mod cookies;
pub mod discovery;
pub mod error;
pub mod http;
pub mod json;
pub mod page;
pub mod pairs;
pub mod token;
pub mod urls;

pub use authorization::{Authorization, Credentials, Pending, Step};
pub use cookies::CookieJar;
pub use discovery::{auth_endpoint_uri, auth_endpoint_uri_with, discovery_url};
pub use error::{AuthError, ErrorKind};
pub use http::{get_redirect_url, is_redirection, Exchange, HttpResponse, Request};
pub use page::{scrape_login_info, LoginInfo, Xsrf};
pub use token::{generate_random_bytes, to_hex};
pub use urls::{add_auth_params, full_auth_url};
