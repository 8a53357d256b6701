use luminus_auth::discovery::{discovery_url, request_for};
use luminus_auth::urls::{
    AUTH_BASE_URL, CLIENT_ID, DISCOVERY_PATH, MAX_URL_LEN, REDIRECT_URI, RESPONSE_TYPE, SCOPE,
};
use luminus_auth::{
    add_auth_params, auth_endpoint_uri, auth_endpoint_uri_with, full_auth_url, AuthError, Exchange,
    HttpResponse,
};

const PARAMS: &str = "client_id=verso&scope=profile+email+role+openid+lms.read+calendar.read+lms.delete+lms.write+calendar.write+gradebook.write+offline_access&response_type=id_token+token+code&redirect_uri=https%3A%2F%2Fluminus.nus.edu.sg%2Fauth%2Fcallback";

fn fetched(body: &str) -> Exchange {
    Exchange::Reply(HttpResponse {
        status: 200,
        location: None,
        set_cookies: Vec::new(),
        body: Some(body.to_string()),
    })
}

fn query_value(url: &str, name: &str) -> Option<String> {
    let query = url.split_once('?')?.1;
    for piece in query.split('&') {
        if let Some((key, value)) = piece.split_once('=') {
            if key == name {
                return Some(value.to_string());
            }
        }
    }
    None
}

#[test]
fn constants_are_the_providers() {
    assert_eq!(AUTH_BASE_URL, "https://luminus.nus.edu.sg");
    assert_eq!(DISCOVERY_PATH, "/v2/auth/.well-known/openid-configuration");
    assert_eq!(CLIENT_ID, "verso");
    assert_eq!(RESPONSE_TYPE, "id_token token code");
    assert_eq!(REDIRECT_URI, "https://luminus.nus.edu.sg/auth/callback");
    assert!(SCOPE.starts_with("profile email role openid"));
    assert!(SCOPE.ends_with("offline_access"));
}

#[test]
fn full_auth_url_resolves_a_path() {
    assert_eq!(
        full_auth_url("/account/login"),
        Ok("https://luminus.nus.edu.sg/account/login".to_string())
    );
    assert_eq!(
        full_auth_url("login?signin=1"),
        Ok("https://luminus.nus.edu.sg/login?signin=1".to_string())
    );
}

#[test]
fn full_auth_url_keeps_an_absolute_url() {
    assert_eq!(
        full_auth_url("https://other.example/a/../b"),
        Ok("https://other.example/b".to_string())
    );
}

#[test]
fn full_auth_url_rejects_what_does_not_join() {
    assert_eq!(full_auth_url("https://"), Err(AuthError::UnresolvableUrl));
    assert_eq!(full_auth_url("//[bad"), Err(AuthError::UnresolvableUrl));
}

#[test]
fn discovery_url_is_under_the_origin() {
    assert_eq!(
        discovery_url(),
        Ok("https://luminus.nus.edu.sg/v2/auth/.well-known/openid-configuration".to_string())
    );
}

#[test]
fn add_auth_params_appends_in_order() {
    let url = add_auth_params("https://idp/auth", "s1", "n1");
    assert_eq!(url, Some(format!("https://idp/auth?state=s1&nonce=n1&{}", PARAMS)));
}

#[test]
fn add_auth_params_keeps_query_and_fragment() {
    let url = add_auth_params("https://idp/auth?x=1#frag", "a b", "n&1");
    assert_eq!(url, Some(format!("https://idp/auth?x=1&state=a+b&nonce=n%261&{}#frag", PARAMS)));
}

#[test]
fn add_auth_params_rejects_what_is_no_url() {
    assert_eq!(add_auth_params("not a url", "s", "n"), None);
    assert_eq!(add_auth_params("/relative/path", "s", "n"), None);
}

#[test]
fn add_auth_params_rejects_an_oversized_marker() {
    let long = "a".repeat(MAX_URL_LEN + 1);
    assert_eq!(add_auth_params("https://idp/auth", &long, "n"), None);
    assert_eq!(add_auth_params("https://idp/auth", "s", &long), None);
    let url = "https://idp/".to_string() + &"a".repeat(MAX_URL_LEN);
    assert_eq!(add_auth_params(&url, "s", "n"), None);
}

#[test]
fn add_auth_params_takes_long_markers() {
    let long = "a".repeat(MAX_URL_LEN / 4);
    let url = add_auth_params("https://idp/auth", &long, &long).unwrap();
    assert!(url.starts_with("https://idp/auth?state=aaaa"));
    assert!(url.ends_with(PARAMS));
    assert_eq!(url.len(), "https://idp/auth?state=&nonce=&".len() + 2 * long.len() + PARAMS.len());
}

#[test]
fn add_auth_params_stops_where_the_url_has_grown_too_long() {
    let fits = "a".repeat(MAX_URL_LEN);
    assert_eq!(add_auth_params("https://idp/auth", &fits, "n"), None);
}

#[test]
fn request_for_reads_the_endpoint() {
    let discovery = "{\"issuer\":\"https://idp\",\"authorization_endpoint\":\"https://idp/auth\"}";
    assert_eq!(
        request_for(discovery, "s1", "n1"),
        Ok(format!("https://idp/auth?state=s1&nonce=n1&{}", PARAMS))
    );
}

#[test]
fn auth_endpoint_uri_with_reads_the_answer() {
    let discovery = "{\"issuer\":\"https://idp\",\"authorization_endpoint\":\"https://idp/auth\"}";
    assert_eq!(
        auth_endpoint_uri_with(&fetched(discovery), "s1", "n1"),
        Ok(format!("https://idp/auth?state=s1&nonce=n1&{}", PARAMS))
    );
    let mut not_found = fetched(discovery);
    if let Exchange::Reply(response) = &mut not_found {
        response.status = 404;
        response.set_cookies = vec![b"a=1".to_vec()];
    }
    assert_eq!(
        auth_endpoint_uri_with(&not_found, "s1", "n1"),
        Ok(format!("https://idp/auth?state=s1&nonce=n1&{}", PARAMS))
    );
}

#[test]
fn auth_endpoint_uri_with_needs_an_answer_with_a_body() {
    assert_eq!(
        auth_endpoint_uri_with(&Exchange::NoReply, "s", "n"),
        Err(AuthError::DiscoveryUnreachable)
    );
    assert_eq!(
        auth_endpoint_uri_with(&Exchange::NoClient, "s", "n"),
        Err(AuthError::DiscoveryUnreachable)
    );
    let mut empty = fetched("");
    if let Exchange::Reply(response) = &mut empty {
        response.body = None;
    }
    assert_eq!(auth_endpoint_uri_with(&empty, "s", "n"), Err(AuthError::DiscoveryUnreadable));
    assert_eq!(auth_endpoint_uri_with(&fetched("{}"), "s", "n"), Err(AuthError::DiscoveryUnreadable));
    assert_eq!(
        auth_endpoint_uri_with(&fetched("{\"authorization_endpoint\":\"auth\"}"), "s", "n"),
        Err(AuthError::InvalidEndpoint)
    );
}

#[test]
fn request_for_normalizes_the_endpoint() {
    let discovery = "{\"authorization_endpoint\":\"HTTPS://IDP.example:443/a/./b\"}";
    assert_eq!(
        request_for(discovery, "s", "n"),
        Ok(format!("https://idp.example/a/b?state=s&nonce=n&{}", PARAMS))
    );
}

#[test]
fn request_for_needs_the_endpoint() {
    assert_eq!(request_for("{}", "s", "n"), Err(AuthError::DiscoveryUnreadable));
    assert_eq!(request_for("not json", "s", "n"), Err(AuthError::DiscoveryUnreadable));
    assert_eq!(
        request_for("{\"authorization_endpoint\":7}", "s", "n"),
        Err(AuthError::DiscoveryUnreadable)
    );
    assert_eq!(request_for("", "s", "n"), Err(AuthError::DiscoveryUnreadable));
}

#[test]
fn request_for_needs_an_absolute_endpoint() {
    assert_eq!(
        request_for("{\"authorization_endpoint\":\"/auth\"}", "s", "n"),
        Err(AuthError::InvalidEndpoint)
    );
    assert_eq!(
        request_for("{\"authorization_endpoint\":\"\"}", "s", "n"),
        Err(AuthError::InvalidEndpoint)
    );
}

#[test]
fn auth_endpoint_uri_draws_fresh_markers() {
    let discovery = fetched("{\"authorization_endpoint\":\"https://idp/auth\"}");
    let url = auth_endpoint_uri(&discovery).unwrap();
    assert!(url.starts_with("https://idp/auth?state="));
    assert!(url.ends_with(PARAMS));
    let state = query_value(&url, "state").unwrap();
    let nonce = query_value(&url, "nonce").unwrap();
    for marker in [&state, &nonce] {
        assert_eq!(marker.len(), 32);
        assert!(marker.chars().all(|c| c.is_ascii_digit() || ('a'..='f').contains(&c)));
    }
    assert_ne!(state, nonce);
    assert_eq!(query_value(&url, "client_id"), Some("verso".to_string()));
    let response_type = query_value(&url, "response_type").unwrap();
    for wanted in ["id_token", "token", "code"] {
        assert!(response_type.split('+').any(|part| part == wanted));
    }
    assert_eq!(auth_endpoint_uri(&fetched("{}")), Err(AuthError::DiscoveryUnreadable));
    assert_eq!(auth_endpoint_uri(&Exchange::NoReply), Err(AuthError::DiscoveryUnreachable));
}
