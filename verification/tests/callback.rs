use luminus_auth::{AuthError, Authorization};

fn pair(name: &str, value: &str) -> (String, String) {
    (name.to_string(), value.to_string())
}

fn session(cookies: &[&str]) -> Authorization {
    let mut auth = Authorization::new();
    for cookie in cookies {
        assert_eq!(auth.add_cookie(cookie), Ok(()));
    }
    auth
}

#[test]
fn new_session_is_empty() {
    let auth = Authorization::new();
    assert_eq!(auth.jwt, None);
    assert_eq!(auth.cookies().len(), 0);
    assert_eq!(auth.generate_cookie_header(), "");
}

#[test]
fn session_presents_its_cookies() {
    let auth = session(&["a=1; Path=/", "b=2", "a=3"]);
    assert_eq!(auth.generate_cookie_header(), "a=3; b=2; ");
    assert_eq!(auth.cookies().get("a"), Some("3".to_string()));
}

#[test]
fn session_rejects_a_malformed_cookie() {
    let mut auth = session(&["a=1"]);
    assert_eq!(auth.add_cookie("nothing"), Err(AuthError::MalformedCookie));
    assert_eq!(auth.cookies().to_vec(), vec![pair("a", "1")]);
}

#[test]
fn callback_sets_token_and_prunes_cookies() {
    let mut auth = session(&["SignInMessage.1=m", "idsrv=sess1", "idsrv.xsrf=x"]);
    let outcome = auth.handle_callback("https://app/callback#id_token=ABC&state=xyz");
    assert_eq!(outcome, Ok(true));
    assert_eq!(auth.jwt, Some("ABC".to_string()));
    assert_eq!(auth.cookies().to_vec(), vec![pair("idsrv", "sess1")]);
}

#[test]
fn id_token_is_a_copy_of_the_token() {
    let mut auth = session(&["idsrv=sess1"]);
    assert_eq!(auth.id_token(), None);
    assert_eq!(auth.handle_callback("https://app/callback#id_token=ABC"), Ok(true));
    assert_eq!(auth.id_token(), Some("ABC".to_string()));
}

#[test]
fn callback_with_only_the_session_cookie() {
    let mut auth = session(&["idsrv=sess1"]);
    let outcome = auth.handle_callback("https://app/callback#id_token=ABC&state=xyz");
    assert_eq!(outcome, Ok(true));
    assert_eq!(auth.jwt, Some("ABC".to_string()));
    assert_eq!(auth.cookies().to_vec(), vec![pair("idsrv", "sess1")]);
}

#[test]
fn callback_replaces_an_earlier_token() {
    let mut auth = session(&["idsrv=sess1"]);
    auth.jwt = Some("old".to_string());
    assert_eq!(auth.handle_callback("https://app/callback#id_token=new"), Ok(true));
    assert_eq!(auth.jwt, Some("new".to_string()));
}

#[test]
fn callback_decodes_the_fragment() {
    let mut auth = session(&["idsrv=sess1"]);
    let url = "https://app/callback#access_token=t&id_token=a%2Bb+c%3D&code=9";
    assert_eq!(auth.handle_callback(url), Ok(true));
    assert_eq!(auth.jwt, Some("a+b c=".to_string()));
}

#[test]
fn callback_takes_the_last_id_token() {
    let mut auth = session(&["idsrv=sess1"]);
    assert_eq!(auth.handle_callback("https://app/cb#id_token=first&id_token=second"), Ok(true));
    assert_eq!(auth.jwt, Some("second".to_string()));
}

#[test]
fn callback_without_fragment_is_invalid() {
    let mut auth = session(&["idsrv=sess1", "other=1"]);
    auth.jwt = Some("old".to_string());
    let outcome = auth.handle_callback("https://app/callback?id_token=ABC");
    assert_eq!(outcome, Err(AuthError::InvalidCallback));
    assert_eq!(auth.jwt, Some("old".to_string()));
    assert_eq!(auth.cookies().to_vec(), vec![pair("idsrv", "sess1"), pair("other", "1")]);

    let mut fresh = session(&["idsrv=sess1"]);
    assert_eq!(fresh.handle_callback("https://app/callback"), Err(AuthError::InvalidCallback));
    assert_eq!(fresh.jwt, None);
}

#[test]
fn callback_with_empty_fragment_is_invalid() {
    let mut auth = session(&["idsrv=sess1"]);
    assert_eq!(auth.handle_callback("https://app/callback#"), Err(AuthError::InvalidCallback));
    assert_eq!(auth.jwt, None);
}

#[test]
fn callback_that_is_no_url_is_invalid() {
    let mut auth = session(&["idsrv=sess1"]);
    assert_eq!(auth.handle_callback("#id_token=ABC"), Err(AuthError::InvalidCallback));
    assert_eq!(auth.handle_callback(""), Err(AuthError::InvalidCallback));
    assert_eq!(auth.jwt, None);
}

#[test]
fn callback_without_id_token_fails() {
    let mut auth = session(&["idsrv=sess1", "other=1"]);
    let outcome = auth.handle_callback("https://app/callback#error=access_denied&state=xyz");
    assert_eq!(outcome, Err(AuthError::MissingIdToken));
    assert_eq!(auth.jwt, None);
    assert_eq!(auth.cookies().len(), 2);
}

#[test]
fn callback_without_session_cookie_fails() {
    let mut auth = session(&["other=1"]);
    auth.jwt = Some("old".to_string());
    let outcome = auth.handle_callback("https://app/callback#id_token=ABC");
    assert_eq!(outcome, Err(AuthError::MissingSessionCookie));
    assert_eq!(auth.jwt, Some("old".to_string()));
    assert_eq!(auth.cookies().to_vec(), vec![pair("other", "1")]);
}

#[test]
fn accept_tokens_reads_the_fields() {
    let mut auth = session(&["a=1", "idsrv=sess1"]);
    let fields = vec![pair("id_token", "ABC"), pair("state", "xyz")];
    assert_eq!(auth.accept_tokens(&fields), Ok(true));
    assert_eq!(auth.jwt, Some("ABC".to_string()));
    assert_eq!(auth.cookies().to_vec(), vec![pair("idsrv", "sess1")]);
}

#[test]
fn accept_tokens_checks_the_token_first() {
    let mut auth = session(&["a=1"]);
    assert_eq!(auth.accept_tokens(&vec![pair("state", "xyz")]), Err(AuthError::MissingIdToken));
    assert_eq!(
        auth.accept_tokens(&vec![pair("id_token", "ABC")]),
        Err(AuthError::MissingSessionCookie)
    );
    assert_eq!(auth.accept_tokens(&Vec::new()), Err(AuthError::MissingIdToken));
    assert_eq!(auth.jwt, None);
    assert_eq!(auth.cookies().to_vec(), vec![pair("a", "1")]);
}
