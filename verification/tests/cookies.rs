use luminus_auth::cookies::CookieJar;
use luminus_auth::AuthError;

fn pair(name: &str, value: &str) -> (String, String) {
    (name.to_string(), value.to_string())
}

fn headers(items: &[&str]) -> Vec<Option<String>> {
    items.iter().map(|item| Some(item.to_string())).collect()
}

/// Splits a `Cookie` header as a reader would: pieces end in `; `, and a piece
/// is cut at its first `=`.
fn reparse(header: &str) -> Vec<(String, String)> {
    let mut pairs = Vec::new();
    let mut rest = header;
    while let Some(end) = rest.find(';') {
        let piece = &rest[..end];
        match piece.find('=') {
            Some(cut) => pairs.push(pair(&piece[..cut], &piece[cut + 1..])),
            None => pairs.push(pair(piece, "")),
        }
        rest = if end + 2 <= rest.len() { &rest[end + 2..] } else { "" };
    }
    pairs
}

#[test]
fn new_jar_is_empty() {
    let jar = CookieJar::new();
    assert_eq!(jar.len(), 0);
    assert_eq!(jar.get("a"), None);
    assert_eq!(jar.header_value(), "");
    assert!(jar.to_vec().is_empty());
}

#[test]
fn merge_last_write_wins() {
    let mut jar = CookieJar::new();
    assert_eq!(jar.merge(&headers(&["a=1", "b=2", "a=3"])), Ok(()));
    assert_eq!(jar.len(), 2);
    assert_eq!(jar.get("a"), Some("3".to_string()));
    assert_eq!(jar.get("b"), Some("2".to_string()));
    assert_eq!(jar.to_vec(), vec![pair("a", "3"), pair("b", "2")]);
}

#[test]
fn merge_in_another_order_gives_the_same_jar() {
    let mut jar = CookieJar::new();
    assert_eq!(jar.merge(&headers(&["b=2", "a=1", "a=3"])), Ok(()));
    assert_eq!(jar.len(), 2);
    assert_eq!(jar.get("a"), Some("3".to_string()));
    assert_eq!(jar.get("b"), Some("2".to_string()));
}

#[test]
fn add_cookie_ignores_attributes() {
    let mut jar = CookieJar::new();
    assert_eq!(jar.add_cookie("idsrv=sess1; Path=/; HttpOnly; Secure"), Ok(()));
    assert_eq!(jar.get("idsrv"), Some("sess1".to_string()));
    assert_eq!(jar.get("Path"), None);
    assert_eq!(jar.len(), 1);
}

#[test]
fn add_cookie_trims_name_and_value() {
    let mut jar = CookieJar::new();
    assert_eq!(jar.add_cookie("  a  =  1  ; Path=/"), Ok(()));
    assert_eq!(jar.to_vec(), vec![pair("a", "1")]);
}

#[test]
fn add_cookie_keeps_equal_signs_in_value() {
    let mut jar = CookieJar::new();
    assert_eq!(jar.add_cookie("token=a=b=c"), Ok(()));
    assert_eq!(jar.get("token"), Some("a=b=c".to_string()));
}

#[test]
fn add_cookie_rejects_a_header_without_pair() {
    let mut jar = CookieJar::new();
    assert_eq!(jar.add_cookie("a=1"), Ok(()));
    assert_eq!(jar.add_cookie("no pair here"), Err(AuthError::MalformedCookie));
    assert_eq!(jar.add_cookie("=value"), Err(AuthError::MalformedCookie));
    assert_eq!(jar.add_cookie(""), Err(AuthError::MalformedCookie));
    assert_eq!(jar.to_vec(), vec![pair("a", "1")]);
}

#[test]
fn merge_stops_at_a_malformed_cookie() {
    let mut jar = CookieJar::new();
    let outcome = jar.merge(&headers(&["a=1", "broken", "b=2"]));
    assert_eq!(outcome, Err(AuthError::MalformedCookie));
    assert_eq!(jar.to_vec(), vec![pair("a", "1")]);
}

#[test]
fn merge_stops_at_an_unreadable_header() {
    let mut jar = CookieJar::new();
    let set_cookies = vec![Some("a=1".to_string()), None, Some("b=2".to_string())];
    assert_eq!(jar.merge(&set_cookies), Err(AuthError::UnreadableSetCookie));
    assert_eq!(jar.to_vec(), vec![pair("a", "1")]);
}

#[test]
fn merge_of_nothing_changes_nothing() {
    let mut jar = CookieJar::new();
    jar.insert("a".to_string(), "1".to_string());
    assert_eq!(jar.merge(&Vec::new()), Ok(()));
    assert_eq!(jar.to_vec(), vec![pair("a", "1")]);
}

#[test]
fn insert_replaces_in_place() {
    let mut jar = CookieJar::new();
    jar.insert("a".to_string(), "1".to_string());
    jar.insert("b".to_string(), "2".to_string());
    jar.insert("c".to_string(), "3".to_string());
    jar.insert("b".to_string(), "4".to_string());
    assert_eq!(jar.to_vec(), vec![pair("a", "1"), pair("b", "4"), pair("c", "3")]);
    assert_eq!(jar.len(), 3);
}

#[test]
fn header_value_lists_every_cookie() {
    let mut jar = CookieJar::new();
    assert_eq!(jar.merge(&headers(&["a=1", "b=2", "a=3"])), Ok(()));
    assert_eq!(jar.header_value(), "a=3; b=2; ");
}

#[test]
fn header_value_round_trips() {
    let mut jar = CookieJar::new();
    let received = headers(&[
        "idsrv=sess1; Path=/",
        "idsrv.xsrf=a=b; HttpOnly",
        "empty=",
        "SignInMessage.1=  padded value  ; Secure",
    ]);
    assert_eq!(jar.merge(&received), Ok(()));
    assert_eq!(reparse(&jar.header_value()), jar.to_vec());
    assert_eq!(
        jar.to_vec(),
        vec![
            pair("idsrv", "sess1"),
            pair("idsrv.xsrf", "a=b"),
            pair("empty", ""),
            pair("SignInMessage.1", "padded value"),
        ]
    );
}

#[test]
fn retain_only_keeps_one_cookie() {
    let mut jar = CookieJar::new();
    assert_eq!(jar.merge(&headers(&["a=1", "idsrv=s", "b=2"])), Ok(()));
    jar.retain_only("idsrv");
    assert_eq!(jar.to_vec(), vec![pair("idsrv", "s")]);
    jar.retain_only("missing");
    assert_eq!(jar.len(), 0);
}

#[test]
fn lookup_takes_the_last_pair_of_a_name() {
    let entries = vec![pair("k", "1"), pair("other", "x"), pair("k", "2")];
    assert_eq!(luminus_auth::pairs::lookup(&entries, "k"), Some("2".to_string()));
    assert_eq!(luminus_auth::pairs::find_last(&entries, "k"), Some(2));
    assert_eq!(luminus_auth::pairs::find_last(&entries, "other"), Some(1));
    assert_eq!(luminus_auth::pairs::lookup(&entries, "none"), None);
    assert_eq!(luminus_auth::pairs::find_last(&entries, "none"), None);
}

#[test]
fn set_pair_sets_first_place_or_appends() {
    let mut entries = vec![pair("a", "1"), pair("b", "2")];
    luminus_auth::pairs::set_pair(&mut entries, "a".to_string(), "9".to_string());
    assert_eq!(entries, vec![pair("a", "9"), pair("b", "2")]);
    luminus_auth::pairs::set_pair(&mut entries, "c".to_string(), "3".to_string());
    assert_eq!(entries, vec![pair("a", "9"), pair("b", "2"), pair("c", "3")]);
}
