use luminus_auth::{generate_random_bytes, to_hex};

fn is_lower_hex(c: char) -> bool {
    ('0'..='9').contains(&c) || ('a'..='f').contains(&c)
}

#[test]
fn to_hex_of_nothing_is_empty() {
    assert_eq!(to_hex(&Vec::new()), "");
}

#[test]
fn to_hex_writes_two_digits_per_byte() {
    assert_eq!(to_hex(&vec![0x00, 0x01, 0x0a, 0x10, 0xab, 0xff]), "00010a10abff");
    assert_eq!(to_hex(&vec![0x9f]), "9f");
    assert_eq!(to_hex(&vec![0xf9]), "f9");
}

#[test]
fn to_hex_covers_every_digit() {
    let bytes: Vec<u8> = vec![0x01, 0x23, 0x45, 0x67, 0x89, 0xab, 0xcd, 0xef];
    assert_eq!(to_hex(&bytes), "0123456789abcdef");
}

#[test]
fn random_token_has_two_digits_per_byte() {
    for size in [0usize, 1, 2, 16, 33] {
        let token = generate_random_bytes(size);
        assert_eq!(token.chars().count(), 2 * size);
        assert!(token.chars().all(is_lower_hex));
    }
}

#[test]
fn random_tokens_differ() {
    let one = generate_random_bytes(16);
    let two = generate_random_bytes(16);
    assert_eq!(one.len(), 32);
    assert_eq!(two.len(), 32);
    assert_ne!(one, two);
}
