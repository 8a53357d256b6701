//! Random tokens for the `state` and `nonce` parameters of an authorization
//! request, written as lowercase hexadecimal text.

use vstd::prelude::*;

verus! {

/// The sixteen digits of lowercase hexadecimal, in order of value.
pub open spec fn hex_alphabet() -> Seq<char> {
    seq!['0', '1', '2', '3', '4', '5', '6', '7', '8', '9', 'a', 'b', 'c', 'd', 'e', 'f']
}

/// Whether `c` is a digit of lowercase hexadecimal.
pub open spec fn is_lower_hex(c: char) -> bool {
    ('0' <= c && c <= '9') || ('a' <= c && c <= 'f')
}

/// The hexadecimal text of `bytes`: two digits for each byte, the high half
/// first.
pub open spec fn hex_of(bytes: Seq<u8>) -> Seq<char> {
    Seq::new(
        2 * bytes.len(),
        |i: int|
            if i % 2 == 0 {
                hex_alphabet()[bytes[i / 2] as int / 16]
            } else {
                hex_alphabet()[bytes[i / 2] as int % 16]
            },
    )
}

/// Whether `text` is a token made from `size` bytes: `2 * size` digits of
/// lowercase hexadecimal.
pub open spec fn is_token(text: Seq<char>, size: nat) -> bool {
    &&& text.len() == 2 * size
    &&& forall|i: int| 0 <= i < text.len() ==> is_lower_hex(#[trigger] text[i])
}

/// The hexadecimal text of any bytes is a token of their number.
pub proof fn lemma_hex_is_token(bytes: Seq<u8>)
    ensures
        is_token(hex_of(bytes), bytes.len()),
{
    let text = hex_of(bytes);
    assert forall|i: int| 0 <= i < text.len() implies is_lower_hex(#[trigger] text[i]) by {
        let half: int = if i % 2 == 0 {
            bytes[i / 2] as int / 16
        } else {
            bytes[i / 2] as int % 16
        };
        assert(0 <= half < 16);
        assert(text[i] == hex_alphabet()[half]);
    }
}

/// Appending one byte appends its two digits.
proof fn lemma_hex_push(bytes: Seq<u8>, byte: u8)
    ensures
        hex_of(bytes.push(byte)) == hex_of(bytes) + seq![
            hex_alphabet()[byte as int / 16],
            hex_alphabet()[byte as int % 16],
        ],
{
    let longer = hex_of(bytes.push(byte));
    let joined = hex_of(bytes) + seq![
        hex_alphabet()[byte as int / 16],
        hex_alphabet()[byte as int % 16],
    ];
    assert(longer.len() == joined.len());
    assert forall|i: int| 0 <= i < longer.len() implies longer[i] == joined[i] by {
        if i / 2 < bytes.len() {
            assert(bytes.push(byte)[i / 2] == bytes[i / 2]);
        } else {
            assert(i / 2 == bytes.len());
            assert(bytes.push(byte)[i / 2] == byte);
        }
    }
    assert(longer =~= joined);
}

/// The text of the hexadecimal digit of value `n`.
fn digit_text(n: u8) -> (text: &'static str)
    requires
        n < 16,
    ensures
        text@ == seq![hex_alphabet()[n as int]],
{
    proof {
        reveal_strlit("0");
        reveal_strlit("1");
        reveal_strlit("2");
        reveal_strlit("3");
        reveal_strlit("4");
        reveal_strlit("5");
        reveal_strlit("6");
        reveal_strlit("7");
        reveal_strlit("8");
        reveal_strlit("9");
        reveal_strlit("a");
        reveal_strlit("b");
        reveal_strlit("c");
        reveal_strlit("d");
        reveal_strlit("e");
        reveal_strlit("f");
    }
    let text = match n {
        0 => "0",
        1 => "1",
        2 => "2",
        3 => "3",
        4 => "4",
        5 => "5",
        6 => "6",
        7 => "7",
        8 => "8",
        9 => "9",
        10 => "a",
        11 => "b",
        12 => "c",
        13 => "d",
        14 => "e",
        _ => "f",
    };
    assert(text@ =~= seq![hex_alphabet()[n as int]]);
    text
}

/// Writes `bytes` as lowercase hexadecimal text.
pub fn to_hex(bytes: &Vec<u8>) -> (text: String)
    ensures
        text@ == hex_of(bytes@),
{
    let mut text = String::new();
    let mut i: usize = 0;
    assert(hex_of(bytes@.take(0)) =~= Seq::<char>::empty());
    while i < bytes.len()
        invariant
            i <= bytes.len(),
            text@ == hex_of(bytes@.take(i as int)),
        decreases bytes.len() - i,
    {
        let byte: u8 = bytes[i];
        text.append(digit_text(byte / 16));
        text.append(digit_text(byte % 16));
        proof {
            lemma_hex_push(bytes@.take(i as int), byte);
            assert(bytes@.take(i as int).push(byte) =~= bytes@.take(i + 1));
        }
        i += 1;
    }
    assert(bytes@.take(bytes.len() as int) =~= bytes@);
    text
}

/// One byte from `rand::random`, which draws from the generator of the calling
/// thread.  Nothing is claimed of its value.
#[verifier::external_body]
fn random_byte() -> (byte: u8) {
    rand::random::<u8>()
}

/// A fresh token of `size` random bytes, as `2 * size` digits of lowercase
/// hexadecimal.
pub fn generate_random_bytes(size: usize) -> (token: String)
    ensures
        is_token(token@, size as nat),
{
    let mut bytes: Vec<u8> = Vec::new();
    let mut i: usize = 0;
    while i < size
        invariant
            i <= size,
            bytes.len() == i,
        decreases size - i,
    {
        bytes.push(random_byte());
        i += 1;
    }
    proof {
        lemma_hex_is_token(bytes@);
    }
    to_hex(&bytes)
}

} // verus!
