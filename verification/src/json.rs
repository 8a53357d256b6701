//! Reading single strings out of a JSON document.

use vstd::prelude::*;
use crate::urls::option_text;

verus! {

/// The string that the JSON document `text` holds at the JSON Pointer
/// `pointer`, as `serde_json` parses the one and follows the other.  `None`
/// where `text` is no JSON, where the pointer leads nowhere, or where what it
/// leads to is no string.
pub uninterp spec fn json_string_at(text: Seq<char>, pointer: Seq<char>) -> Option<Seq<char>>;

/// Parses `text` with `serde_json::from_str`, follows `pointer` in the value
/// with `serde_json::Value::pointer`, and hands out the string found there
/// (`Value::as_str`).
#[verifier::external_body]
pub(crate) fn json_string(text: &str, pointer: &str) -> (found: Option<String>)
    ensures
        option_text(found) == json_string_at(text@, pointer@),
{
    let document: serde_json::Value = serde_json::from_str(text).ok()?;
    document.pointer(pointer)?.as_str().map(String::from)
}

} // verus!
