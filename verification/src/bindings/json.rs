use vstd::prelude::*;

verus! {

/// The JSON string literal that `serde_json` writes for a text: the text in
/// double quotes, with the characters that JSON requires escaped.
pub uninterp spec fn json_string_of(s: Seq<char>) -> Seq<char>;

/// Calls `serde_json::to_string` on a string slice. Serializing a `str`
/// cannot fail; the error arm only converts the `Result`.
#[verifier::external_body]
pub fn json_string(s: &str) -> (r: String)
    ensures
        r@ == json_string_of(s@),
{
    match serde_json::to_string(s) {
        Ok(json) => json,
        Err(_) => String::new(),
    }
}

} // verus!
