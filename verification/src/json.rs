//! JSON text of a string value.

use vstd::prelude::*;

verus! {

/// The JSON text that `serde_json` writes for a string value: the string
/// between quotes, with the characters escaped that JSON does not take as
/// they are.
pub uninterp spec fn json_string(text: Seq<char>) -> Seq<char>;

/// `text` holds no character that a JSON string has to escape: no quote, no
/// backslash, and no character below U+0020.
pub open spec fn needs_no_escape(text: Seq<char>) -> bool {
    forall|i: int|
        0 <= i < text.len() ==> {
            &&& #[trigger] text[i] >= ' '
            &&& text[i] != '"'
            &&& text[i] != '\\'
        }
}

/// Writes `text` as a JSON string value, by the `Display` of
/// `serde_json::Value`, which writes compact JSON. Text that needs no escape
/// comes out as it is between two quotes; of any other text the contract
/// only names the result.
#[verifier::external_body]
pub(crate) fn quote_json(text: &str) -> (out: String)
    ensures
        out@ == json_string(text@),
        needs_no_escape(text@) ==> out@ == seq!['"'] + text@ + seq!['"'],
{
    serde_json::Value::String(text.to_owned()).to_string()
}

} // verus!
