//! Decoding of JSON text produced by the generation service.
use vstd::prelude::*;
use crate::context::texts_view;

verus! {

#[verifier::external_type_specification]
#[verifier::external_body]
pub struct ExJsonError(serde_json::Error);

/// The list of strings that a JSON text denotes, if it denotes one.
pub uninterp spec fn decoded_string_list(text: Seq<char>) -> Option<Seq<Seq<char>>>;

/// Relies on serde_json::from_str::<Vec<String>>: whether it succeeds, and
/// the strings it returns, depend on the text alone.
#[verifier::external_body]
pub(crate) fn decode_string_list(text: &str) -> (r: Result<Vec<String>, serde_json::Error>)
    ensures
        match r {
            Ok(v) => decoded_string_list(text@) == Some(texts_view(v@)),
            Err(_) => decoded_string_list(text@) is None,
        },
{
    serde_json::from_str::<Vec<String>>(text)
}

} // verus!
