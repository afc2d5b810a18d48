//! Decisions on what the user types at the console.
use vstd::prelude::*;

verus! {

/// The text with its leading and trailing whitespace removed.
pub uninterp spec fn trimmed(s: Seq<char>) -> Seq<char>;

/// Relies on str::trim: the slice left after removing leading and trailing
/// whitespace, which depends on the text alone.
#[verifier::external_body]
fn trim_text(s: &str) -> (r: &str)
    ensures
        r@ == trimmed(s@),
{
    s.trim()
}

/// Whether a text holds exactly the characters of another.
pub fn str_is(s: &str, lit: &str) -> (r: bool)
    ensures
        r == (s@ == lit@),
{
    String::from_str(s) == String::from_str(lit)
}

/// What a trimmed answer to the safety question means: `1` continues, `2`
/// stops, anything else asks again.
pub open spec fn spec_choice(answer: Seq<char>) -> Option<bool> {
    if answer == "1"@ {
        Some(true)
    } else if answer == "2"@ {
        Some(false)
    } else {
        None
    }
}

/// The meaning of an already trimmed answer to the safety question.
pub fn confirmation_choice(answer: &str) -> (r: Option<bool>)
    ensures
        r == spec_choice(answer@),
{
    if str_is(answer, "1") {
        Some(true)
    } else if str_is(answer, "2") {
        Some(false)
    } else {
        None
    }
}

/// The meaning of a line typed in answer to the safety question.
pub fn read_confirmation(line: &str) -> (r: Option<bool>)
    ensures
        r == spec_choice(trimmed(line@)),
{
    confirmation_choice(trim_text(line))
}

/// A line typed at the console, without surrounding whitespace.
pub fn user_answer(line: &str) -> (r: String)
    ensures
        r@ == trimmed(line@),
{
    String::from_str(trim_text(line))
}

} // verus!
