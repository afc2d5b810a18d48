//! The message that frames a generation request.
use vstd::prelude::*;
use crate::agent::{ChatMessage, Role};
use crate::context::opt_text_view;

verus! {

pub open spec fn framed_request(task: Seq<char>, input: Seq<char>) -> Seq<char> {
    "FUNCTION: "@ + task
        + "\nINSTRUCTION: You are a function printer. You ONLY print the results of functions. Nothing else. No commentary. Here is the input to the function: "@
        + input + ".\nPrint out what the function will return."@
}

/// Frames a task description and its input as one system message that asks
/// the generator for the task's output only.
pub fn extend_message_to_agent(task: &str, input: &str) -> (r: ChatMessage)
    ensures
        r.role == Role::System,
        r.content@ == framed_request(task@, input@),
{
    let m = String::from_str("FUNCTION: ");
    let m = m.concat(task);
    let m = m.concat(
        "\nINSTRUCTION: You are a function printer. You ONLY print the results of functions. Nothing else. No commentary. Here is the input to the function: ",
    );
    let m = m.concat(input);
    let content = m.concat(".\nPrint out what the function will return.");
    ChatMessage { role: Role::System, content }
}

/// The text as `{:?}` renders it: in double quotes, with its special
/// characters escaped.
pub uninterp spec fn debug_quoted(s: Seq<char>) -> Seq<char>;

/// Relies on the `Debug` formatting of `str` (through `format!("{:?}")`):
/// the quoted, escaped form of the text, which depends on the text alone.
#[verifier::external_body]
pub(crate) fn debug_text(s: &str) -> (r: String)
    ensures
        r@ == debug_quoted(s@),
{
    format!("{:?}", s)
}

/// An optional text as `{:?}` renders it: `Some("...")` or `None`.
pub open spec fn debug_option(o: Option<Seq<char>>) -> Seq<char> {
    match o {
        Some(s) => "Some("@ + debug_quoted(s) + ")"@,
        None => "None"@,
    }
}

/// An optional text as `{:?}` renders it.
pub fn debug_option_text(o: &Option<String>) -> (r: String)
    ensures
        r@ == debug_option(opt_text_view(*o)),
{
    match o {
        Some(s) => String::from_str("Some(").concat(debug_text(s.as_str()).as_str()).concat(")"),
        None => String::from_str("None"),
    }
}

} // verus!
