//! The greeting command.

use vstd::prelude::*;

verus! {

/// What precedes the name in a greeting.
pub open spec fn greeting_prefix() -> Seq<char> {
    "Hello, "@
}

/// What follows the name in a greeting. It names the platform that answers.
pub open spec fn greeting_suffix() -> Seq<char> {
    "! You've been greeted from Rust!"@
}

/// The greeting for `name`: the prefix, the name as given, the suffix.
pub open spec fn greeting_text(name: Seq<char>) -> Seq<char> {
    greeting_prefix() + name + greeting_suffix()
}

/// Formats the greeting for `name`. Any string is accepted, the empty one too.
pub fn greet(name: &str) -> (greeting: String)
    ensures
        greeting@ == greeting_text(name@),
{
    let mut greeting = String::from_str("Hello, ");
    greeting.append(name);
    greeting.append("! You've been greeted from Rust!");
    greeting
}

/// Every greeting opens with the prefix, closes with the suffix, and holds
/// the name unchanged between the two, with nothing else in it.
pub proof fn lemma_greeting_frames_name(name: Seq<char>)
    ensures
        greeting_text(name).len() == greeting_prefix().len() + name.len()
            + greeting_suffix().len(),
        greeting_prefix().is_prefix_of(greeting_text(name)),
        greeting_suffix().is_suffix_of(greeting_text(name)),
        greeting_text(name).subrange(
            greeting_prefix().len() as int,
            (greeting_prefix().len() + name.len()) as int,
        ) == name,
{
    let text = greeting_text(name);
    let head = greeting_prefix().len() as int;
    assert(text.subrange(0, head) =~= greeting_prefix());
    assert(text.subrange(head + name.len(), text.len() as int) =~= greeting_suffix());
    assert(text.subrange(head, head + name.len()) =~= name);
}

} // verus!
