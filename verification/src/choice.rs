//! Answers to a yes-or-no question.

use vstd::prelude::*;
use crate::text::{is_plain_ascii, lowercase_of, same_text, trim, trimmed};

verus! {

/// What an answer to a yes-or-no question means.
#[derive(Debug, Clone, Copy, PartialEq, Eq, Structural)]
pub enum Choice {
    Yes,
    No,
    /// Neither: the question is asked again.
    Unclear,
}

/// The meaning of an answer from which white space and upper case are gone:
/// nothing at all and `y` say yes, `n` says no.
pub open spec fn choice_of(answer: Seq<char>) -> Choice {
    if answer.len() == 0 || answer == seq!['y'] {
        Choice::Yes
    } else if answer == seq!['n'] {
        Choice::No
    } else {
        Choice::Unclear
    }
}

/// The meaning of an answer from which white space and upper case are gone.
pub fn classify_choice(answer: &str) -> (choice: Choice)
    ensures
        choice == choice_of(answer@),
{
    proof {
        reveal_strlit("");
        reveal_strlit("y");
        reveal_strlit("n");
        assert(""@ =~= Seq::<char>::empty());
        assert("y"@ =~= seq!['y']);
        assert("n"@ =~= seq!['n']);
        if answer@.len() == 0 {
            assert(answer@ =~= ""@);
        }
    }
    if same_text(answer, "") || same_text(answer, "y") {
        Choice::Yes
    } else if same_text(answer, "n") {
        Choice::No
    } else {
        Choice::Unclear
    }
}

/// The meaning of a line as the user typed it: white space around it and
/// the case of its letters do not count. Where what is left is ASCII
/// without upper-case letters, it is judged as it stands.
pub fn read_choice(line: &str) -> (choice: Choice)
    ensures
        choice == choice_of(lowercase_of(trimmed(line@))),
        is_plain_ascii(trimmed(line@)) ==> choice == choice_of(trimmed(line@)),
{
    let answer = trim(line).as_str().to_lowercase();
    classify_choice(answer.as_str())
}

} // verus!
