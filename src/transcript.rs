use vstd::prelude::*;

use crate::format::{trim_start, trim_start_spec};

verus! {

/// The transcript record of a prompt: `Q: <prompt>` and a newline.
pub open spec fn question_record_spec(prompt: Seq<char>) -> Seq<char> {
    seq!['Q', ':', ' '] + prompt + seq!['\n']
}

/// The transcript record of a reply: `A: ` and the reply without its leading
/// whitespace, then a newline.
pub open spec fn answer_record_spec(reply: Seq<char>) -> Seq<char> {
    seq!['A', ':', ' '] + trim_start_spec(reply) + seq!['\n']
}

/// The line that the transcript gains when `prompt` is sent.
pub fn question_record(prompt: &str) -> (r: String)
    ensures
        r@ == question_record_spec(prompt@),
{
    proof {
        reveal_strlit("Q: ");
        reveal_strlit("\n");
    }
    let mut r = String::from_str("Q: ");
    r.append(prompt);
    r.append("\n");
    assert(r@ =~= question_record_spec(prompt@));
    r
}

/// The line that the transcript gains when `reply` is received.
pub fn answer_record(reply: &str) -> (r: String)
    ensures
        r@ == answer_record_spec(reply@),
{
    proof {
        reveal_strlit("A: ");
        reveal_strlit("\n");
    }
    let mut r = String::from_str("A: ");
    r.append(trim_start(reply));
    r.append("\n");
    assert(r@ =~= answer_record_spec(reply@));
    r
}

} // verus!
