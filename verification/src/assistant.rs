//! The decisions of the question-answering workflow: which assistant to
//! use, what to ask, and what to do while a run is under way.

use crate::text::{join2, same};
use vstd::prelude::*;

verus! {

/// Where a run of the assistant stands.
#[derive(Clone, Copy, Debug, PartialEq, Eq, Structural)]
pub enum RunStatus {
    Queued,
    InProgress,
    RequiresAction,
    Cancelling,
    Cancelled,
    Failed,
    Completed,
    Expired,
}

/// What to do after a look at a run.
#[derive(Clone, Copy, Debug, PartialEq, Eq, Structural)]
pub enum Poll {
    /// Fetch the newest message of the thread: it is the answer.
    FetchAnswer,
    /// Give up: there will be no answer.
    GiveUp,
    /// Look again after a pause.
    Wait,
}

/// What a status calls for.
pub open spec fn poll_of(status: RunStatus) -> Poll {
    match status {
        RunStatus::Completed => Poll::FetchAnswer,
        RunStatus::Failed => Poll::GiveUp,
        _ => Poll::Wait,
    }
}

/// Decides what to do after a look at a run.
pub fn next_poll(status: RunStatus) -> (poll: Poll)
    ensures
        poll == poll_of(status),
{
    match status {
        RunStatus::Completed => Poll::FetchAnswer,
        RunStatus::Failed => Poll::GiveUp,
        _ => Poll::Wait,
    }
}

/// The answer that is given when a run has failed.
pub fn answer_when_failed() -> (text: String)
    ensures
        text@ == "Result not found"@,
{
    String::from_str("Result not found")
}

/// The name under which the assistant is kept.
pub fn assistant_name() -> (name: String)
    ensures
        name@ == "Novel GPT Alexandria"@,
{
    String::from_str("Novel GPT Alexandria")
}

/// The message that puts a question, with the passage it is about.
pub open spec fn question_of(context: Seq<char>, question: Seq<char>) -> Seq<char> {
    "Context: "@ + context + ", Question: "@ + question
}

/// Writes the message that puts a question.
pub fn compose_question(context: &str, question: &str) -> (text: String)
    ensures
        text@ == question_of(context@, question@),
{
    join2("Context: ", context).concat(", Question: ").concat(question)
}

/// Index of the first of `names` that equals `wanted`, or `-1`.
pub open spec fn first_named(names: Seq<String>, wanted: Seq<char>) -> int
    decreases names.len(),
{
    if names.len() == 0 {
        -1
    } else if first_named(names.drop_last(), wanted) >= 0 {
        first_named(names.drop_last(), wanted)
    } else if names.last()@ == wanted {
        names.len() - 1
    } else {
        -1
    }
}

/// Finds the first of `names` that equals `wanted`: the assistant or the
/// uploaded file to use again, if there is one.
pub fn find_named(names: &Vec<String>, wanted: &str) -> (found: Option<usize>)
    ensures
        match found {
            Some(i) => i == first_named(names@, wanted@) && i < names@.len() && names@[i as int]@
                == wanted@,
            None => first_named(names@, wanted@) == -1,
        },
{
    let mut i: usize = 0;
    while i < names.len()
        invariant
            i <= names@.len(),
            first_named(names@.subrange(0, i as int), wanted@) == -1,
        decreases names@.len() - i,
    {
        assert(names@.subrange(0, i + 1).drop_last() == names@.subrange(0, i as int));
        if same(names[i].as_str(), wanted) {
            proof {
                lemma_first_named_prefix(names@, wanted@, i as int);
            }
            return Some(i);
        }
        i = i + 1;
    }
    assert(names@.subrange(0, i as int) == names@);
    None
}

/// A first match in a prefix is the first match in the whole.
pub proof fn lemma_first_named_prefix(names: Seq<String>, wanted: Seq<char>, i: int)
    requires
        0 <= i < names.len(),
        first_named(names.subrange(0, i + 1), wanted) == i,
    ensures
        first_named(names, wanted) == i,
    decreases names.len(),
{
    if names.len() > i + 1 {
        let rest = names.drop_last();
        assert(rest.subrange(0, i + 1) == names.subrange(0, i + 1));
        lemma_first_named_prefix(rest, wanted, i);
    } else {
        assert(names.subrange(0, i + 1) == names);
    }
}

} // verus!
