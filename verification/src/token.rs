//! The completion token: the single-owner handle on the GPU work of the most
//! recently submitted frame.

use vstd::prelude::*;

verus! {

/// What a completion token stands for.
#[derive(Clone, Copy, Debug, PartialEq, Eq, Structural)]
pub enum Completion {
    /// Nothing is outstanding: the token is satisfied from the start.
    AlreadySatisfied,
    /// The GPU work of the submission with this serial number.
    Submission(u64),
}

/// "Has the most recently submitted frame's GPU work finished?" A token is
/// made in one of two ways and used up by the one operation that reads it.
/// It cannot be copied, so at most one owner holds it.
#[derive(Debug, PartialEq, Eq)]
pub struct CompletionToken {
    origin: Completion,
}

impl View for CompletionToken {
    type V = Completion;

    closed spec fn view(&self) -> Completion {
        self.origin
    }
}

impl CompletionToken {
    /// The token that is satisfied from the start, as used at startup and
    /// after a failed submission.
    pub fn already_satisfied() -> (token: CompletionToken)
        ensures
            token@ == Completion::AlreadySatisfied,
    {
        CompletionToken { origin: Completion::AlreadySatisfied }
    }

    /// The token that a successful submission hands back.
    pub fn from_pending_operation(serial: u64) -> (token: CompletionToken)
        ensures
            token@ == Completion::Submission(serial),
    {
        CompletionToken { origin: Completion::Submission(serial) }
    }

    /// What the token stands for, without using it up.
    pub fn peek(&self) -> (completion: Completion)
        ensures
            completion == self@,
    {
        self.origin
    }

    /// Uses the token up and tells what has to be complete before anything
    /// that depends on it may run.
    pub fn wait_and_consume(self) -> (awaited: Completion)
        ensures
            awaited == self@,
    {
        self.origin
    }
}

} // verus!
