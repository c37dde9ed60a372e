//! How a failed step is reported.
use vstd::prelude::*;
use vstd::string::StringExecFns;

verus! {

/// How the error of a failed step is passed on.
#[derive(Debug, Clone, Copy)]
pub enum Report {
    /// As it is.
    Plain,
    /// In one message, behind a text that says what failed.
    Prefixed(&'static str),
    /// As the cause of a message that says what failed.
    Context(&'static str),
}

impl Report {
    /// The message of the failure with this cause.
    pub open spec fn text(self, cause: Seq<char>) -> Seq<char> {
        match self {
            Report::Plain => cause,
            Report::Prefixed(what) => what@ + ": "@ + cause,
            Report::Context(what) => what@,
        }
    }

    /// The message of the failure with this cause.
    pub fn message(self, cause: &str) -> (message: String)
        ensures
            message@ == self.text(cause@),
    {
        match self {
            Report::Plain => cause.to_owned(),
            Report::Prefixed(what) => {
                let mut message = what.to_owned();
                message.append(": ");
                message.append(cause);
                message
            },
            Report::Context(what) => what.to_owned(),
        }
    }
}

/// Whether `next` comes right after `step` in `steps`.
pub open spec fn follows<S>(steps: Seq<S>, step: S, next: S) -> bool {
    exists|i: int| 0 <= i < steps.len() - 1 && #[trigger] steps[i] == step && steps[i + 1] == next
}

/// Whether `visited` goes through `steps` from the first one on, one by one.
pub open spec fn walks<S>(steps: Seq<S>, visited: Seq<S>) -> bool {
    &&& visited.len() > 0
    &&& visited[0] == steps[0]
    &&& forall|i: int|
        0 <= i < visited.len() - 1 ==> follows(steps, #[trigger] visited[i], visited[i + 1])
}

/// A walk that comes to the last step has gone through all of them, each once
/// and in their order.
pub proof fn complete_walk_is_all<S>(steps: Seq<S>, visited: Seq<S>)
    requires
        steps.len() > 0,
        steps.no_duplicates(),
        walks(steps, visited),
        visited.last() == steps.last(),
    ensures
        visited == steps,
{
    walk_is_prefix(steps, visited, visited.len());
    assert(visited =~= steps);
}

proof fn walk_is_prefix<S>(steps: Seq<S>, visited: Seq<S>, n: nat)
    requires
        steps.len() > 0,
        steps.no_duplicates(),
        walks(steps, visited),
        n <= visited.len(),
    ensures
        n <= steps.len(),
        forall|i: int| 0 <= i < n ==> visited[i] == steps[i],
    decreases n,
{
    if n > 1 {
        walk_is_prefix(steps, visited, (n - 1) as nat);
        assert(follows(steps, visited[n - 2], visited[n - 2 + 1]));
    }
}

/// A failure is reported with all that is known of it: the cause as it is, or behind
/// the text that says what failed, or by that text alone where the cause is kept
/// beside it.
pub proof fn reports_say_all(report: Report, cause: &str, message: String)
    requires
        call_ensures(Report::message, (report, cause), message),
    ensures
        report is Plain ==> message@ == cause@,
        report matches Report::Prefixed(what) ==> message@ == what@ + ": "@ + cause@,
        report matches Report::Context(what) ==> message@ == what@,
{
}

} // verus!
