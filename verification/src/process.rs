//! Running a command to completion with a time limit: what each look at the
//! child process means. The application spawns, waits and kills.
use vstd::prelude::*;

use crate::text::{decimal, push_decimal, push_str, to_string};

verus! {

/// Pause between two looks at a running child, in milliseconds.
pub const PROCESS_POLL_MILLIS: u64 = 100;

/// What to do after a look at the child.
pub enum WaitDecision {
    /// It has exited: collect its output.
    Collect,
    /// It is still running and there is time left: pause and look again.
    Pause,
    /// It ran out of time: kill it and fail with this message.
    TimedOut(String),
    /// It could not be waited for: fail with this message.
    Failed(String),
}

/// The decision after a look at the child: `poll` is whether it has exited,
/// or the error of the look; `expired` is whether the deadline has passed.
pub open spec fn wait_decision_spec(
    label: Seq<char>,
    timeout_secs: nat,
    poll: Result<bool, Seq<char>>,
    expired: bool,
) -> (nat, Seq<char>) {
    match poll {
        Ok(true) => (0, seq![]),
        Ok(false) => if !expired {
            (1, seq![])
        } else {
            (2, label + " did not finish within "@ + decimal(timeout_secs) + " seconds."@)
        },
        Err(e) => (3, "Failed to wait for "@ + label + ": "@ + e),
    }
}

/// A decision as its kind (collect, pause, time out, fail) and message.
pub open spec fn decision_view(d: WaitDecision) -> (nat, Seq<char>) {
    match d {
        WaitDecision::Collect => (0, seq![]),
        WaitDecision::Pause => (1, seq![]),
        WaitDecision::TimedOut(m) => (2, m@),
        WaitDecision::Failed(m) => (3, m@),
    }
}

/// What to do after a look at a child run under a time limit of
/// `timeout_secs` seconds; `label` names the tool in messages.
pub fn wait_decision(label: &str, timeout_secs: u64, poll: Result<bool, String>, expired: bool) -> (r:
    WaitDecision)
    ensures
        decision_view(r) == wait_decision_spec(
            label@,
            timeout_secs as nat,
            match poll {
                Ok(b) => Ok(b),
                Err(e) => Err(e@),
            },
            expired,
        ),
{
    match poll {
        Ok(true) => WaitDecision::Collect,
        Ok(false) => {
            if !expired {
                WaitDecision::Pause
            } else {
                let mut m = to_string(label);
                push_str(&mut m, " did not finish within ");
                push_decimal(&mut m, timeout_secs);
                push_str(&mut m, " seconds.");
                WaitDecision::TimedOut(m)
            }
        },
        Err(e) => {
            let mut m = to_string("Failed to wait for ");
            push_str(&mut m, label);
            push_str(&mut m, ": ");
            push_str(&mut m, e.as_str());
            WaitDecision::Failed(m)
        },
    }
}

/// The error when the command could not be started.
pub fn spawn_failure(label: &str, error: &str) -> (r: String)
    ensures
        r@ == "Failed to run "@ + label@ + ": "@ + error@,
{
    let mut m = to_string("Failed to run ");
    push_str(&mut m, label);
    push_str(&mut m, ": ");
    push_str(&mut m, error);
    m
}

/// The error when the output of the finished command could not be read.
pub fn read_failure(label: &str, error: &str) -> (r: String)
    ensures
        r@ == "Failed to read "@ + label@ + " output: "@ + error@,
{
    let mut m = to_string("Failed to read ");
    push_str(&mut m, label);
    push_str(&mut m, " output: ");
    push_str(&mut m, error);
    m
}

} // verus!
