//! How the guest ended, as the parent learns it from its wait.

use vstd::prelude::*;
use crate::text::{decimal, decimal_text};

verus! {

/// What a wait for the guest brought back.
#[derive(Debug, Clone, PartialEq, Eq)]
pub enum Termination {
    /// The guest exited with a status.
    Exited { pid: i32, status: i32 },
    /// The guest was killed by the signal that is named.
    Signaled { pid: i32, signal: String },
    /// The guest was stopped by the signal that is named.
    Stopped { pid: i32, signal: String },
    /// The guest was continued.
    Continued { pid: i32 },
    /// The guest has not changed its state.
    StillAlive,
    /// The wait brought back something else.
    Unhandled,
    /// The wait itself failed, for the reason given.
    Failed { reason: String },
}

/// The line that tells how the guest ended.
pub open spec fn report_text(t: Termination) -> Seq<char> {
    match t {
        Termination::Exited { pid, status } => "Child process (pid "@ + decimal(pid as int)
            + ") EXITED with status: "@ + decimal(status as int),
        Termination::Signaled { pid, signal } => "Child process (pid "@ + decimal(pid as int)
            + ") SIGNALED with signal: "@ + signal@,
        Termination::Stopped { pid, signal } => "Child process (pid "@ + decimal(pid as int)
            + ") STOPPED with signal: "@ + signal@,
        Termination::Continued { pid } => "Child process (pid "@ + decimal(pid as int)
            + ") CONTINUED."@,
        Termination::StillAlive => "Child process process is still alive"@,
        Termination::Unhandled => "Unhandled waitpid result, skipping"@,
        Termination::Failed { reason } => "Failed to waitpid: "@ + reason@,
    }
}

/// The status that the runtime itself ends with: the guest's own status where
/// the guest exited, and 1 for every other end.
pub open spec fn exit_status(t: Termination) -> i32 {
    match t {
        Termination::Exited { pid, status } => status,
        _ => 1,
    }
}

fn child_line(pid: i32, middle: &str, tail: &str) -> (line: String)
    ensures
        line@ == "Child process (pid "@ + decimal(pid as int) + middle@ + tail@,
{
    let mut line = String::from_str("Child process (pid ");
    line.append(decimal_text(pid as i64).as_str());
    line.append(middle);
    line.append(tail);
    line
}

impl Termination {
    /// The line that tells how the guest ended.
    pub fn report(&self) -> (line: String)
        ensures
            line@ == report_text(*self),
    {
        match self {
            Termination::Exited { pid, status } => child_line(
                *pid,
                ") EXITED with status: ",
                decimal_text(*status as i64).as_str(),
            ),
            Termination::Signaled { pid, signal } => child_line(
                *pid,
                ") SIGNALED with signal: ",
                signal.as_str(),
            ),
            Termination::Stopped { pid, signal } => child_line(
                *pid,
                ") STOPPED with signal: ",
                signal.as_str(),
            ),
            Termination::Continued { pid } => {
                proof {
                    reveal_strlit("");
                }
                let line = child_line(*pid, ") CONTINUED.", "");
                assert(line@ =~= report_text(*self));
                line
            },
            Termination::StillAlive => String::from_str("Child process process is still alive"),
            Termination::Unhandled => String::from_str("Unhandled waitpid result, skipping"),
            Termination::Failed { reason } => crate::text::conjoin(
                "Failed to waitpid: ",
                reason.as_str(),
            ),
        }
    }

    /// The status that the runtime itself ends with. It is 0 exactly when the
    /// guest exited with status 0.
    pub fn exit_code(&self) -> (code: i32)
        ensures
            code == exit_status(*self),
            code == 0 <==> (*self matches Termination::Exited { status, .. } && status == 0),
    {
        match self {
            Termination::Exited { pid: _, status } => *status,
            _ => 1,
        }
    }
}

} // verus!
