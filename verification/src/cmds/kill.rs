use vstd::prelude::*;
use crate::text::owned;
use crate::util::shell::ShellPlan;

verus! {

pub struct KillCmd;

impl KillCmd {
    /// The script that kills the session marked `(current)` in the list of
    /// sessions, with its failure context.
    pub fn run() -> (r: ShellPlan)
        ensures
            r.script@
                == "zellij kill-session \"$(zellij list-sessions | grep '(current)' | sed 's/\\x1b\\[[0-9;]*m//g' | awk '{print $1}')\""@,
            r.context@ == "Failed to kill current Zellij session"@,
    {
        ShellPlan::new(
            owned(
                "zellij kill-session \"$(zellij list-sessions | grep '(current)' | sed 's/\\x1b\\[[0-9;]*m//g' | awk '{print $1}')\"",
            ),
            "Failed to kill current Zellij session",
        )
    }
}

} // verus!
