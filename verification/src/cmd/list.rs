use vstd::prelude::*;
use crate::text::owned;
use crate::util::shell::ShellPlan;

verus! {

pub struct ListCmd;

impl ListCmd {
    /// The script that this command runs, with its failure context.
    pub fn run() -> (r: ShellPlan)
        ensures
            r.script@ == "zellij list-sessions"@,
            r.context@ == "Failed to list Zellij sessions"@,
    {
        ShellPlan::new(owned("zellij list-sessions"), "Failed to list Zellij sessions")
    }
}

} // verus!
