use vstd::prelude::*;
use crate::text::owned;
use crate::util::shell::ShellPlan;

verus! {

pub struct CleanCmd;

impl CleanCmd {
    /// The script that this command runs, with its failure context.
    pub fn run() -> (r: ShellPlan)
        ensures
            r.script@ == "zellij delete-all-sessions --yes"@,
            r.context@ == "Failed to clean Zellij sessions"@,
    {
        ShellPlan::new(owned("zellij delete-all-sessions --yes"), "Failed to clean Zellij sessions")
    }
}

} // verus!
