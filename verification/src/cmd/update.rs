use vstd::prelude::*;
use crate::text::owned;
use crate::util::shell::ShellPlan;

verus! {

pub struct UpdateCmd;

impl UpdateCmd {
    /// The script that this command runs, with its failure context.
    pub fn run() -> (r: ShellPlan)
        ensures
            r.script@ == "zellij action new-tab --layout ~/.zero/launch/update.kdl"@,
            r.context@ == "Failed to run update layout"@,
    {
        ShellPlan::new(owned("zellij action new-tab --layout ~/.zero/launch/update.kdl"), "Failed to run update layout")
    }
}

} // verus!
