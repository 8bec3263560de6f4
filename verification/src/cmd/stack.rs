use vstd::prelude::*;
use crate::text::owned;
use crate::util::shell::ShellPlan;

verus! {

pub struct StackCmd;

impl StackCmd {
    /// The script that this command runs, with its failure context.
    pub fn run() -> (r: ShellPlan)
        ensures
            r.script@ == "zellij action new-pane --stacked --name stack"@,
            r.context@ == "Failed to stack pane"@,
    {
        ShellPlan::new(owned("zellij action new-pane --stacked --name stack"), "Failed to stack pane")
    }
}

} // verus!
