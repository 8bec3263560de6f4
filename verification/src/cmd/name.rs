use vstd::prelude::*;
use crate::text::owned;
use crate::util::shell::ShellPlan;

verus! {

pub struct NameCmd;

impl NameCmd {
    /// The script that this command runs, with its failure context.
    pub fn run() -> (r: ShellPlan)
        ensures
            r.script@ == "zellij action rename-tab \"$( [ \"$PWD\" = \"$HOME\" ] && echo \"~\" || basename \"$PWD\" )\""@,
            r.context@ == "Failed to rename Zellij tab"@,
    {
        ShellPlan::new(owned("zellij action rename-tab \"$( [ \"$PWD\" = \"$HOME\" ] && echo \"~\" || basename \"$PWD\" )\""), "Failed to rename Zellij tab")
    }
}

} // verus!
