use vstd::prelude::*;
use crate::text::owned;
use crate::util::shell::ShellPlan;

verus! {

pub struct MonitorCmd;

impl MonitorCmd {
    /// The script that this command runs, with its failure context.
    pub fn run() -> (r: ShellPlan)
        ensures
            r.script@ == "zellij action new-tab --layout $HOME/.zero/monitor/monitor.kdl --name \"$( [ \"$PWD\" = \"$HOME\" ] && echo \"~\" || basename \"$PWD\" )\""@,
            r.context@ == "Failed to launch monitor tab"@,
    {
        ShellPlan::new(owned("zellij action new-tab --layout $HOME/.zero/monitor/monitor.kdl --name \"$( [ \"$PWD\" = \"$HOME\" ] && echo \"~\" || basename \"$PWD\" )\""), "Failed to launch monitor tab")
    }
}

} // verus!
