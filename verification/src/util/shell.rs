use vstd::prelude::*;

verus! {

/// A shell script to run with `sh -c`, and the context that a failure of it
/// is reported under (the report reads `<context>: <cause>`).
#[derive(Debug)]
pub struct ShellPlan {
    pub script: String,
    pub context: String,
}

impl ShellPlan {
    /// The script and the failure context, as text.
    pub open spec fn view(&self) -> (Seq<char>, Seq<char>) {
        (self.script@, self.context@)
    }

    /// A plan from a script and a failure context.
    pub fn new(script: String, context: &str) -> (r: ShellPlan)
        ensures
            r.script@ == script@,
            r.context@ == context@,
    {
        ShellPlan { script, context: String::from_str(context) }
    }
}

/// A working directory to move into for the length of one script, with the
/// contexts under which the two ways of failing to do so are reported.
#[derive(Debug)]
pub struct DirChange {
    /// The directory to enter.
    pub target: String,
    /// Reported when the current directory cannot be read.
    pub recall_failure: String,
    /// Reported when `target` cannot be entered.
    pub change_failure: String,
}

/// A script that runs either where the process stands or, when `dir` is
/// given, inside `dir.target`; the directory is restored afterwards.
#[derive(Debug)]
pub struct DirPlan {
    pub dir: Option<DirChange>,
    pub shell: ShellPlan,
}

} // verus!
