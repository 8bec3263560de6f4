use vstd::prelude::*;
use crate::text::{ends_with, occurs_at, owned};
use crate::util::shell::{DirChange, DirPlan, ShellPlan};
use crate::cmds::tab::change_failure;

verus! {

/// Launch a new Zellij session with a custom layout
pub struct LaunchCmd {
    /// The .kdl layout file to launch (required)
    pub layout: String,
    /// If set, cd into this path before launching (and return afterward)
    pub target: Option<String>,
}

/// The keystrokes, typed into the current pane, that start a session with
/// the layout `layout`.
pub open spec fn session_launch(layout: Seq<char>) -> Seq<char> {
    "zellij action write-chars \"zellij --new-session-with-layout $HOME/.zero/launch/"@ + layout
        + "\"; zellij action write 13"@
}

/// The script that opens a launch tab named after the working directory.
pub open spec fn launch_tab_script() -> Seq<char> {
    "zellij action new-tab --layout $HOME/.zero/layouts/launch.kdl --name \"$( [ \"$PWD\" = \"$HOME\" ] && echo \"~\" || basename \"$PWD\" )\""@
}

impl LaunchCmd {
    /// Without a target: types the session launch into the current pane.
    /// With one: inside the target, opens a launch tab and types it there.
    pub fn run(self) -> (r: DirPlan)
        ensures
            self.target is None ==> {
                &&& r.dir is None
                &&& r.shell.script@ == session_launch(self.layout@)
                &&& r.shell.context@ == "Failed to launch new Zellij session"@
            },
            self.target matches Some(t) ==> {
                &&& r.dir matches Some(d) && d.target@ == t@ && d.recall_failure@
                    == "Failed to recall original directory"@ && d.change_failure@
                    == "Failed to change to target directory '"@ + t@ + "'"@
                &&& r.shell.script@ == launch_tab_script() + "; "@ + session_launch(self.layout@)
                &&& r.shell.context@ == "Failed to launch new Zellij session with target"@
            },
    {
        let mut shell_launch = owned(
            "zellij action write-chars \"zellij --new-session-with-layout $HOME/.zero/launch/",
        );
        shell_launch.append(self.layout.as_str());
        shell_launch.append("\"; zellij action write 13");
        match &self.target {
            None => DirPlan {
                dir: None,
                shell: ShellPlan::new(shell_launch, "Failed to launch new Zellij session"),
            },
            Some(target) => {
                let mut full_cmd = owned(
                    "zellij action new-tab --layout $HOME/.zero/layouts/launch.kdl --name \"$( [ \"$PWD\" = \"$HOME\" ] && echo \"~\" || basename \"$PWD\" )\"",
                );
                full_cmd.append("; ");
                full_cmd.append(shell_launch.as_str());
                DirPlan {
                    dir: Some(
                        DirChange {
                            target: target.clone(),
                            recall_failure: owned("Failed to recall original directory"),
                            change_failure: change_failure(target.as_str()),
                        },
                    ),
                    shell: ShellPlan::new(
                        full_cmd,
                        "Failed to launch new Zellij session with target",
                    ),
                }
            },
        }
    }
}

/// The layout file's name stands verbatim in the keystrokes, after
/// `$HOME/.zero/launch/`, and Enter (13) is sent after them.
pub proof fn lemma_session_launch_layout(layout: Seq<char>)
    ensures
        occurs_at(
            session_launch(layout),
            "zellij action write-chars \"zellij --new-session-with-layout $HOME/.zero/launch/"@,
            0,
        ),
        occurs_at(session_launch(layout), layout, 79),
        ends_with(session_launch(layout), "\"; zellij action write 13"@),
        session_launch(layout).len() == 79 + layout.len() + 25,
{
    let a = "zellij action write-chars \"zellij --new-session-with-layout $HOME/.zero/launch/"@;
    let b = "\"; zellij action write 13"@;
    reveal_strlit("zellij action write-chars \"zellij --new-session-with-layout $HOME/.zero/launch/");
    reveal_strlit("\"; zellij action write 13");
    assert(a.len() == 79 && b.len() == 25);
    let s = session_launch(layout);
    let n: int = layout.len() as int;
    assert(s.subrange(0, 79) =~= a);
    assert(s.subrange(79, 79 + n) =~= layout);
    assert(s.subrange(79 + n, 104 + n) =~= b);
}

} // verus!
