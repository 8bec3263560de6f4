use vstd::prelude::*;
use crate::text::{ends_with, occurs_at, owned};
use crate::util::shell::{DirChange, DirPlan, ShellPlan};

verus! {

/// Create a new Zellij tab with a workspace layout
pub struct TabCmd {
    /// Workspace type
    pub tab_type: String,
    /// Target directories
    pub targets: Vec<String>,
}

/// The tabs to open, one after the other, and the script that returns to
/// the tab the command was started from.
#[derive(Debug)]
pub struct TabPlan {
    pub tabs: Vec<DirPlan>,
    /// Run once every tab is open; a failure of it is not reported.
    pub switch_back: Option<String>,
}

/// The script that opens a tab with the layout `tab_type`, named after the
/// working directory (`~` for the home directory).
pub open spec fn tab_script(tab_type: Seq<char>) -> Seq<char> {
    "zellij action new-tab --layout $HOME/.zero/tab/"@ + tab_type
        + ".kdl --name \"$( [ \"$PWD\" = \"$HOME\" ] && echo \"~\" || basename \"$PWD\" )\""@
}

pub open spec fn option_view(o: Option<&str>) -> Option<Seq<char>> {
    match o {
        Some(s) => Some(s@),
        None => None,
    }
}

/// `p` opens a tab with the layout `tab_type`, inside `target` where one is
/// given.
pub open spec fn is_tab_plan(p: DirPlan, tab_type: Seq<char>, target: Option<Seq<char>>) -> bool {
    &&& p.shell.script@ == tab_script(tab_type)
    &&& p.shell.context@ == "Failed to launch tab"@
    &&& match target {
        None => p.dir is None,
        Some(t) => p.dir matches Some(d) && d.target@ == t && d.recall_failure@
            == "Failed to recall working directory"@ && d.change_failure@
            == "Failed to change to target directory '"@ + t + "'"@,
    }
}

/// The context under which a failure to enter `target` is reported.
pub fn change_failure(target: &str) -> (r: String)
    ensures
        r@ == "Failed to change to target directory '"@ + target@ + "'"@,
{
    let mut r = owned("Failed to change to target directory '");
    r.append(target);
    r.append("'");
    r
}

/// Opens a tab with the layout `tab_type`, inside `target` where one is given.
pub fn create_tab(tab_type: &str, target: Option<&str>) -> (r: DirPlan)
    ensures
        is_tab_plan(r, tab_type@, option_view(target)),
{
    let mut cmd = owned("zellij action new-tab --layout $HOME/.zero/tab/");
    cmd.append(tab_type);
    cmd.append(".kdl --name \"$( [ \"$PWD\" = \"$HOME\" ] && echo \"~\" || basename \"$PWD\" )\"");
    let shell = ShellPlan::new(cmd, "Failed to launch tab");
    match target {
        None => DirPlan { dir: None, shell },
        Some(target_dir) => DirPlan {
            dir: Some(
                DirChange {
                    target: owned(target_dir),
                    recall_failure: owned("Failed to recall working directory"),
                    change_failure: change_failure(target_dir),
                },
            ),
            shell,
        },
    }
}

impl TabCmd {
    /// The tabs this command opens: one where it stands when no target is
    /// given, else one in each target in turn, followed, where the pane the
    /// command runs in is known, by a return to that pane's tab.
    pub fn run(self, origin_pane: Option<String>) -> (r: TabPlan)
        ensures
            self.targets@.len() == 0 ==> {
                &&& r.tabs@.len() == 1
                &&& is_tab_plan(r.tabs@[0], self.tab_type@, None)
                &&& r.switch_back is None
            },
            self.targets@.len() > 0 ==> {
                &&& r.tabs@.len() == self.targets@.len()
                &&& forall|i: int|
                    0 <= i < r.tabs@.len() ==> is_tab_plan(
                        #[trigger] r.tabs@[i],
                        self.tab_type@,
                        Some(self.targets@[i]@),
                    )
                &&& r.switch_back is Some <==> origin_pane is Some
                &&& r.switch_back matches Some(s) ==> s@ == "zellij action go-to-tab "@
                    + origin_pane.unwrap()@
            },
    {
        let tab_type = self.tab_type.as_str();
        if self.targets.len() == 0 {
            let tabs = vec![create_tab(tab_type, None)];
            return TabPlan { tabs, switch_back: None };
        }
        let mut tabs: Vec<DirPlan> = Vec::new();
        let mut i: usize = 0;
        while i < self.targets.len()
            invariant
                i <= self.targets@.len(),
                tabs@.len() == i,
                tab_type@ == self.tab_type@,
                forall|j: int|
                    0 <= j < i ==> is_tab_plan(
                        #[trigger] tabs@[j],
                        self.tab_type@,
                        Some(self.targets@[j]@),
                    ),
            decreases self.targets@.len() - i,
        {
            tabs.push(create_tab(tab_type, Some(self.targets[i].as_str())));
            i = i + 1;
        }
        let switch_back = match origin_pane {
            Some(tab_id) => {
                let mut s = owned("zellij action go-to-tab ");
                s.append(tab_id.as_str());
                Some(s)
            },
            None => None,
        };
        TabPlan { tabs, switch_back }
    }
}

/// The tab type stands verbatim in the layout path of the tab's script,
/// between `$HOME/.zero/tab/` and `.kdl`, and the tab is named after the
/// working directory; the script runs in the target exactly when one is
/// given.
pub proof fn lemma_tab_plan_layout_path(p: DirPlan, tab_type: Seq<char>, target: Option<Seq<char>>)
    requires
        is_tab_plan(p, tab_type, target),
    ensures
        occurs_at(p.shell.script@, "zellij action new-tab --layout $HOME/.zero/tab/"@, 0),
        occurs_at(p.shell.script@, tab_type, 47),
        occurs_at(p.shell.script@, ".kdl --name "@, 47 + tab_type.len() as int),
        ends_with(
            p.shell.script@,
            "\"$( [ \"$PWD\" = \"$HOME\" ] && echo \"~\" || basename \"$PWD\" )\""@,
        ),
        p.shell.script@.len() == 47 + tab_type.len() + 70,
        p.dir is None <==> target is None,
{
    let s = p.shell.script@;
    let a = "zellij action new-tab --layout $HOME/.zero/tab/"@;
    let b = ".kdl --name \"$( [ \"$PWD\" = \"$HOME\" ] && echo \"~\" || basename \"$PWD\" )\""@;
    let c = ".kdl --name "@;
    let d = "\"$( [ \"$PWD\" = \"$HOME\" ] && echo \"~\" || basename \"$PWD\" )\""@;
    reveal_strlit("zellij action new-tab --layout $HOME/.zero/tab/");
    reveal_strlit(".kdl --name \"$( [ \"$PWD\" = \"$HOME\" ] && echo \"~\" || basename \"$PWD\" )\"");
    reveal_strlit(".kdl --name ");
    reveal_strlit("\"$( [ \"$PWD\" = \"$HOME\" ] && echo \"~\" || basename \"$PWD\" )\"");
    assert(a.len() == 47 && b.len() == 70 && c.len() == 12 && d.len() == 58);
    let n: int = tab_type.len() as int;
    assert(s =~= a + tab_type + b);
    assert(s.subrange(0, 47) =~= a);
    assert(s.subrange(47, 47 + n) =~= tab_type);
    assert(b.subrange(0, 12) =~= c);
    assert(s.subrange(47 + n, 59 + n) =~= c);
    assert(b.subrange(12, 70) =~= d);
    assert(s.subrange(59 + n, 117 + n) =~= d);
}

/// Tabs of different types open different layouts: the same script means
/// the same tab type.
pub proof fn lemma_tab_type_determines_script(
    p: DirPlan,
    a: Seq<char>,
    x: Option<Seq<char>>,
    q: DirPlan,
    b: Seq<char>,
    y: Option<Seq<char>>,
)
    requires
        is_tab_plan(p, a, x),
        is_tab_plan(q, b, y),
        p.shell.script@ == q.shell.script@,
    ensures
        a == b,
{
    lemma_tab_plan_layout_path(p, a, x);
    lemma_tab_plan_layout_path(q, b, y);
    assert(a =~= p.shell.script@.subrange(47, 47 + a.len() as int));
}

} // verus!
