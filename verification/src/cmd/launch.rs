use vstd::prelude::*;
use crate::text::{occurs_at, owned};

verus! {

/// Launch a new Zellij session with tabs for a root directory and its git‑controlled subdirectories.
pub struct LaunchCmd {
    /// Path whose subdirectories will each become a tab (the root itself also gets a tab).
    pub target: String,
}

/// The panes inside a development tab: an editor (Helix) on the left and a
/// shell on the right.
pub open spec fn devel_tab_body() -> Seq<char> {
    "        pane split_direction=\"vertical\" {\n            pane command=\"hx\" {\n            }\n            pane {\n            }\n        }\n    }\n"@
}

/// A development tab called `name` whose panes open in `cwd`.
pub open spec fn devel_tab(name: Seq<char>, cwd: Seq<char>) -> Seq<char> {
    "    tab name=\""@ + name + "\" cwd=\""@ + cwd + "\" {\n"@ + devel_tab_body()
}

/// One development tab for each (name, directory) pair, in order.
pub open spec fn devel_tabs(dirs: Seq<(Seq<char>, Seq<char>)>) -> Seq<char>
    decreases dirs.len(),
{
    if dirs.len() == 0 {
        Seq::empty()
    } else {
        devel_tabs(dirs.drop_last()) + devel_tab(dirs.last().0, dirs.last().1)
    }
}

pub open spec fn pair_views(dirs: Seq<(String, String)>) -> Seq<(Seq<char>, Seq<char>)> {
    dirs.map_values(|p: (String, String)| (p.0@, p.1@))
}

/// The layout of a session: a tab for the root, then one for each
/// subdirectory, in order.
pub open spec fn devel_layout_spec(
    session_name: Seq<char>,
    root: Seq<char>,
    subdirs: Seq<(Seq<char>, Seq<char>)>,
) -> Seq<char> {
    "layout {\n"@ + devel_tab(session_name, root) + devel_tabs(subdirs) + "}\n"@
}

/// Append a tab with an editor (Helix) and a canvas pane.
pub fn write_devel_tab(kdl: &mut String, name: &str, cwd: &str)
    ensures
        final(kdl)@ == old(kdl)@ + devel_tab(name@, cwd@),
{
    let ghost start = kdl@;
    kdl.append("    tab name=\"");
    kdl.append(name);
    kdl.append("\" cwd=\"");
    kdl.append(cwd);
    kdl.append("\" {\n");
    kdl.append(
        "        pane split_direction=\"vertical\" {\n            pane command=\"hx\" {\n            }\n            pane {\n            }\n        }\n    }\n",
    );
    assert(kdl@ =~= start + devel_tab(name@, cwd@));
}

/// The layout of a session called `session_name` rooted at `root`, with a
/// tab for each (name, path) of `subdirs`.
pub fn devel_layout(session_name: &str, root: &str, subdirs: &Vec<(String, String)>) -> (r: String)
    ensures
        r@ == devel_layout_spec(session_name@, root@, pair_views(subdirs@)),
{
    let ghost dirs = pair_views(subdirs@);
    let mut kdl = owned("layout {\n");
    write_devel_tab(&mut kdl, session_name, root);
    let ghost head = kdl@;
    let mut i: usize = 0;
    while i < subdirs.len()
        invariant
            i <= subdirs@.len(),
            dirs == pair_views(subdirs@),
            kdl@ == head + devel_tabs(dirs.take(i as int)),
        decreases subdirs@.len() - i,
    {
        let (name, path) = &subdirs[i];
        write_devel_tab(&mut kdl, name.as_str(), path.as_str());
        proof {
            assert(dirs.take(i + 1).drop_last() =~= dirs.take(i as int));
            assert(dirs.take(i + 1).last() == dirs[i as int]);
            assert(kdl@ =~= head + devel_tabs(dirs.take(i + 1)));
        }
        i = i + 1;
    }
    assert(dirs.take(subdirs@.len() as int) =~= dirs);
    kdl.append("}\n");
    kdl
}

/// The arguments with which `zellij` starts the session `session_name`
/// from the layout file at `layout_path`.
pub fn session_args(layout_path: &str, session_name: &str) -> (r: Vec<String>)
    ensures
        r@.len() == 4,
        r@[0]@ == "--new-session-with-layout"@,
        r@[1]@ == layout_path@,
        r@[2]@ == "--session"@,
        r@[3]@ == session_name@,
{
    vec![owned("--new-session-with-layout"), owned(layout_path), owned("--session"), owned(session_name)]
}


/// The tabs of two lists of directories, one after the other, are the tabs
/// of the two lists joined.
pub proof fn lemma_devel_tabs_concat(a: Seq<(Seq<char>, Seq<char>)>, b: Seq<(Seq<char>, Seq<char>)>)
    ensures
        devel_tabs(a + b) == devel_tabs(a) + devel_tabs(b),
    decreases b.len(),
{
    if b.len() == 0 {
        assert(a + b =~= a);
        assert(devel_tabs(a) + devel_tabs(b) =~= devel_tabs(a));
    } else {
        lemma_devel_tabs_concat(a, b.drop_last());
        assert((a + b).drop_last() =~= a + b.drop_last());
        assert((a + b).last() == b.last());
        assert(devel_tabs(a + b) =~= devel_tabs(a) + devel_tabs(b));
    }
}

/// Each subdirectory adds exactly one tab, at the end, before the closing
/// brace.
pub proof fn lemma_layout_one_more_dir(
    session_name: Seq<char>,
    root: Seq<char>,
    dirs: Seq<(Seq<char>, Seq<char>)>,
    name: Seq<char>,
    path: Seq<char>,
)
    ensures
        devel_layout_spec(session_name, root, dirs.push((name, path))) == "layout {\n"@ + devel_tab(
            session_name,
            root,
        ) + devel_tabs(dirs) + devel_tab(name, path) + "}\n"@,
{
    assert(dirs.push((name, path)).drop_last() =~= dirs);
}

/// A tab line carries the whole name and the whole directory, verbatim:
/// `    tab name="` (14 characters), the name, `" cwd="`, the directory and
/// `" {`, then the fixed panes.
pub proof fn lemma_devel_tab_verbatim(name: Seq<char>, cwd: Seq<char>)
    ensures
        occurs_at(devel_tab(name, cwd), "    tab name=\""@, 0),
        occurs_at(devel_tab(name, cwd), name, 14),
        occurs_at(devel_tab(name, cwd), "\" cwd=\""@, 14 + name.len() as int),
        occurs_at(devel_tab(name, cwd), cwd, 21 + name.len() as int),
        occurs_at(devel_tab(name, cwd), "\" {\n"@, 21 + name.len() as int + cwd.len() as int),
        devel_tab(name, cwd).len() == 25 + name.len() + cwd.len() + devel_tab_body().len(),
{
    reveal_strlit("    tab name=\"");
    reveal_strlit("\" cwd=\"");
    reveal_strlit("\" {\n");
    let t = devel_tab(name, cwd);
    let a = "    tab name=\""@;
    let b = "\" cwd=\""@;
    let c = "\" {\n"@;
    let n: int = name.len() as int;
    let m: int = cwd.len() as int;
    assert(a.len() == 14 && b.len() == 7 && c.len() == 4);
    assert(t.subrange(0, 14) =~= a);
    assert(t.subrange(14, 14 + n) =~= name);
    assert(t.subrange(14 + n, 21 + n) =~= b);
    assert(t.subrange(21 + n, 21 + n + m) =~= cwd);
    assert(t.subrange(21 + n + m, 25 + n + m) =~= c);
}

/// The layout holds the tab of every subdirectory, in place: the header and
/// root tab, the tabs of the earlier subdirectories, this one's tab, the tabs
/// of the later ones and the closing brace.
pub proof fn lemma_layout_holds_each_dir(
    session_name: Seq<char>,
    root: Seq<char>,
    dirs: Seq<(Seq<char>, Seq<char>)>,
    i: int,
)
    requires
        0 <= i < dirs.len(),
    ensures
        devel_layout_spec(session_name, root, dirs) == "layout {\n"@ + devel_tab(session_name, root)
            + devel_tabs(dirs.take(i)) + devel_tab(dirs[i].0, dirs[i].1) + devel_tabs(
            dirs.skip(i + 1),
        ) + "}\n"@,
{
    assert(dirs =~= dirs.take(i) + (seq![dirs[i]] + dirs.skip(i + 1)));
    lemma_devel_tabs_concat(dirs.take(i), seq![dirs[i]] + dirs.skip(i + 1));
    lemma_devel_tabs_concat(seq![dirs[i]], dirs.skip(i + 1));
    let one = seq![dirs[i]];
    assert(one.drop_last() =~= Seq::<(Seq<char>, Seq<char>)>::empty());
    assert(devel_tabs(one.drop_last()) == Seq::<char>::empty());
    assert(devel_tabs(one) =~= devel_tab(dirs[i].0, dirs[i].1));
}

} // verus!
