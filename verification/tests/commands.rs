use zero::cmd::clean::CleanCmd;
use zero::cmd::launch::{devel_layout, session_args, write_devel_tab};
use zero::cmd::list::ListCmd;
use zero::cmd::monitor::MonitorCmd;
use zero::cmd::name::NameCmd;
use zero::cmd::stack::StackCmd;
use zero::cmd::update::UpdateCmd;
use zero::cmds::kill::KillCmd;
use zero::cmds::launch::LaunchCmd;
use zero::cmds::tab::{change_failure, create_tab, TabCmd};

const TAB_NAME: &str = "\"$( [ \"$PWD\" = \"$HOME\" ] && echo \"~\" || basename \"$PWD\" )\"";

const TAB_BODY: &str = "        pane split_direction=\"vertical\" {\n            pane command=\"hx\" {\n            }\n            pane {\n            }\n        }\n    }\n";

#[test]
fn clean_script() {
    let p = CleanCmd::run();
    assert_eq!(p.script, "zellij delete-all-sessions --yes");
    assert_eq!(p.context, "Failed to clean Zellij sessions");
}

#[test]
fn list_script() {
    let p = ListCmd::run();
    assert_eq!(p.script, "zellij list-sessions");
    assert_eq!(p.context, "Failed to list Zellij sessions");
}

#[test]
fn monitor_script() {
    let p = MonitorCmd::run();
    assert_eq!(
        p.script,
        format!("zellij action new-tab --layout $HOME/.zero/monitor/monitor.kdl --name {}", TAB_NAME)
    );
    assert_eq!(p.context, "Failed to launch monitor tab");
}

#[test]
fn name_script() {
    let p = NameCmd::run();
    assert_eq!(p.script, format!("zellij action rename-tab {}", TAB_NAME));
    assert_eq!(p.context, "Failed to rename Zellij tab");
}

#[test]
fn stack_script() {
    let p = StackCmd::run();
    assert_eq!(p.script, "zellij action new-pane --stacked --name stack");
    assert_eq!(p.context, "Failed to stack pane");
}

#[test]
fn update_script() {
    let p = UpdateCmd::run();
    assert_eq!(p.script, "zellij action new-tab --layout ~/.zero/launch/update.kdl");
    assert_eq!(p.context, "Failed to run update layout");
}

#[test]
fn kill_script() {
    let p = KillCmd::run();
    assert_eq!(
        p.script,
        "zellij kill-session \"$(zellij list-sessions | grep '(current)' | sed 's/\\x1b\\[[0-9;]*m//g' | awk '{print $1}')\""
    );
    assert_eq!(p.context, "Failed to kill current Zellij session");
}

fn tab_script(kind: &str) -> String {
    format!("zellij action new-tab --layout $HOME/.zero/tab/{}.kdl --name {}", kind, TAB_NAME)
}

#[test]
fn create_tab_here() {
    let p = create_tab("explore", None);
    assert!(p.dir.is_none());
    assert_eq!(p.shell.script, tab_script("explore"));
    assert_eq!(p.shell.context, "Failed to launch tab");
}

#[test]
fn create_tab_in_a_directory() {
    let p = create_tab("repl", Some("/work/a"));
    let d = p.dir.unwrap();
    assert_eq!(d.target, "/work/a");
    assert_eq!(d.recall_failure, "Failed to recall working directory");
    assert_eq!(d.change_failure, "Failed to change to target directory '/work/a'");
    assert_eq!(p.shell.script, tab_script("repl"));
}

#[test]
fn change_failure_quotes_the_target() {
    assert_eq!(change_failure("x y"), "Failed to change to target directory 'x y'");
}

#[test]
fn tab_without_targets_opens_one_tab_here() {
    let cmd = TabCmd { tab_type: "devel".to_string(), targets: vec![] };
    let plan = cmd.run(Some("7".to_string()));
    assert_eq!(plan.tabs.len(), 1);
    assert!(plan.tabs[0].dir.is_none());
    assert_eq!(plan.tabs[0].shell.script, tab_script("devel"));
    assert!(plan.switch_back.is_none());
}

#[test]
fn tab_with_targets_returns_to_origin() {
    let cmd = TabCmd { tab_type: "tabs2".to_string(), targets: vec!["a".to_string(), "b".to_string()] };
    let plan = cmd.run(Some("7".to_string()));
    assert_eq!(plan.tabs.len(), 2);
    assert_eq!(plan.tabs[0].dir.as_ref().unwrap().target, "a");
    assert_eq!(plan.tabs[1].dir.as_ref().unwrap().target, "b");
    assert_eq!(plan.tabs[1].shell.script, tab_script("tabs2"));
    assert_eq!(plan.switch_back.unwrap(), "zellij action go-to-tab 7");
}

#[test]
fn tab_with_targets_without_origin() {
    let cmd = TabCmd { tab_type: "tab".to_string(), targets: vec!["a".to_string()] };
    let plan = cmd.run(None);
    assert_eq!(plan.tabs.len(), 1);
    assert_eq!(plan.tabs[0].dir.as_ref().unwrap().target, "a");
    assert!(plan.switch_back.is_none());
}

const SESSION_LAUNCH: &str = "zellij action write-chars \"zellij --new-session-with-layout $HOME/.zero/launch/work.kdl\"; zellij action write 13";

#[test]
fn launch_layout_here() {
    let p = LaunchCmd { layout: "work.kdl".to_string(), target: None }.run();
    assert!(p.dir.is_none());
    assert_eq!(p.shell.script, SESSION_LAUNCH);
    assert_eq!(p.shell.context, "Failed to launch new Zellij session");
}

#[test]
fn launch_layout_in_target() {
    let p = LaunchCmd { layout: "work.kdl".to_string(), target: Some("/tmp/p".to_string()) }.run();
    let d = p.dir.unwrap();
    assert_eq!(d.target, "/tmp/p");
    assert_eq!(d.recall_failure, "Failed to recall original directory");
    assert_eq!(d.change_failure, "Failed to change to target directory '/tmp/p'");
    assert_eq!(
        p.shell.script,
        format!(
            "zellij action new-tab --layout $HOME/.zero/layouts/launch.kdl --name {}; {}",
            TAB_NAME, SESSION_LAUNCH
        )
    );
    assert_eq!(p.shell.context, "Failed to launch new Zellij session with target");
}

#[test]
fn write_devel_tab_appends_one_tab() {
    let mut kdl = "start\n".to_string();
    write_devel_tab(&mut kdl, "api", "/src/api");
    assert_eq!(
        kdl,
        "start\n    tab name=\"api\" cwd=\"/src/api\" {\n        pane split_direction=\"vertical\" {\n            pane command=\"hx\" {\n            }\n            pane {\n            }\n        }\n    }\n"
    );
}

#[test]
fn devel_layout_root_only() {
    let kdl = devel_layout("proj", "/home/u/proj", &vec![]);
    assert_eq!(kdl, format!("layout {{\n    tab name=\"proj\" cwd=\"/home/u/proj\" {{\n{}}}\n", TAB_BODY));
}

#[test]
fn devel_layout_with_subdirs() {
    let subdirs = vec![
        ("api".to_string(), "/home/u/proj/api".to_string()),
        ("web".to_string(), "/home/u/proj/web".to_string()),
    ];
    let kdl = devel_layout("proj", "/home/u/proj", &subdirs);
    let expected = format!(
        "layout {{\n    tab name=\"proj\" cwd=\"/home/u/proj\" {{\n{b}    tab name=\"api\" cwd=\"/home/u/proj/api\" {{\n{b}    tab name=\"web\" cwd=\"/home/u/proj/web\" {{\n{b}}}\n",
        b = TAB_BODY
    );
    assert_eq!(kdl, expected);
}

#[test]
fn session_args_order() {
    assert_eq!(
        session_args("/tmp/zero_launch_x.kdl", "proj"),
        vec!["--new-session-with-layout", "/tmp/zero_launch_x.kdl", "--session", "proj"]
    );
}
