use zero::cmds::float::{
    layout_preset, override_val, resolve_layout, run_bat, run_editor, run_eza, run_helix,
    run_lazygit, run_mdcat, run_micro, run_resize, run_watch, run_yazi, valid_layouts, FloatCmd,
    FloatError, FloatFlags, FloatSubArgs, FloatSubcommands, Geometry, ZellijFloat,
};

fn flags(h: &str, w: &str, x: &str, y: &str) -> FloatFlags {
    FloatFlags { height: h.to_string(), width: w.to_string(), x: x.to_string(), y: y.to_string() }
}

fn default_flags() -> FloatFlags {
    flags("100%", "95%", "10", "0")
}

fn sub(args: &[&str]) -> FloatSubArgs {
    FloatSubArgs { args: args.iter().map(|s| s.to_string()).collect() }
}

fn dims(g: &Geometry) -> (String, String, String, String) {
    (g.height.clone(), g.width.clone(), g.x.clone(), g.y.clone())
}

fn tuple(h: &str, w: &str, x: &str, y: &str) -> (String, String, String, String) {
    (h.to_string(), w.to_string(), x.to_string(), y.to_string())
}

const LAYOUT_LIST: &str = "[\"full\", \"half-left\", \"half-right\", \"top-left\", \"bottom-left\", \"top-right\", \"bottom-right\", \"default\"]";

#[test]
fn override_val_prefers_a_set_flag() {
    assert_eq!(override_val("50%", "80%", "100%"), "80%");
    assert_eq!(override_val("", "80%", "100%"), "80%");
    assert_eq!(override_val("100%", "80%", "100%"), "80%");
}

#[test]
fn override_val_takes_the_preset_under_a_default_flag() {
    assert_eq!(override_val("95%", "100%", "100%"), "95%");
    assert_eq!(override_val("50%", "100%", "100%"), "50%");
}

#[test]
fn override_val_falls_back() {
    assert_eq!(override_val("100%", "100%", "100%"), "100%");
    assert_eq!(override_val("", "100%", "100%"), "100%");
}

#[test]
fn override_val_keeps_an_empty_flag_that_differs() {
    assert_eq!(override_val("", "", "100%"), "");
}

#[test]
fn presets_hold_their_geometries() {
    let expected = [
        ("full", tuple("100%", "100%", "0", "0")),
        ("half-left", tuple("50%", "100%", "0", "0")),
        ("half-right", tuple("50%", "100%", "50%", "0")),
        ("top-left", tuple("50%", "50%", "0", "0")),
        ("bottom-left", tuple("50%", "53%", "0", "52%")),
        ("top-right", tuple("50%", "50%", "50%", "0")),
        ("bottom-right", tuple("50%", "53%", "50%", "52%")),
        ("default", tuple("95%", "100%", "10", "0")),
    ];
    for (name, g) in expected {
        assert_eq!(dims(&layout_preset(name).unwrap()), g, "{}", name);
    }
}

#[test]
fn unknown_preset_is_none() {
    assert!(layout_preset("middle").is_none());
    assert!(layout_preset("").is_none());
    assert!(layout_preset("Full").is_none());
    assert!(layout_preset("full ").is_none());
}

#[test]
fn valid_layouts_lists_every_preset() {
    let names = valid_layouts();
    assert_eq!(
        names,
        vec!["full", "half-left", "half-right", "top-left", "bottom-left", "top-right", "bottom-right", "default"]
    );
    for n in names {
        assert!(layout_preset(n).is_some());
    }
}

#[test]
fn override_with_lays_flags_over_preset() {
    let g = layout_preset("default").unwrap().override_with(&flags("80%", "70%", "5", "3"));
    assert_eq!(dims(&g), tuple("80%", "70%", "5", "3"));
    let g = layout_preset("full").unwrap().override_with(&flags("80%", "95%", "10", "3"));
    assert_eq!(dims(&g), tuple("80%", "100%", "0", "3"));
}

#[test]
fn resolve_layout_known() {
    let g = resolve_layout("bottom-right", &default_flags()).unwrap();
    assert_eq!(dims(&g), tuple("50%", "53%", "50%", "52%"));
}

#[test]
fn resolve_layout_unknown() {
    match resolve_layout("huge", &default_flags()) {
        Err(FloatError::UnknownLayout { name }) => assert_eq!(name, "huge"),
        other => panic!("unexpected {:?}", other),
    }
}

#[test]
fn unknown_layout_message_lists_the_presets() {
    let e = FloatError::UnknownLayout { name: "huge".to_string() };
    assert_eq!(e.message(), format!("Unknown layout 'huge' (must be one of: {})", LAYOUT_LIST));
}

#[test]
fn missing_file_message() {
    assert_eq!(FloatError::MissingFile.message(), "mdcat command requires a file argument");
}

#[test]
fn build_cmd_default_geometry() {
    let cmd = ZellijFloat::new("yazi", "yazi").with_close_on_exit().build_cmd(&default_flags());
    assert_eq!(
        cmd,
        "zellij run --floating --name yazi --close-on-exit --height 95% --width 100% --x 10 --y 0 -- yazi"
    );
}

#[test]
fn build_cmd_plain_pane() {
    let cmd = ZellijFloat::new("p", "top").build_cmd(&flags("1", "2", "3", "4"));
    assert_eq!(cmd, "zellij run --floating --name p --height 1 --width 2 --x 3 --y 4 -- top");
}

#[test]
fn build_cmd_pinned_with_geometry_and_args() {
    let geom = Geometry {
        height: "40%".to_string(),
        width: "30%".to_string(),
        x: "1".to_string(),
        y: "2".to_string(),
    };
    let cmd = ZellijFloat::new("n", "prog")
        .with_geometry(geom)
        .with_pinned()
        .with_close_on_exit()
        .with_args(vec!["-a".to_string(), "b c".to_string()])
        .build_cmd(&flags("9", "9", "9", "9"));
    assert_eq!(
        cmd,
        "zellij run --floating --name n --pinned true --close-on-exit --height 40% --width 30% --x 1 --y 2 -- prog -a b c"
    );
}

#[test]
fn build_cmd_with_one_empty_argument_keeps_the_space() {
    let cmd = ZellijFloat::new("n", "prog").with_args(vec![String::new()]).build_cmd(&default_flags());
    assert_eq!(cmd, "zellij run --floating --name n --height 95% --width 100% --x 10 --y 0 -- prog ");
}

#[test]
fn bat_without_file() {
    let p = run_bat(&sub(&[]), &default_flags());
    assert_eq!(
        p.script,
        "zellij run --floating --name bat --close-on-exit --height 95% --width 100% --x 10 --y 0 -- bat --paging=always"
    );
    assert_eq!(p.context, "Failed to launch bat");
}

#[test]
fn bat_takes_only_the_first_file() {
    let p = run_bat(&sub(&["file.rs", "other.rs"]), &default_flags());
    assert_eq!(
        p.script,
        "zellij run --floating --name bat --close-on-exit --height 95% --width 100% --x 10 --y 0 -- bat --paging=always file.rs"
    );
}

#[test]
fn eza_lists_a_directory() {
    let p = run_eza(&sub(&["src"]), &default_flags());
    assert_eq!(
        p.script,
        "zellij run --floating --name eza --height 95% --width 100% --x 10 --y 0 -- eza --header --long --icons --classify --git --group --color=always src"
    );
    assert_eq!(p.context, "Failed to launch eza");
}

#[test]
fn helix_opens_a_file() {
    let p = run_helix(&sub(&["main.rs"]), &default_flags());
    assert_eq!(
        p.script,
        "zellij run --floating --name helix --close-on-exit --height 95% --width 100% --x 10 --y 0 -- hx main.rs"
    );
    assert_eq!(p.context, "Failed to launch helix editor");
}

#[test]
fn micro_without_file() {
    let p = run_micro(&sub(&[]), &default_flags());
    assert_eq!(
        p.script,
        "zellij run --floating --name micro --close-on-exit --height 95% --width 100% --x 10 --y 0 -- micro"
    );
    assert_eq!(p.context, "Failed to launch micro editor");
}

#[test]
fn editor_with_own_program_and_name() {
    let p = run_editor(&sub(&["a", "b"]), &flags("1", "2", "3", "4"), "vim", "vi");
    assert_eq!(
        p.script,
        "zellij run --floating --name vi --close-on-exit --height 1 --width 2 --x 3 --y 4 -- vim a"
    );
    assert_eq!(p.context, "Failed to launch vi editor");
}

#[test]
fn lazygit_full_by_default() {
    let p = run_lazygit(&sub(&[]), &default_flags()).unwrap();
    assert_eq!(
        p.script,
        "zellij run --floating --name lazygit --pinned true --close-on-exit --height 100% --width 100% --x 0 --y 0 -- lazygit"
    );
    assert_eq!(p.context, "Failed to launch lazygit");
}

#[test]
fn lazygit_height_flag_over_full() {
    let p = run_lazygit(&sub(&[]), &flags("80%", "95%", "10", "0")).unwrap();
    assert_eq!(
        p.script,
        "zellij run --floating --name lazygit --pinned true --close-on-exit --height 80% --width 100% --x 0 --y 0 -- lazygit"
    );
}

#[test]
fn lazygit_named_layout() {
    let p = run_lazygit(&sub(&["half-right"]), &default_flags()).unwrap();
    assert_eq!(
        p.script,
        "zellij run --floating --name lazygit --pinned true --close-on-exit --height 50% --width 100% --x 50% --y 0 -- lazygit"
    );
}

#[test]
fn lazygit_unknown_layout() {
    let e = run_lazygit(&sub(&["left"]), &default_flags()).unwrap_err();
    assert_eq!(e.message(), format!("Unknown layout 'left' (must be one of: {})", LAYOUT_LIST));
}

#[test]
fn mdcat_needs_a_file() {
    let e = run_mdcat(&sub(&[]), &default_flags()).unwrap_err();
    assert!(matches!(e, FloatError::MissingFile));
}

#[test]
fn mdcat_pages_the_file() {
    let p = run_mdcat(&sub(&["README.md", "x"]), &default_flags()).unwrap();
    assert_eq!(
        p.script,
        "zellij run --floating --name canvas --close-on-exit --height 95% --width 100% --x 10 --y 0 -- mdcat --paginate README.md"
    );
    assert_eq!(p.context, "Failed to launch mdcat");
}

#[test]
fn resize_default() {
    let p = run_resize(&sub(&[]), &default_flags()).unwrap();
    assert_eq!(
        p.script,
        "zellij action rename-pane float\nzellij action change-floating-pane-coordinates --pane-id $ZELLIJ_PANE_ID --height 95% --width 100% --x 10 --y 0"
    );
    assert_eq!(p.context, "Failed to resize floating pane");
}

#[test]
fn resize_named_layout() {
    let p = run_resize(&sub(&["bottom-right"]), &default_flags()).unwrap();
    assert_eq!(
        p.script,
        "zellij action rename-pane float\nzellij action change-floating-pane-coordinates --pane-id $ZELLIJ_PANE_ID --height 50% --width 53% --x 50% --y 52%"
    );
}

#[test]
fn resize_unknown_layout() {
    match run_resize(&sub(&["tiny"]), &default_flags()) {
        Err(FloatError::UnknownLayout { name }) => assert_eq!(name, "tiny"),
        other => panic!("unexpected {:?}", other),
    }
}

#[test]
fn watch_runs_just_watch() {
    let p = run_watch(&sub(&["ignored"]), &default_flags());
    assert_eq!(
        p.script,
        "zellij run --floating --name watch --pinned true --close-on-exit --height 95% --width 100% --x 10 --y 0 -- just watch"
    );
    assert_eq!(p.context, "Failed to launch watch command");
}

#[test]
fn yazi_ignores_arguments() {
    let p = run_yazi(&sub(&["dir"]), &default_flags());
    assert_eq!(
        p.script,
        "zellij run --floating --name yazi --close-on-exit --height 95% --width 100% --x 10 --y 0 -- yazi"
    );
    assert_eq!(p.context, "Failed to launch yazi");
}

#[test]
fn float_default_opens_a_shell() {
    let p = FloatCmd::default().run().unwrap();
    assert_eq!(
        p.script,
        "zellij run --floating --name canvas --close-on-exit --height 95% --width 100% --x 10 --y 0 -- zsh"
    );
    assert_eq!(p.context, "Failed to launch floating shell");
}

#[test]
fn float_with_layout() {
    let mut cmd = FloatCmd::default();
    cmd.layout = Some("top-left".to_string());
    let p = cmd.run().unwrap();
    assert_eq!(
        p.script,
        "zellij run --floating --name canvas --close-on-exit --height 50% --width 50% --x 0 --y 0 -- zsh"
    );
}

#[test]
fn float_with_unknown_layout() {
    let mut cmd = FloatCmd::default();
    cmd.layout = Some("huge".to_string());
    match cmd.run() {
        Err(FloatError::UnknownLayout { name }) => assert_eq!(name, "huge"),
        other => panic!("unexpected {:?}", other),
    }
}

#[test]
fn float_flags_reach_the_default_layout() {
    let mut cmd = FloatCmd::default();
    cmd.x = "5".to_string();
    cmd.y = "3".to_string();
    let p = cmd.run().unwrap();
    assert_eq!(
        p.script,
        "zellij run --floating --name canvas --close-on-exit --height 95% --width 100% --x 5 --y 3 -- zsh"
    );
}

#[test]
fn float_subcommand_uses_parent_flags() {
    let mut cmd = FloatCmd::default();
    cmd.x = "7".to_string();
    cmd.subcommand = Some(FloatSubcommands::Yazi(sub(&[])));
    let p = cmd.run().unwrap();
    assert_eq!(
        p.script,
        "zellij run --floating --name yazi --close-on-exit --height 95% --width 100% --x 7 --y 0 -- yazi"
    );
}

#[test]
fn float_subcommand_error_passes_through() {
    let mut cmd = FloatCmd::default();
    cmd.subcommand = Some(FloatSubcommands::Mdcat(sub(&[])));
    assert!(matches!(cmd.run(), Err(FloatError::MissingFile)));
}

#[test]
fn subcommands_dispatch() {
    let parent = FloatCmd::default();
    let f = default_flags();
    let cases: Vec<(FloatSubcommands, String)> = vec![
        (FloatSubcommands::Bat(sub(&["a"])), run_bat(&sub(&["a"]), &f).script),
        (FloatSubcommands::Eza(sub(&["a"])), run_eza(&sub(&["a"]), &f).script),
        (FloatSubcommands::Helix(sub(&["a"])), run_helix(&sub(&["a"]), &f).script),
        (FloatSubcommands::Lazygit(sub(&[])), run_lazygit(&sub(&[]), &f).unwrap().script),
        (FloatSubcommands::Mdcat(sub(&["a"])), run_mdcat(&sub(&["a"]), &f).unwrap().script),
        (FloatSubcommands::Micro(sub(&["a"])), run_micro(&sub(&["a"]), &f).script),
        (FloatSubcommands::Resize(sub(&[])), run_resize(&sub(&[]), &f).unwrap().script),
        (FloatSubcommands::Watch(sub(&[])), run_watch(&sub(&[]), &f).script),
        (FloatSubcommands::Yazi(sub(&[])), run_yazi(&sub(&[]), &f).script),
    ];
    for (s, expected) in cases {
        assert_eq!(s.run(&parent).unwrap().script, expected);
    }
}

#[test]
fn flags_copies_the_four_dimensions() {
    let mut cmd = FloatCmd::default();
    cmd.height = "1".to_string();
    cmd.width = "2".to_string();
    let f = cmd.flags();
    assert_eq!((f.height, f.width, f.x, f.y), tuple("1", "2", "10", "0"));
}

#[test]
fn float_default_fields() {
    let cmd = FloatCmd::default();
    assert_eq!((cmd.height, cmd.width, cmd.x, cmd.y), tuple("100%", "95%", "10", "0"));
    assert!(cmd.layout.is_none());
    assert!(cmd.subcommand.is_none());
}

#[test]
fn float_flags_from_command() {
    let mut cmd = FloatCmd::default();
    cmd.y = "4".to_string();
    let f = FloatFlags::from(&cmd);
    assert_eq!((f.height, f.width, f.x, f.y), tuple("100%", "95%", "10", "4"));
}

#[test]
fn float_height_and_width_flags_set_the_pane_size() {
    let mut cmd = FloatCmd::default();
    cmd.height = "40%".to_string();
    let p = cmd.clone().run().unwrap();
    assert_eq!(
        p.script,
        "zellij run --floating --name canvas --close-on-exit --height 40% --width 100% --x 10 --y 0 -- zsh"
    );
    cmd.width = "60%".to_string();
    let p = cmd.run().unwrap();
    assert!(p.script.contains(" --height 40% --width 60% "));
}

#[test]
fn float_flags_win_over_a_named_layout() {
    let mut cmd = FloatCmd::default();
    cmd.layout = Some("bottom-right".to_string());
    cmd.width = "70%".to_string();
    cmd.y = "1".to_string();
    let p = cmd.run().unwrap();
    assert_eq!(
        p.script,
        "zellij run --floating --name canvas --close-on-exit --height 50% --width 70% --x 50% --y 1 -- zsh"
    );
}

#[test]
fn default_layout_under_default_flags() {
    let p = FloatCmd::default().run().unwrap();
    assert!(p.script.contains(" --height 95% --width 100% --x 10 --y 0 "));
}

#[test]
fn tool_command_runs_like_its_float_subcommand() {
    let p = zero::cli::run_tool(FloatSubcommands::Bat(sub(&["f.txt"]))).unwrap();
    assert_eq!(p.script, run_bat(&sub(&["f.txt"]), &default_flags()).script);
    let p = zero::cli::run_tool(FloatSubcommands::Resize(sub(&["full"]))).unwrap();
    assert_eq!(
        p.script,
        "zellij action rename-pane float\nzellij action change-floating-pane-coordinates --pane-id $ZELLIJ_PANE_ID --height 100% --width 100% --x 0 --y 0"
    );
}
