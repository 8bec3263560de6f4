use zero::cmd::launch::devel_layout;
use zero::cmds::float::{layout_preset, resolve_layout, valid_layouts, FloatFlags, Geometry, ZellijFloat};
use zero::text::{join_strings, str_eq};

fn flags(h: &str, w: &str, x: &str, y: &str) -> FloatFlags {
    FloatFlags { height: h.to_string(), width: w.to_string(), x: x.to_string(), y: y.to_string() }
}

fn dims(g: &Geometry) -> (String, String, String, String) {
    (g.height.clone(), g.width.clone(), g.x.clone(), g.y.clone())
}

#[test]
fn override_twice_is_override_once() {
    let f = flags("80%", "", "7", "0");
    for name in valid_layouts() {
        let once = layout_preset(name).unwrap().override_with(&f);
        let twice = once.override_with(&f);
        assert_eq!(dims(&once), dims(&twice), "{}", name);
    }
}

#[test]
fn default_flags_resolve_every_layout_to_its_preset() {
    let f = flags("100%", "95%", "10", "0");
    for name in valid_layouts() {
        let resolved = resolve_layout(name, &f).unwrap();
        assert_eq!(dims(&resolved), dims(&layout_preset(name).unwrap()), "{}", name);
    }
}

#[test]
fn resolve_fails_exactly_off_the_list() {
    for name in ["full", "default", "fulll", "", "DEFAULT", "top_left"] {
        let listed = valid_layouts().contains(&name);
        assert_eq!(resolve_layout(name, &flags("1", "2", "3", "4")).is_ok(), listed, "{}", name);
    }
}

#[test]
fn own_geometry_ignores_flags() {
    let make = || {
        ZellijFloat::new("n", "c").with_geometry(Geometry {
            height: "1".to_string(),
            width: "2".to_string(),
            x: "3".to_string(),
            y: "4".to_string(),
        })
    };
    assert_eq!(make().build_cmd(&flags("100%", "95%", "10", "0")), make().build_cmd(&flags("a", "b", "c", "d")));
}

#[test]
fn layout_of_more_dirs_extends_the_layout() {
    let one = vec![("a".to_string(), "/a".to_string())];
    let two = vec![("a".to_string(), "/a".to_string()), ("b".to_string(), "/b".to_string())];
    let short = devel_layout("s", "/", &one);
    let long = devel_layout("s", "/", &two);
    let tab_b = {
        let mut t = String::new();
        zero::cmd::launch::write_devel_tab(&mut t, "b", "/b");
        t
    };
    let cut: usize = short.len() - "}\n".len();
    assert_eq!(long, format!("{}{}}}\n", &short[..cut], tab_b));
}

#[test]
fn str_eq_compares_characters() {
    assert!(str_eq("", ""));
    assert!(str_eq("héllo", "héllo"));
    assert!(!str_eq("héllo", "hello"));
    assert!(!str_eq("ab", "abc"));
}

#[test]
fn join_strings_like_slice_join() {
    let v: Vec<String> = vec!["a".into(), "".into(), "c".into()];
    assert_eq!(join_strings(&v, ", "), v.join(", "));
    assert_eq!(join_strings(&vec![], " "), "");
    assert_eq!(join_strings(&vec!["x".to_string()], " "), "x");
}

#[test]
fn set_flags_win_over_every_preset() {
    let f = flags("33%", "44%", "5", "6");
    for name in valid_layouts() {
        let g = resolve_layout(name, &f).unwrap();
        assert_eq!(dims(&g), ("33%".to_string(), "44%".to_string(), "5".to_string(), "6".to_string()), "{}", name);
    }
}
