use vstd::prelude::*;
use crate::text::{
    ends_with, join, join_strings, lemma_ends_with_concat, lemma_join_push, lemma_occurs_in_middle, lemma_starts_with_concat,
    occurs_at, owned, starts_with, str_eq, views,
};
use crate::util::shell::ShellPlan;

verus! {

// ─── Geometry and layouts ───────────────────────────────────────────────────

/// The size and position of a floating pane, as the text handed to Zellij.
pub struct GeometryView {
    pub height: Seq<char>,
    pub width: Seq<char>,
    pub x: Seq<char>,
    pub y: Seq<char>,
}

/// The size and position of a floating pane.
#[derive(Debug)]
pub struct Geometry {
    pub height: String,
    pub width: String,
    pub x: String,
    pub y: String,
}

impl View for Geometry {
    type V = GeometryView;

    open spec fn view(&self) -> GeometryView {
        GeometryView { height: self.height@, width: self.width@, x: self.x@, y: self.y@ }
    }
}

pub open spec fn geometry_of(height: Seq<char>, width: Seq<char>, x: Seq<char>, y: Seq<char>) -> GeometryView {
    GeometryView { height, width, x, y }
}

/// The names of the layout presets, in the order in which they are listed.
pub open spec fn layout_names() -> Seq<Seq<char>> {
    seq![
        "full"@,
        "half-left"@,
        "half-right"@,
        "top-left"@,
        "bottom-left"@,
        "top-right"@,
        "bottom-right"@,
        "default"@,
    ]
}

/// The geometry of the preset called `name`, if there is one.
pub open spec fn preset(name: Seq<char>) -> Option<GeometryView> {
    if name == "full"@ {
        Some(geometry_of("100%"@, "100%"@, "0"@, "0"@))
    } else if name == "half-left"@ {
        Some(geometry_of("50%"@, "100%"@, "0"@, "0"@))
    } else if name == "half-right"@ {
        Some(geometry_of("50%"@, "100%"@, "50%"@, "0"@))
    } else if name == "top-left"@ {
        Some(geometry_of("50%"@, "50%"@, "0"@, "0"@))
    } else if name == "bottom-left"@ {
        Some(geometry_of("50%"@, "53%"@, "0"@, "52%"@))
    } else if name == "top-right"@ {
        Some(geometry_of("50%"@, "50%"@, "50%"@, "0"@))
    } else if name == "bottom-right"@ {
        Some(geometry_of("50%"@, "53%"@, "50%"@, "52%"@))
    } else if name == "default"@ {
        Some(geometry_of("95%"@, "100%"@, "10"@, "0"@))
    } else {
        None
    }
}

fn make_geometry(height: &str, width: &str, x: &str, y: &str) -> (r: Geometry)
    ensures
        r@ == geometry_of(height@, width@, x@, y@),
{
    Geometry { height: owned(height), width: owned(width), x: owned(x), y: owned(y) }
}

/// The preset geometry called `name`. The presets are a fixed table searched
/// by name in the order of `layout_names`, so that the lookup is proved to
/// give exactly `preset(name)`; a hash map keyed by strings would give no
/// such proof here.
pub fn layout_preset(name: &str) -> (r: Option<Geometry>)
    ensures
        r is None <==> preset(name@) is None,
        r matches Some(g) ==> preset(name@) == Some(g@),
{
    if str_eq(name, "full") {
        Some(make_geometry("100%", "100%", "0", "0"))
    } else if str_eq(name, "half-left") {
        Some(make_geometry("50%", "100%", "0", "0"))
    } else if str_eq(name, "half-right") {
        Some(make_geometry("50%", "100%", "50%", "0"))
    } else if str_eq(name, "top-left") {
        Some(make_geometry("50%", "50%", "0", "0"))
    } else if str_eq(name, "bottom-left") {
        Some(make_geometry("50%", "53%", "0", "52%"))
    } else if str_eq(name, "top-right") {
        Some(make_geometry("50%", "50%", "50%", "0"))
    } else if str_eq(name, "bottom-right") {
        Some(make_geometry("50%", "53%", "50%", "52%"))
    } else if str_eq(name, "default") {
        Some(make_geometry("95%", "100%", "10", "0"))
    } else {
        None
    }
}

/// The names of the layout presets, in the order in which they are listed.
pub fn valid_layouts() -> (r: Vec<&'static str>)
    ensures
        r@.map_values(|s: &str| s@) == layout_names(),
{
    let r = vec![
        "full",
        "half-left",
        "half-right",
        "top-left",
        "bottom-left",
        "top-right",
        "bottom-right",
        "default",
    ];
    assert(r@.map_values(|s: &str| s@) =~= layout_names());
    r
}

/// Exactly the listed names have a preset.
pub proof fn lemma_presets_are_listed(name: Seq<char>)
    ensures
        preset(name) is Some <==> layout_names().contains(name),
{
    if preset(name) is Some {
        let i: int = if name == "full"@ { 0 } else if name == "half-left"@ { 1 } else if name
            == "half-right"@ { 2 } else if name == "top-left"@ { 3 } else if name
            == "bottom-left"@ { 4 } else if name == "top-right"@ { 5 } else if name
            == "bottom-right"@ { 6 } else { 7 };
        assert(layout_names()[i] == name);
    }
    if layout_names().contains(name) {
        let i: int = choose|i: int| 0 <= i < layout_names().len() && layout_names()[i] == name;
        assert(0 <= i < 8);
    }
}


/// The value that stands for one dimension: a flag set to anything but its
/// default wins; else the preset's own value, unless it is empty; else the
/// fallback (the flag's default).
pub open spec fn override_spec(preset: Seq<char>, flag: Seq<char>, fallback: Seq<char>) -> Seq<char> {
    if flag != fallback {
        flag
    } else if preset.len() != 0 {
        preset
    } else {
        fallback
    }
}

/// The fallbacks of the four dimensions: the defaults of the flags.
pub open spec fn fallbacks() -> GeometryView {
    geometry_of("100%"@, "95%"@, "10"@, "0"@)
}

/// A preset geometry with the flags laid over it.
pub open spec fn override_geometry(g: GeometryView, flags: GeometryView) -> GeometryView {
    GeometryView {
        height: override_spec(g.height, flags.height, fallbacks().height),
        width: override_spec(g.width, flags.width, fallbacks().width),
        x: override_spec(g.x, flags.x, fallbacks().x),
        y: override_spec(g.y, flags.y, fallbacks().y),
    }
}

/// The layout `name` with the flags laid over it, or `None` where there is
/// no such preset.
pub open spec fn resolve_spec(name: Seq<char>, flags: GeometryView) -> Option<GeometryView> {
    match preset(name) {
        Some(g) => Some(override_geometry(g, flags)),
        None => None,
    }
}

/// One dimension of a preset with its flag laid over it.
pub fn override_val(preset: &str, flag: &str, fallback: &str) -> (r: String)
    ensures
        r@ == override_spec(preset@, flag@, fallback@),
{
    if !str_eq(flag, fallback) {
        return owned(flag);
    }
    if !preset.is_empty() {
        return owned(preset);
    }
    owned(fallback)
}

impl Geometry {
    /// This geometry with the flags laid over each dimension.
    pub fn override_with(&self, flags: &FloatFlags) -> (r: Geometry)
        ensures
            r@ == override_geometry(self@, flags@),
    {
        Geometry {
            height: override_val(self.height.as_str(), flags.height.as_str(), "100%"),
            width: override_val(self.width.as_str(), flags.width.as_str(), "95%"),
            x: override_val(self.x.as_str(), flags.x.as_str(), "10"),
            y: override_val(self.y.as_str(), flags.y.as_str(), "0"),
        }
    }
}

/// Why a floating-pane command could not be put together.
#[derive(Debug)]
pub enum FloatError {
    /// No layout preset has this name.
    UnknownLayout { name: String },
    /// `mdcat` was given no file.
    MissingFile,
}

/// A `FloatError` as text.
pub enum FloatErrorView {
    UnknownLayout { name: Seq<char> },
    MissingFile,
}

impl View for FloatError {
    type V = FloatErrorView;

    open spec fn view(&self) -> FloatErrorView {
        match self {
            FloatError::UnknownLayout { name } => FloatErrorView::UnknownLayout { name: name@ },
            FloatError::MissingFile => FloatErrorView::MissingFile,
        }
    }
}

/// The names of the presets as a list literal: `["full", "half-left", ...]`.
pub open spec fn quoted(s: Seq<char>) -> Seq<char> {
    "\""@ + s + "\""@
}

pub open spec fn layouts_listed() -> Seq<char> {
    "["@ + join(layout_names().map_values(|n: Seq<char>| quoted(n)), ", "@) + "]"@
}

/// The report of an error.
pub open spec fn error_message(e: FloatErrorView) -> Seq<char> {
    match e {
        FloatErrorView::UnknownLayout { name } =>
            "Unknown layout '"@ + name + "' (must be one of: "@ + layouts_listed() + ")"@,
        FloatErrorView::MissingFile => "mdcat command requires a file argument"@,
    }
}

impl FloatError {
    /// The report of this error.
    pub fn message(&self) -> (r: String)
        ensures
            r@ == error_message(self@),
    {
        match self {
            FloatError::UnknownLayout { name } => {
                let names = valid_layouts();
                let mut quoted_names: Vec<String> = Vec::new();
                let mut i: usize = 0;
                while i < names.len()
                    invariant
                        i <= names.len(),
                        names@.map_values(|s: &str| s@) == layout_names(),
                        quoted_names@.len() == i,
                        forall|j: int| 0 <= j < i ==> #[trigger] quoted_names@[j]@ == quoted(names@[j]@),
                    decreases names.len() - i,
                {
                    let mut q = owned("\"");
                    q.append(names[i]);
                    q.append("\"");
                    quoted_names.push(q);
                    i = i + 1;
                }
                let listed = join_strings(&quoted_names, ", ");
                proof {
                    assert(views(quoted_names@) =~= layout_names().map_values(|n: Seq<char>| quoted(n))) by {
                        assert forall|j: int| 0 <= j < quoted_names@.len() implies
                            views(quoted_names@)[j] == layout_names().map_values(|n: Seq<char>| quoted(n))[j] by {
                            assert(layout_names()[j] == names@.map_values(|s: &str| s@)[j]);
                        }
                    }
                }
                let mut r = owned("Unknown layout '");
                r.append(name.as_str());
                r.append("' (must be one of: [");
                r.append(listed.as_str());
                r.append("])");
                proof {
                    reveal_strlit("' (must be one of: [");
                    reveal_strlit("' (must be one of: ");
                    reveal_strlit("[");
                    reveal_strlit("])");
                    reveal_strlit("]");
                    reveal_strlit(")");
                    assert("' (must be one of: ["@ =~= "' (must be one of: "@ + "["@);
                    assert("])"@ =~= "]"@ + ")"@);
                    assert(r@ =~= error_message(self@));
                }
                r
            },
            FloatError::MissingFile => owned("mdcat command requires a file argument"),
        }
    }
}

/// The layout `name` with the flags laid over it.
pub fn resolve_layout(name: &str, flags: &FloatFlags) -> (r: Result<Geometry, FloatError>)
    ensures
        r is Ok <==> preset(name@) is Some,
        r matches Ok(g) ==> resolve_spec(name@, flags@) == Some(g@),
        r matches Err(e) ==> e@ == (FloatErrorView::UnknownLayout { name: name@ }),
{
    match layout_preset(name) {
        Some(p) => Ok(p.override_with(flags)),
        None => Err(FloatError::UnknownLayout { name: owned(name) }),
    }
}

// ─── Zellij float builder ──────────────────────────────────────────────────

/// A floating pane to open, as text.
pub struct ZellijFloatView {
    pub name: Seq<char>,
    pub close_on_exit: bool,
    pub pinned: bool,
    pub command: Seq<char>,
    pub args: Seq<Seq<char>>,
    pub geometry: Option<GeometryView>,
}

/// A floating pane to open: its name, the program it runs and how.
#[derive(Debug)]
pub struct ZellijFloat {
    name: String,
    close_on_exit: bool,
    pinned: bool,
    command: String,
    args: Vec<String>,
    geometry: Option<Geometry>,
}

pub open spec fn geometry_view(g: Option<Geometry>) -> Option<GeometryView> {
    match g {
        Some(g) => Some(g@),
        None => None,
    }
}

impl View for ZellijFloat {
    type V = ZellijFloatView;

    closed spec fn view(&self) -> ZellijFloatView {
        ZellijFloatView {
            name: self.name@,
            close_on_exit: self.close_on_exit,
            pinned: self.pinned,
            command: self.command@,
            args: views(self.args@),
            geometry: geometry_view(self.geometry),
        }
    }
}

/// The default layout with the flags laid over it.
pub open spec fn default_geometry(flags: GeometryView) -> GeometryView {
    override_geometry(geometry_of("95%"@, "100%"@, "10"@, "0"@), flags)
}

pub open spec fn when(cond: bool, s: Seq<char>) -> Seq<char> {
    if cond { s } else { Seq::empty() }
}

/// The command line that opens the pane `f`: `zellij run --floating`, the
/// pane's flags, `--`, the program and its arguments.
pub open spec fn float_command(f: ZellijFloatView, flags: GeometryView) -> Seq<char> {
    let g = match f.geometry {
        Some(g) => g,
        None => default_geometry(flags),
    };
    "zellij run --floating --name "@ + f.name
        + when(f.pinned, " --pinned true"@)
        + when(f.close_on_exit, " --close-on-exit"@)
        + " --height "@ + g.height
        + " --width "@ + g.width
        + " --x "@ + g.x
        + " --y "@ + g.y
        + " -- "@ + f.command
        + when(f.args.len() != 0, " "@ + join(f.args, " "@))
}

/// A pane that runs `command` under the name `name`, with no arguments,
/// neither pinned nor closed on exit, in the default layout.
pub open spec fn plain_float(name: Seq<char>, command: Seq<char>) -> ZellijFloatView {
    ZellijFloatView {
        name,
        close_on_exit: false,
        pinned: false,
        command,
        args: Seq::empty(),
        geometry: None,
    }
}

impl ZellijFloat {
    /// A pane called `name` that runs `command`.
    pub fn new(name: &str, command: &str) -> (r: ZellijFloat)
        ensures
            r@ == plain_float(name@, command@),
    {
        let r = ZellijFloat {
            name: owned(name),
            close_on_exit: false,
            pinned: false,
            command: owned(command),
            args: Vec::new(),
            geometry: None,
        };
        assert(views(r.args@) =~= Seq::empty());
        r
    }

    /// The pane, closed when its program exits.
    pub fn with_close_on_exit(self) -> (r: ZellijFloat)
        ensures
            r@ == (ZellijFloatView { close_on_exit: true, ..self@ }),
    {
        let mut s = self;
        s.close_on_exit = true;
        s
    }

    /// The pane, pinned above the others.
    pub fn with_pinned(self) -> (r: ZellijFloat)
        ensures
            r@ == (ZellijFloatView { pinned: true, ..self@ }),
    {
        let mut s = self;
        s.pinned = true;
        s
    }

    /// The pane, with `args` handed to its program.
    pub fn with_args(self, args: Vec<String>) -> (r: ZellijFloat)
        ensures
            r@ == (ZellijFloatView { args: views(args@), ..self@ }),
    {
        let mut s = self;
        s.args = args;
        s
    }

    /// The pane, placed at `geom` whatever the flags.
    pub fn with_geometry(self, geom: Geometry) -> (r: ZellijFloat)
        ensures
            r@ == (ZellijFloatView { geometry: Some(geom@), ..self@ }),
    {
        let mut s = self;
        s.geometry = Some(geom);
        s
    }

    fn append_geometry(cmd: &mut String, g: &Geometry)
        ensures
            final(cmd)@ == old(cmd)@ + " --height "@ + g.height@ + " --width "@ + g.width@ + " --x "@
                + g.x@ + " --y "@ + g.y@,
    {
        cmd.append(" --height ");
        cmd.append(g.height.as_str());
        cmd.append(" --width ");
        cmd.append(g.width.as_str());
        cmd.append(" --x ");
        cmd.append(g.x.as_str());
        cmd.append(" --y ");
        cmd.append(g.y.as_str());
    }

    /// The command line that opens this pane; without a geometry of its
    /// own the pane takes the default layout with the flags laid over it.
    pub fn build_cmd(&self, flags: &FloatFlags) -> (r: String)
        ensures
            r@ == float_command(self@, flags@),
    {
        let mut cmd = owned("zellij run --floating --name ");
        cmd.append(self.name.as_str());
        let ghost start = cmd@;
        if self.pinned {
            cmd.append(" --pinned true");
        }
        assert(cmd@ =~= start + when(self.pinned, " --pinned true"@));
        let ghost start = cmd@;
        if self.close_on_exit {
            cmd.append(" --close-on-exit");
        }
        assert(cmd@ =~= start + when(self.close_on_exit, " --close-on-exit"@));
        let ghost before_geometry = cmd@;
        let ghost gv = match self@.geometry {
            Some(g) => g,
            None => default_geometry(flags@),
        };
        match &self.geometry {
            Some(g) => Self::append_geometry(&mut cmd, g),
            None => {
                proof {
                    reveal_strlit("default");
                    reveal_strlit("full");
                    reveal_strlit("half-left");
                    reveal_strlit("half-right");
                    reveal_strlit("top-left");
                    reveal_strlit("bottom-left");
                    reveal_strlit("top-right");
                    reveal_strlit("bottom-right");
                }
                assert("default"@.len() == 7);
                assert("full"@.len() == 4);
                assert(preset("default"@) == Some(geometry_of("95%"@, "100%"@, "10"@, "0"@)));
                match resolve_layout("default", flags) {
                    Ok(g) => {
                        assert(g@ == gv);
                        Self::append_geometry(&mut cmd, &g);
                    },
                    Err(_) => {
                        assert(false);
                    },
                }
            },
        }
        assert(cmd@ == before_geometry + " --height "@ + gv.height + " --width "@ + gv.width + " --x "@
            + gv.x + " --y "@ + gv.y);
        cmd.append(" -- ");
        cmd.append(self.command.as_str());
        let ghost start = cmd@;
        if self.args.len() > 0 {
            cmd.append(" ");
            let joined = join_strings(&self.args, " ");
            cmd.append(joined.as_str());
        }
        assert(cmd@ =~= start + when(self@.args.len() != 0, " "@ + join(self@.args, " "@)));
        cmd
    }
}

// ─── Flag helper struct ────────────────────────────────────────────────────

/// The geometry flags of the float command.
#[derive(Clone, Debug)]
pub struct FloatFlags {
    pub height: String,
    pub width: String,
    pub x: String,
    pub y: String,
}

impl View for FloatFlags {
    type V = GeometryView;

    open spec fn view(&self) -> GeometryView {
        GeometryView { height: self.height@, width: self.width@, x: self.x@, y: self.y@ }
    }
}


// ─── Float command ──────────────────────────────────────────────────────────

/// Open a floating pane in Zellij
#[derive(Clone)]
pub struct FloatCmd {
    /// Pane height (e.g. "100%")
    pub height: String,
    /// Pane width (e.g. "95%")
    pub width: String,
    /// Horizontal offset
    pub x: String,
    /// Vertical offset
    pub y: String,
    /// Layout preset
    pub layout: Option<String>,
    pub subcommand: Option<FloatSubcommands>,
}

/// Arguments for float subcommands
#[derive(Clone)]
pub struct FloatSubArgs {
    /// Optional file or directory argument
    pub args: Vec<String>,
}

impl View for FloatSubArgs {
    type V = Seq<Seq<char>>;

    open spec fn view(&self) -> Seq<Seq<char>> {
        views(self.args@)
    }
}

/// The tools that a float subcommand opens.
#[derive(Clone)]
pub enum FloatSubcommands {
    /// View file with bat in floating pane
    Bat(FloatSubArgs),
    /// Browse directory with eza in floating pane
    Eza(FloatSubArgs),
    /// Edit with Helix in floating pane
    Helix(FloatSubArgs),
    /// Open lazygit in floating pane
    Lazygit(FloatSubArgs),
    /// Render Markdown with mdcat in floating pane
    Mdcat(FloatSubArgs),
    /// Edit with micro in floating pane
    Micro(FloatSubArgs),
    /// Resize current floating pane
    Resize(FloatSubArgs),
    /// Run 'just watch' in floating pane
    Watch(FloatSubArgs),
    /// Open yazi file manager in floating pane
    Yazi(FloatSubArgs),
}

/// What a float command comes to: the script and its failure context, or
/// the reason there is none.
pub type PlanView = Result<(Seq<char>, Seq<char>), FloatErrorView>;

pub open spec fn plan_view(r: Result<ShellPlan, FloatError>) -> PlanView {
    match r {
        Ok(p) => Ok(p@),
        Err(e) => Err(e@),
    }
}

/// The first argument, if any, as a list of zero or one arguments.
pub open spec fn first_only(args: Seq<Seq<char>>) -> Seq<Seq<char>> {
    if args.len() == 0 { Seq::empty() } else { seq![args[0]] }
}

/// The first argument, or `d` where there is none.
pub open spec fn first_or(args: Seq<Seq<char>>, d: Seq<char>) -> Seq<char> {
    if args.len() == 0 { d } else { args[0] }
}

pub open spec fn eza_options() -> Seq<Seq<char>> {
    seq![
        "--header"@,
        "--long"@,
        "--icons"@,
        "--classify"@,
        "--git"@,
        "--group"@,
        "--color=always"@,
    ]
}

pub open spec fn bat_plan(args: Seq<Seq<char>>, flags: GeometryView) -> (Seq<char>, Seq<char>) {
    let f = ZellijFloatView {
        close_on_exit: true,
        args: seq!["--paging=always"@] + first_only(args),
        ..plain_float("bat"@, "bat"@)
    };
    (float_command(f, flags), "Failed to launch bat"@)
}

pub open spec fn eza_plan(args: Seq<Seq<char>>, flags: GeometryView) -> (Seq<char>, Seq<char>) {
    let f = ZellijFloatView { args: eza_options() + first_only(args), ..plain_float("eza"@, "eza"@) };
    (float_command(f, flags), "Failed to launch eza"@)
}

pub open spec fn editor_plan(args: Seq<Seq<char>>, flags: GeometryView, call: Seq<char>, name: Seq<char>) -> (Seq<char>, Seq<char>) {
    let f = ZellijFloatView { close_on_exit: true, args: first_only(args), ..plain_float(name, call) };
    (float_command(f, flags), "Failed to launch "@ + name + " editor"@)
}

pub open spec fn lazygit_plan(args: Seq<Seq<char>>, flags: GeometryView) -> PlanView {
    let layout = first_or(args, "full"@);
    match resolve_spec(layout, flags) {
        Some(g) => {
            let f = ZellijFloatView {
                close_on_exit: true,
                pinned: true,
                geometry: Some(g),
                ..plain_float("lazygit"@, "lazygit"@)
            };
            Ok((float_command(f, flags), "Failed to launch lazygit"@))
        },
        None => Err(FloatErrorView::UnknownLayout { name: layout }),
    }
}

pub open spec fn mdcat_plan(args: Seq<Seq<char>>, flags: GeometryView) -> PlanView {
    if args.len() == 0 {
        Err(FloatErrorView::MissingFile)
    } else {
        let f = ZellijFloatView {
            close_on_exit: true,
            args: seq!["--paginate"@, args[0]],
            ..plain_float("canvas"@, "mdcat"@)
        };
        Ok((float_command(f, flags), "Failed to launch mdcat"@))
    }
}

/// The script that renames the current pane and moves it to `g`.
pub open spec fn resize_script(g: GeometryView) -> Seq<char> {
    "zellij action rename-pane float\nzellij action change-floating-pane-coordinates --pane-id $ZELLIJ_PANE_ID --height "@
        + g.height + " --width "@ + g.width + " --x "@ + g.x + " --y "@ + g.y
}

pub open spec fn resize_plan(args: Seq<Seq<char>>, flags: GeometryView) -> PlanView {
    let layout = first_or(args, "default"@);
    match resolve_spec(layout, flags) {
        Some(g) => Ok((resize_script(g), "Failed to resize floating pane"@)),
        None => Err(FloatErrorView::UnknownLayout { name: layout }),
    }
}

pub open spec fn watch_plan(flags: GeometryView) -> (Seq<char>, Seq<char>) {
    let f = ZellijFloatView {
        close_on_exit: true,
        pinned: true,
        args: seq!["watch"@],
        ..plain_float("watch"@, "just"@)
    };
    (float_command(f, flags), "Failed to launch watch command"@)
}

pub open spec fn yazi_plan(flags: GeometryView) -> (Seq<char>, Seq<char>) {
    let f = ZellijFloatView { close_on_exit: true, ..plain_float("yazi"@, "yazi"@) };
    (float_command(f, flags), "Failed to launch yazi"@)
}

/// What each subcommand comes to under the given flags.
pub open spec fn subcommand_plan(sub: FloatSubcommands, flags: GeometryView) -> PlanView {
    match sub {
        FloatSubcommands::Bat(a) => Ok(bat_plan(a@, flags)),
        FloatSubcommands::Eza(a) => Ok(eza_plan(a@, flags)),
        FloatSubcommands::Helix(a) => Ok(editor_plan(a@, flags, "hx"@, "helix"@)),
        FloatSubcommands::Lazygit(a) => lazygit_plan(a@, flags),
        FloatSubcommands::Mdcat(a) => mdcat_plan(a@, flags),
        FloatSubcommands::Micro(a) => Ok(editor_plan(a@, flags, "micro"@, "micro"@)),
        FloatSubcommands::Resize(a) => resize_plan(a@, flags),
        FloatSubcommands::Watch(_) => Ok(watch_plan(flags)),
        FloatSubcommands::Yazi(_) => Ok(yazi_plan(flags)),
    }
}

impl FloatCmd {
    /// The geometry flags of this command, as text.
    pub open spec fn flags_view(&self) -> GeometryView {
        GeometryView { height: self.height@, width: self.width@, x: self.x@, y: self.y@ }
    }

    /// The layout named on the command line, `default` where none is.
    pub open spec fn layout_name(&self) -> Seq<char> {
        match self.layout {
            Some(l) => l@,
            None => "default"@,
        }
    }

    /// What this command comes to: its subcommand's plan, or else a shell
    /// in a pane of the named layout.
    pub open spec fn plan(&self) -> PlanView {
        match self.subcommand {
            Some(sub) => subcommand_plan(sub, self.flags_view()),
            None => match resolve_spec(self.layout_name(), self.flags_view()) {
                Some(g) => {
                    let f = ZellijFloatView {
                        close_on_exit: true,
                        geometry: Some(g),
                        ..plain_float("canvas"@, "zsh"@)
                    };
                    Ok((float_command(f, self.flags_view()), "Failed to launch floating shell"@))
                },
                None => Err(FloatErrorView::UnknownLayout { name: self.layout_name() }),
            },
        }
    }

    /// The script that this command runs, with its failure context.
    pub fn run(self) -> (r: Result<ShellPlan, FloatError>)
        ensures
            plan_view(r) == self.plan(),
    {
        match &self.subcommand {
            Some(sub) => sub.run(&self),
            None => {
                let flags = self.flags();
                let geom = match &self.layout {
                    Some(l) => resolve_layout(l.as_str(), &flags),
                    None => resolve_layout("default", &flags),
                };
                match geom {
                    Ok(geom) => {
                        let cmd = ZellijFloat::new("canvas", "zsh")
                            .with_geometry(geom)
                            .with_close_on_exit()
                            .build_cmd(&flags);
                        Ok(ShellPlan::new(cmd, "Failed to launch floating shell"))
                    },
                    Err(e) => Err(e),
                }
            },
        }
    }

    /// The geometry flags of this command.
    pub fn flags(&self) -> (r: FloatFlags)
        ensures
            r@ == self.flags_view(),
    {
        FloatFlags::from(self)
    }
}

impl<'a> From<&'a FloatCmd> for FloatFlags {
    fn from(cmd: &'a FloatCmd) -> (r: FloatFlags) {
        FloatFlags {
            height: cmd.height.clone(),
            width: cmd.width.clone(),
            x: cmd.x.clone(),
            y: cmd.y.clone(),
        }
    }
}

impl<'a> vstd::std_specs::convert::FromSpecImpl<&'a FloatCmd> for FloatFlags {
    open spec fn obeys_from_spec() -> bool {
        true
    }

    /// The four geometry flags of the command.
    open spec fn from_spec(cmd: &'a FloatCmd) -> FloatFlags {
        FloatFlags { height: cmd.height, width: cmd.width, x: cmd.x, y: cmd.y }
    }
}

impl FloatSubcommands {
    /// The script that this subcommand runs under the flags of `parent`.
    pub fn run(&self, parent: &FloatCmd) -> (r: Result<ShellPlan, FloatError>)
        ensures
            plan_view(r) == subcommand_plan(*self, parent.flags_view()),
    {
        let flags = parent.flags();
        match self {
            FloatSubcommands::Bat(sub) => Ok(run_bat(sub, &flags)),
            FloatSubcommands::Eza(sub) => Ok(run_eza(sub, &flags)),
            FloatSubcommands::Helix(sub) => Ok(run_helix(sub, &flags)),
            FloatSubcommands::Lazygit(sub) => run_lazygit(sub, &flags),
            FloatSubcommands::Mdcat(sub) => run_mdcat(sub, &flags),
            FloatSubcommands::Micro(sub) => Ok(run_micro(sub, &flags)),
            FloatSubcommands::Resize(sub) => run_resize(sub, &flags),
            FloatSubcommands::Watch(sub) => Ok(run_watch(sub, &flags)),
            FloatSubcommands::Yazi(sub) => Ok(run_yazi(sub, &flags)),
        }
    }
}

// ─── Run functions ─────────────────────────────────────────────────────────

/// The first argument, if any, as a list of zero or one arguments.
fn first_arg(args: &FloatSubArgs) -> (r: Vec<String>)
    ensures
        views(r@) == first_only(args@),
{
    let mut r = Vec::new();
    if args.args.len() > 0 {
        r.push(args.args[0].clone());
    }
    assert(views(r@) =~= first_only(args@));
    r
}

fn append_all(front: Vec<String>, back: Vec<String>) -> (r: Vec<String>)
    ensures
        views(r@) == views(front@) + views(back@),
{
    let ghost f = front@;
    let ghost b = back@;
    let mut r = front;
    let mut back = back;
    r.append(&mut back);
    assert(views(r@) =~= views(f) + views(b));
    r
}

/// Pages the first argument, if any, with `bat`.
pub fn run_bat(args: &FloatSubArgs, flags: &FloatFlags) -> (r: ShellPlan)
    ensures
        r@ == bat_plan(args@, flags@),
{
    let options = vec![owned("--paging=always")];
    assert(views(options@) =~= seq!["--paging=always"@]);
    let bat_args = append_all(options, first_arg(args));
    let cmd = ZellijFloat::new("bat", "bat").with_args(bat_args).with_close_on_exit().build_cmd(flags);
    ShellPlan::new(cmd, "Failed to launch bat")
}


/// Lists the first argument, if any, with `eza`.
pub fn run_eza(args: &FloatSubArgs, flags: &FloatFlags) -> (r: ShellPlan)
    ensures
        r@ == eza_plan(args@, flags@),
{
    let options = vec![
        owned("--header"),
        owned("--long"),
        owned("--icons"),
        owned("--classify"),
        owned("--git"),
        owned("--group"),
        owned("--color=always"),
    ];
    assert(views(options@) =~= eza_options());
    let eza_args = append_all(options, first_arg(args));
    let cmd = ZellijFloat::new("eza", "eza").with_args(eza_args).build_cmd(flags);
    ShellPlan::new(cmd, "Failed to launch eza")
}

/// Opens the first argument, if any, in Helix.
pub fn run_helix(args: &FloatSubArgs, flags: &FloatFlags) -> (r: ShellPlan)
    ensures
        r@ == editor_plan(args@, flags@, "hx"@, "helix"@),
{
    run_editor(args, flags, "hx", "helix")
}

/// Opens the first argument, if any, in micro.
pub fn run_micro(args: &FloatSubArgs, flags: &FloatFlags) -> (r: ShellPlan)
    ensures
        r@ == editor_plan(args@, flags@, "micro"@, "micro"@),
{
    run_editor(args, flags, "micro", "micro")
}

/// Opens the editor program `call` on the first argument, in a pane called
/// `name`.
pub fn run_editor(args: &FloatSubArgs, flags: &FloatFlags, call: &str, name: &str) -> (r: ShellPlan)
    ensures
        r@ == editor_plan(args@, flags@, call@, name@),
{
    let cmd = ZellijFloat::new(name, call).with_args(first_arg(args)).with_close_on_exit().build_cmd(
        flags,
    );
    let mut context = owned("Failed to launch ");
    context.append(name);
    context.append(" editor");
    ShellPlan::new(cmd, context.as_str())
}

/// The first argument as a string slice, or `d` where there is none.
fn first_or_default<'a>(args: &'a FloatSubArgs, d: &'a str) -> (r: &'a str)
    ensures
        r@ == first_or(args@, d@),
{
    if args.args.len() > 0 {
        args.args[0].as_str()
    } else {
        d
    }
}

/// Opens lazygit, pinned, in the layout named by the first argument (`full`
/// where none is).
pub fn run_lazygit(args: &FloatSubArgs, flags: &FloatFlags) -> (r: Result<ShellPlan, FloatError>)
    ensures
        plan_view(r) == lazygit_plan(args@, flags@),
{
    let layout = first_or_default(args, "full");
    let geom = resolve_layout(layout, flags)?;
    let cmd = ZellijFloat::new("lazygit", "lazygit")
        .with_geometry(geom)
        .with_close_on_exit()
        .with_pinned()
        .build_cmd(flags);
    Ok(ShellPlan::new(cmd, "Failed to launch lazygit"))
}

/// Renders the first argument with mdcat; there must be one.
pub fn run_mdcat(args: &FloatSubArgs, flags: &FloatFlags) -> (r: Result<ShellPlan, FloatError>)
    ensures
        plan_view(r) == mdcat_plan(args@, flags@),
{
    if args.args.len() == 0 {
        return Err(FloatError::MissingFile);
    }
    let mdcat_args = vec![owned("--paginate"), args.args[0].clone()];
    assert(views(mdcat_args@) =~= seq!["--paginate"@, args@[0]]);
    let cmd = ZellijFloat::new("canvas", "mdcat")
        .with_args(mdcat_args)
        .with_close_on_exit()
        .build_cmd(flags);
    Ok(ShellPlan::new(cmd, "Failed to launch mdcat"))
}

/// Moves the current pane to the layout named by the first argument
/// (`default` where none is).
pub fn run_resize(args: &FloatSubArgs, flags: &FloatFlags) -> (r: Result<ShellPlan, FloatError>)
    ensures
        plan_view(r) == resize_plan(args@, flags@),
{
    let layout = first_or_default(args, "default");
    let geom = resolve_layout(layout, flags)?;
    let mut cmd = owned(
        "zellij action rename-pane float\nzellij action change-floating-pane-coordinates --pane-id $ZELLIJ_PANE_ID --height ",
    );
    cmd.append(geom.height.as_str());
    cmd.append(" --width ");
    cmd.append(geom.width.as_str());
    cmd.append(" --x ");
    cmd.append(geom.x.as_str());
    cmd.append(" --y ");
    cmd.append(geom.y.as_str());
    Ok(ShellPlan::new(cmd, "Failed to resize floating pane"))
}

fn watch_args() -> (r: Vec<String>)
    ensures
        views(r@) == seq!["watch"@],
{
    let r = vec![owned("watch")];
    assert(views(r@) =~= seq!["watch"@]);
    r
}

/// Runs `just watch`, pinned.
pub fn run_watch(args: &FloatSubArgs, flags: &FloatFlags) -> (r: ShellPlan)
    ensures
        r@ == watch_plan(flags@),
{
    let cmd = ZellijFloat::new("watch", "just")
        .with_args(watch_args())
        .with_close_on_exit()
        .with_pinned()
        .build_cmd(flags);
    ShellPlan::new(cmd, "Failed to launch watch command")
}

/// Opens the yazi file manager.
pub fn run_yazi(args: &FloatSubArgs, flags: &FloatFlags) -> (r: ShellPlan)
    ensures
        r@ == yazi_plan(flags@),
{
    let cmd = ZellijFloat::new("yazi", "yazi").with_close_on_exit().build_cmd(flags);
    ShellPlan::new(cmd, "Failed to launch yazi")
}


// ─── Laws ───────────────────────────────────────────────────────────────────

/// Each dimension comes out as the preset's value, the flag or the fallback.
pub proof fn lemma_override_picks_one(preset: Seq<char>, flag: Seq<char>, fallback: Seq<char>)
    ensures
        override_spec(preset, flag, fallback) == preset || override_spec(preset, flag, fallback)
            == flag || override_spec(preset, flag, fallback) == fallback,
{
}

/// Laying the same flags over a geometry twice gives what laying them once
/// gives.
pub proof fn lemma_override_idempotent(g: GeometryView, flags: GeometryView)
    ensures
        override_geometry(override_geometry(g, flags), flags) == override_geometry(g, flags),
{
}

/// A flag set to anything but its default gives that dimension of the pane,
/// whatever the preset says.
pub proof fn lemma_set_flags_win(g: GeometryView, flags: GeometryView)
    ensures
        flags.height != fallbacks().height ==> override_geometry(g, flags).height == flags.height,
        flags.width != fallbacks().width ==> override_geometry(g, flags).width == flags.width,
        flags.x != fallbacks().x ==> override_geometry(g, flags).x == flags.x,
        flags.y != fallbacks().y ==> override_geometry(g, flags).y == flags.y,
{
}

/// A flag at its default (`-H 100%`, `-W 95%`, `-X 10`, `-Y 0`) leaves that
/// dimension of the preset as it is, whatever the other flags say; an empty
/// preset dimension then takes the default.
pub proof fn lemma_default_flag_keeps_preset_dimension(g: GeometryView, flags: GeometryView)
    ensures
        flags.height == "100%"@ ==> override_geometry(g, flags).height == (if g.height.len() != 0 {
            g.height
        } else {
            "100%"@
        }),
        flags.width == "95%"@ ==> override_geometry(g, flags).width == (if g.width.len() != 0 {
            g.width
        } else {
            "95%"@
        }),
        flags.x == "10"@ ==> override_geometry(g, flags).x == (if g.x.len() != 0 {
            g.x
        } else {
            "10"@
        }),
        flags.y == "0"@ ==> override_geometry(g, flags).y == (if g.y.len() != 0 {
            g.y
        } else {
            "0"@
        }),
{
}

/// Each dimension of the result depends on that dimension of the preset and
/// of the flags alone.
pub proof fn lemma_dimensions_independent(g1: GeometryView, f1: GeometryView, g2: GeometryView, f2: GeometryView)
    ensures
        g1.height == g2.height && f1.height == f2.height ==> override_geometry(g1, f1).height
            == override_geometry(g2, f2).height,
        g1.width == g2.width && f1.width == f2.width ==> override_geometry(g1, f1).width
            == override_geometry(g2, f2).width,
        g1.x == g2.x && f1.x == f2.x ==> override_geometry(g1, f1).x == override_geometry(g2, f2).x,
        g1.y == g2.y && f1.y == f2.y ==> override_geometry(g1, f1).y == override_geometry(g2, f2).y,
{
}

/// Flags at their defaults leave a geometry with no empty dimension as it is.
pub proof fn lemma_default_flags_keep_geometry(g: GeometryView)
    requires
        g.height.len() != 0,
        g.width.len() != 0,
        g.x.len() != 0,
        g.y.len() != 0,
    ensures
        override_geometry(g, fallbacks()) == g,
{
}

/// Under flags at their defaults every layout resolves to its preset.
pub proof fn lemma_default_flags_resolve_to_presets(name: Seq<char>)
    ensures
        resolve_spec(name, fallbacks()) == preset(name),
{
    reveal_strlit("100%");
    reveal_strlit("95%");
    reveal_strlit("50%");
    reveal_strlit("53%");
    reveal_strlit("52%");
    reveal_strlit("10");
    reveal_strlit("0");
    assert("100%"@.len() == 4 && "95%"@.len() == 3 && "50%"@.len() == 3 && "53%"@.len() == 3);
    assert("52%"@.len() == 3 && "10"@.len() == 2 && "0"@.len() == 1);
    match preset(name) {
        Some(g) => lemma_default_flags_keep_geometry(g),
        None => {},
    }
}

/// A layout resolves exactly when its name is one of the listed presets.
pub proof fn lemma_resolve_iff_listed(name: Seq<char>, flags: GeometryView)
    ensures
        resolve_spec(name, flags) is Some <==> layout_names().contains(name),
{
    lemma_presets_are_listed(name);
}

/// A pane that carries its own geometry opens the same way whatever the
/// flags.
pub proof fn lemma_own_geometry_ignores_flags(f: ZellijFloatView, a: GeometryView, b: GeometryView)
    requires
        f.geometry is Some,
    ensures
        float_command(f, a) == float_command(f, b),
{
}


/// The head and tail of a pane's command line: `zellij run --floating
/// --name`, the name, ` --pinned true` when pinned, ` --close-on-exit` when
/// closed on exit, and ` --height ` open it; ` -- `, the program and, when
/// there are arguments, a space and the arguments joined by spaces end it.
#[verifier::rlimit(40)]
pub proof fn lemma_float_command_ends(f: ZellijFloatView, flags: GeometryView)
    ensures
        starts_with(
            float_command(f, flags),
            "zellij run --floating --name "@ + f.name + when(f.pinned, " --pinned true"@) + when(
                f.close_on_exit,
                " --close-on-exit"@,
            ) + " --height "@,
        ),
        ends_with(
            float_command(f, flags),
            " -- "@ + f.command + when(f.args.len() != 0, " "@ + join(f.args, " "@)),
        ),
{
    let g = match f.geometry {
        Some(g) => g,
        None => default_geometry(flags),
    };
    let head = "zellij run --floating --name "@ + f.name + when(f.pinned, " --pinned true"@) + when(
        f.close_on_exit,
        " --close-on-exit"@,
    ) + " --height "@;
    let middle = g.height + " --width "@ + g.width + " --x "@ + g.x + " --y "@ + g.y;
    let tail = " -- "@ + f.command + when(f.args.len() != 0, " "@ + join(f.args, " "@));
    assert(float_command(f, flags) =~= head + (middle + tail));
    assert(float_command(f, flags) =~= (head + middle) + tail);
    lemma_starts_with_concat(head, middle + tail);
    lemma_ends_with_concat(head + middle, tail);
}

/// The flags that place a pane at `g`, followed by the separator before
/// its program.
pub open spec fn placement_text(g: GeometryView) -> Seq<char> {
    " --height "@ + g.height + " --width "@ + g.width + " --x "@ + g.x + " --y "@ + g.y + " -- "@
}

/// Where a pane without a geometry of its own is placed: the default preset
/// (95%, 100%, 10, 0) with the flags laid over it.
pub open spec fn default_placed(flags: GeometryView) -> GeometryView {
    override_geometry(geometry_of("95%"@, "100%"@, "10"@, "0"@), flags)
}

/// The lengths of the pane and program names used here.
proof fn lemma_name_len(name: Seq<char>)
    ensures
        name == "bat"@ ==> name.len() == 3,
        name == "eza"@ ==> name.len() == 3,
        name == "canvas"@ ==> name.len() == 6,
        name == "yazi"@ ==> name.len() == 4,
        name == "watch"@ ==> name.len() == 5,
        name == "lazygit"@ ==> name.len() == 7,
{
    reveal_strlit("bat");
    reveal_strlit("eza");
    reveal_strlit("canvas");
    reveal_strlit("yazi");
    reveal_strlit("watch");
    reveal_strlit("lazygit");
}

/// The length of the text before a pane's placement.
proof fn lemma_head_len(name: Seq<char>, pinned: bool, close_on_exit: bool)
    ensures
        ("zellij run --floating --name "@ + name + when(pinned, " --pinned true"@) + when(
            close_on_exit,
            " --close-on-exit"@,
        )).len() == 29 + name.len() + (if pinned { 14int } else { 0int }) + (if close_on_exit {
            16int
        } else {
            0int
        }),
{
    reveal_strlit("zellij run --floating --name ");
    reveal_strlit(" --pinned true");
    reveal_strlit(" --close-on-exit");
}

/// A pane is placed at its own geometry where it has one, else at the
/// default preset (95%, 100%, 10, 0) with the flags laid over it; the
/// placement follows the name (29 characters after `zellij run --floating
/// --name ` begins) and the pinned (14) and close-on-exit (16) flags.
#[verifier::rlimit(40)]
pub proof fn lemma_float_command_placement(f: ZellijFloatView, flags: GeometryView)
    ensures
        occurs_at(
            float_command(f, flags),
            placement_text(
                match f.geometry {
                    Some(g) => g,
                    None => override_geometry(geometry_of("95%"@, "100%"@, "10"@, "0"@), flags),
                },
            ),
            29 + f.name.len() + (if f.pinned { 14int } else { 0int }) + (if f.close_on_exit {
                16int
            } else {
                0int
            }),
        ),
{
    let g = match f.geometry {
        Some(g) => g,
        None => override_geometry(geometry_of("95%"@, "100%"@, "10"@, "0"@), flags),
    };
    let head = "zellij run --floating --name "@ + f.name + when(f.pinned, " --pinned true"@) + when(
        f.close_on_exit,
        " --close-on-exit"@,
    );
    lemma_head_len(f.name, f.pinned, f.close_on_exit);
    let rest = f.command + when(f.args.len() != 0, " "@ + join(f.args, " "@));
    assert(float_command(f, flags) =~= head + placement_text(g) + rest);
    lemma_occurs_in_middle(head, placement_text(g), rest);
}

/// `bat` pages with `--paging=always`, then the first argument if there is
/// one; the pane is called `bat` and closes on exit.
#[verifier::rlimit(40)]
pub proof fn lemma_bat_command(args: Seq<Seq<char>>, flags: GeometryView)
    ensures
        starts_with(bat_plan(args, flags).0, "zellij run --floating --name bat --close-on-exit --height "@),
        ends_with(
            bat_plan(args, flags).0,
            if args.len() == 0 {
                " -- bat --paging=always"@
            } else {
                " -- bat --paging=always "@ + args[0]
            },
        ),
        occurs_at(bat_plan(args, flags).0, placement_text(default_placed(flags)), 48),
        bat_plan(args, flags).1 == "Failed to launch bat"@,
{
    let f = ZellijFloatView {
        close_on_exit: true,
        args: seq!["--paging=always"@] + first_only(args),
        ..plain_float("bat"@, "bat"@)
    };
    lemma_float_command_ends(f, flags);
    lemma_float_command_placement(f, flags);
    lemma_name_len("bat"@);
    reveal_strlit("zellij run --floating --name bat --close-on-exit --height ");
    reveal_strlit("zellij run --floating --name ");
    reveal_strlit("bat");
    reveal_strlit(" --close-on-exit");
    reveal_strlit(" --height ");
    reveal_strlit(" -- bat --paging=always");
    reveal_strlit(" -- bat --paging=always ");
    reveal_strlit(" -- ");
    reveal_strlit(" ");
    reveal_strlit("--paging=always");
    assert("zellij run --floating --name "@ + "bat"@ + when(false, " --pinned true"@) + when(
        true,
        " --close-on-exit"@,
    ) + " --height "@ =~= "zellij run --floating --name bat --close-on-exit --height "@);
    lemma_join_push(Seq::empty(), "--paging=always"@, " "@);
    assert(seq!["--paging=always"@] =~= Seq::<Seq<char>>::empty().push("--paging=always"@));
    if args.len() == 0 {
        assert(f.args =~= seq!["--paging=always"@]);
        assert(" -- "@ + "bat"@ + (" "@ + "--paging=always"@) =~= " -- bat --paging=always"@);
    } else {
        assert(f.args =~= seq!["--paging=always"@].push(args[0]));
        lemma_join_push(seq!["--paging=always"@], args[0], " "@);
        assert(" -- "@ + "bat"@ + (" "@ + ("--paging=always"@ + " "@ + args[0]))
            =~= " -- bat --paging=always "@ + args[0]);
    }
}


/// The seven listing options of `eza`, joined by spaces.
proof fn lemma_eza_options_joined()
    ensures
        join(eza_options(), " "@) == "--header --long --icons --classify --git --group --color=always"@,
{
    let sp = " "@;
    let p1 = Seq::<Seq<char>>::empty().push("--header"@);
    let p2 = p1.push("--long"@);
    let p3 = p2.push("--icons"@);
    let p4 = p3.push("--classify"@);
    let p5 = p4.push("--git"@);
    let p6 = p5.push("--group"@);
    let p7 = p6.push("--color=always"@);
    assert(eza_options() =~= p7);
    lemma_join_push(Seq::empty(), "--header"@, sp);
    lemma_join_push(p1, "--long"@, sp);
    lemma_join_push(p2, "--icons"@, sp);
    lemma_join_push(p3, "--classify"@, sp);
    lemma_join_push(p4, "--git"@, sp);
    lemma_join_push(p5, "--group"@, sp);
    lemma_join_push(p6, "--color=always"@, sp);
    reveal_strlit(" ");
    reveal_strlit("--header");
    reveal_strlit("--long");
    reveal_strlit("--icons");
    reveal_strlit("--classify");
    reveal_strlit("--git");
    reveal_strlit("--group");
    reveal_strlit("--color=always");
    reveal_strlit("--header --long --icons --classify --git --group --color=always");
    assert(join(p7, sp) =~= "--header --long --icons --classify --git --group --color=always"@);
}

/// `eza` always lists with `--header --long --icons --classify --git
/// --group --color=always`, then the first argument if there is one; the
/// pane is called `eza` and stays open.
#[verifier::rlimit(40)]
pub proof fn lemma_eza_command(args: Seq<Seq<char>>, flags: GeometryView)
    ensures
        starts_with(eza_plan(args, flags).0, "zellij run --floating --name eza --height "@),
        ends_with(
            eza_plan(args, flags).0,
            if args.len() == 0 {
                " -- eza --header --long --icons --classify --git --group --color=always"@
            } else {
                " -- eza --header --long --icons --classify --git --group --color=always "@ + args[0]
            },
        ),
        occurs_at(eza_plan(args, flags).0, placement_text(default_placed(flags)), 32),
        eza_plan(args, flags).1 == "Failed to launch eza"@,
{
    let f = ZellijFloatView { args: eza_options() + first_only(args), ..plain_float("eza"@, "eza"@) };
    lemma_float_command_ends(f, flags);
    lemma_float_command_placement(f, flags);
    lemma_name_len("eza"@);
    lemma_eza_options_joined();
    let opts = "--header --long --icons --classify --git --group --color=always"@;
    reveal_strlit("zellij run --floating --name eza --height ");
    reveal_strlit("zellij run --floating --name ");
    reveal_strlit("eza");
    reveal_strlit(" --height ");
    reveal_strlit(" -- eza --header --long --icons --classify --git --group --color=always");
    reveal_strlit(" -- eza --header --long --icons --classify --git --group --color=always ");
    reveal_strlit("--header --long --icons --classify --git --group --color=always");
    reveal_strlit(" -- ");
    reveal_strlit(" ");
    assert("zellij run --floating --name "@ + "eza"@ + when(false, " --pinned true"@) + when(
        false,
        " --close-on-exit"@,
    ) + " --height "@ =~= "zellij run --floating --name eza --height "@);
    if args.len() == 0 {
        assert(f.args =~= eza_options());
        assert(" -- "@ + "eza"@ + (" "@ + opts)
            =~= " -- eza --header --long --icons --classify --git --group --color=always"@);
    } else {
        assert(f.args =~= eza_options().push(args[0]));
        lemma_join_push(eza_options(), args[0], " "@);
        assert(" -- "@ + "eza"@ + (" "@ + (opts + " "@ + args[0]))
            =~= " -- eza --header --long --icons --classify --git --group --color=always "@ + args[0]);
    }
}

/// `mdcat` fails exactly when it is given no file; with one it pages the
/// first argument with `--paginate`, in a pane called `canvas` that closes
/// on exit.
#[verifier::rlimit(40)]
pub proof fn lemma_mdcat_command(args: Seq<Seq<char>>, flags: GeometryView)
    ensures
        args.len() == 0 <==> mdcat_plan(args, flags) == Err::<(Seq<char>, Seq<char>), FloatErrorView>(
            FloatErrorView::MissingFile,
        ),
        args.len() > 0 ==> (mdcat_plan(args, flags) matches Ok(p) && starts_with(
            p.0,
            "zellij run --floating --name canvas --close-on-exit --height "@,
        ) && ends_with(p.0, " -- mdcat --paginate "@ + args[0]) && occurs_at(
            p.0,
            placement_text(default_placed(flags)),
            51,
        ) && p.1 == "Failed to launch mdcat"@),
{
    if args.len() > 0 {
        let f = ZellijFloatView {
            close_on_exit: true,
            args: seq!["--paginate"@, args[0]],
            ..plain_float("canvas"@, "mdcat"@)
        };
        lemma_float_command_ends(f, flags);
        lemma_float_command_placement(f, flags);
        lemma_name_len("canvas"@);
        reveal_strlit("zellij run --floating --name canvas --close-on-exit --height ");
        reveal_strlit("zellij run --floating --name ");
        reveal_strlit("canvas");
        reveal_strlit(" --close-on-exit");
        reveal_strlit(" --height ");
        reveal_strlit(" -- mdcat --paginate ");
        reveal_strlit(" -- ");
        reveal_strlit(" ");
        reveal_strlit("mdcat");
        reveal_strlit("--paginate");
        assert("zellij run --floating --name "@ + "canvas"@ + when(false, " --pinned true"@) + when(
            true,
            " --close-on-exit"@,
        ) + " --height "@ =~= "zellij run --floating --name canvas --close-on-exit --height "@);
        assert(f.args =~= Seq::<Seq<char>>::empty().push("--paginate"@).push(args[0]));
        lemma_join_push(Seq::empty(), "--paginate"@, " "@);
        lemma_join_push(Seq::<Seq<char>>::empty().push("--paginate"@), args[0], " "@);
        assert(" -- "@ + "mdcat"@ + (" "@ + ("--paginate"@ + " "@ + args[0]))
            =~= " -- mdcat --paginate "@ + args[0]);
    }
}


/// An editor opens the first argument, if any, with the program `call`, in a
/// pane called `name` that closes on exit.
#[verifier::rlimit(40)]
pub proof fn lemma_editor_command(args: Seq<Seq<char>>, flags: GeometryView, call: Seq<char>, name: Seq<char>)
    ensures
        starts_with(
            editor_plan(args, flags, call, name).0,
            "zellij run --floating --name "@ + name + " --close-on-exit --height "@,
        ),
        occurs_at(editor_plan(args, flags, call, name).0, placement_text(default_placed(flags)), 45 + name.len() as int),
        ends_with(
            editor_plan(args, flags, call, name).0,
            " -- "@ + call + (if args.len() == 0 { Seq::empty() } else { " "@ + args[0] }),
        ),
        editor_plan(args, flags, call, name).1 == "Failed to launch "@ + name + " editor"@,
{
    let f = ZellijFloatView { close_on_exit: true, args: first_only(args), ..plain_float(name, call) };
    lemma_float_command_ends(f, flags);
    lemma_float_command_placement(f, flags);
    reveal_strlit(" --close-on-exit");
    reveal_strlit(" --height ");
    reveal_strlit(" --close-on-exit --height ");
    assert("zellij run --floating --name "@ + name + when(false, " --pinned true"@) + when(
        true,
        " --close-on-exit"@,
    ) + " --height "@ =~= "zellij run --floating --name "@ + name + " --close-on-exit --height "@);
    if args.len() == 0 {
        assert(f.args =~= Seq::<Seq<char>>::empty());
        assert(" -- "@ + call + when(false, " "@) =~= " -- "@ + call + Seq::empty());
    } else {
        assert(f.args =~= Seq::<Seq<char>>::empty().push(args[0]));
        lemma_join_push(Seq::empty(), args[0], " "@);
    }
}

/// `just watch` runs in a pinned pane called `watch` that closes on exit.
#[verifier::rlimit(40)]
pub proof fn lemma_watch_command(flags: GeometryView)
    ensures
        starts_with(
            watch_plan(flags).0,
            "zellij run --floating --name watch --pinned true --close-on-exit --height "@,
        ),
        occurs_at(watch_plan(flags).0, placement_text(default_placed(flags)), 64),
        ends_with(watch_plan(flags).0, " -- just watch"@),
        watch_plan(flags).1 == "Failed to launch watch command"@,
{
    let f = ZellijFloatView {
        close_on_exit: true,
        pinned: true,
        args: seq!["watch"@],
        ..plain_float("watch"@, "just"@)
    };
    lemma_float_command_ends(f, flags);
    lemma_float_command_placement(f, flags);
    lemma_name_len("watch"@);
    reveal_strlit("zellij run --floating --name watch --pinned true --close-on-exit --height ");
    reveal_strlit("zellij run --floating --name ");
    reveal_strlit("watch");
    reveal_strlit(" --pinned true");
    reveal_strlit(" --close-on-exit");
    reveal_strlit(" --height ");
    reveal_strlit(" -- just watch");
    reveal_strlit(" -- ");
    reveal_strlit("just");
    reveal_strlit(" ");
    assert("zellij run --floating --name "@ + "watch"@ + when(true, " --pinned true"@) + when(
        true,
        " --close-on-exit"@,
    ) + " --height "@ =~= "zellij run --floating --name watch --pinned true --close-on-exit --height "@);
    assert(f.args =~= Seq::<Seq<char>>::empty().push("watch"@));
    lemma_join_push(Seq::empty(), "watch"@, " "@);
    assert(" -- "@ + "just"@ + (" "@ + "watch"@) =~= " -- just watch"@);
}

/// yazi runs with no arguments in a pane called `yazi` that closes on exit.
#[verifier::rlimit(40)]
pub proof fn lemma_yazi_command(flags: GeometryView)
    ensures
        starts_with(yazi_plan(flags).0, "zellij run --floating --name yazi --close-on-exit --height "@),
        occurs_at(yazi_plan(flags).0, placement_text(default_placed(flags)), 49),
        ends_with(yazi_plan(flags).0, " -- yazi"@),
        yazi_plan(flags).1 == "Failed to launch yazi"@,
{
    let f = ZellijFloatView { close_on_exit: true, ..plain_float("yazi"@, "yazi"@) };
    lemma_float_command_ends(f, flags);
    lemma_float_command_placement(f, flags);
    lemma_name_len("yazi"@);
    reveal_strlit("zellij run --floating --name yazi --close-on-exit --height ");
    reveal_strlit("zellij run --floating --name ");
    reveal_strlit("yazi");
    reveal_strlit(" --close-on-exit");
    reveal_strlit(" --height ");
    reveal_strlit(" -- yazi");
    reveal_strlit(" -- ");
    assert("zellij run --floating --name "@ + "yazi"@ + when(false, " --pinned true"@) + when(
        true,
        " --close-on-exit"@,
    ) + " --height "@ =~= "zellij run --floating --name yazi --close-on-exit --height "@);
    assert(" -- "@ + "yazi"@ + when(false, " "@) =~= " -- yazi"@);
}


/// lazygit opens in the layout named by the first argument (`full` where
/// there is none), pinned and closed on exit; it fails exactly when no preset
/// has that name.
#[verifier::rlimit(40)]
pub proof fn lemma_lazygit_command(args: Seq<Seq<char>>, flags: GeometryView)
    ensures
        ({
            let layout = if args.len() == 0 { "full"@ } else { args[0] };
            &&& (lazygit_plan(args, flags) is Ok <==> preset(layout) is Some)
            &&& (lazygit_plan(args, flags) matches Err(e) ==> e == (FloatErrorView::UnknownLayout {
                name: layout,
            }))
            &&& (lazygit_plan(args, flags) matches Ok(p) ==> {
                &&& starts_with(
                    p.0,
                    "zellij run --floating --name lazygit --pinned true --close-on-exit --height "@,
                )
                &&& occurs_at(
                    p.0,
                    placement_text(override_geometry(preset(layout).unwrap(), flags)),
                    66,
                )
                &&& ends_with(p.0, " -- lazygit"@)
                &&& p.1 == "Failed to launch lazygit"@
            })
        }),
{
    let layout = if args.len() == 0 { "full"@ } else { args[0] };
    if let Some(pg) = preset(layout) {
        let g = override_geometry(pg, flags);
        let f = ZellijFloatView {
            close_on_exit: true,
            pinned: true,
            geometry: Some(g),
            ..plain_float("lazygit"@, "lazygit"@)
        };
        lemma_float_command_ends(f, flags);
        lemma_float_command_placement(f, flags);
        lemma_name_len("lazygit"@);
        reveal_strlit("zellij run --floating --name lazygit --pinned true --close-on-exit --height ");
        reveal_strlit("zellij run --floating --name ");
        reveal_strlit("lazygit");
        reveal_strlit(" --pinned true");
        reveal_strlit(" --close-on-exit");
        reveal_strlit(" --height ");
        reveal_strlit(" -- lazygit");
        reveal_strlit(" -- ");
        assert("zellij run --floating --name "@ + "lazygit"@ + when(true, " --pinned true"@) + when(
            true,
            " --close-on-exit"@,
        ) + " --height "@
            =~= "zellij run --floating --name lazygit --pinned true --close-on-exit --height "@);
        assert(" -- "@ + "lazygit"@ + when(false, " "@) =~= " -- lazygit"@);
    }
}

/// The shell of a float command with no subcommand opens in the layout it
/// names (`default` where it names none), in a pane called `canvas` that
/// closes on exit; it fails exactly when no preset has that name.
#[verifier::rlimit(40)]
pub proof fn lemma_float_shell_command(cmd: FloatCmd)
    requires
        cmd.subcommand is None,
    ensures
        ({
            let layout = match cmd.layout {
                Some(l) => l@,
                None => "default"@,
            };
            let flags = geometry_of(cmd.height@, cmd.width@, cmd.x@, cmd.y@);
            &&& (cmd.plan() is Ok <==> preset(layout) is Some)
            &&& (cmd.plan() matches Err(e) ==> e == (FloatErrorView::UnknownLayout { name: layout }))
            &&& (cmd.plan() matches Ok(p) ==> {
                &&& starts_with(p.0, "zellij run --floating --name canvas --close-on-exit --height "@)
                &&& occurs_at(
                    p.0,
                    placement_text(override_geometry(preset(layout).unwrap(), flags)),
                    51,
                )
                &&& ends_with(p.0, " -- zsh"@)
                &&& p.1 == "Failed to launch floating shell"@
            })
        }),
{
    let layout = cmd.layout_name();
    let flags = cmd.flags_view();
    if let Some(pg) = preset(layout) {
        let g = override_geometry(pg, flags);
        let f = ZellijFloatView { close_on_exit: true, geometry: Some(g), ..plain_float("canvas"@, "zsh"@) };
        lemma_float_command_ends(f, flags);
        lemma_float_command_placement(f, flags);
        lemma_name_len("canvas"@);
        reveal_strlit("zellij run --floating --name canvas --close-on-exit --height ");
        reveal_strlit("zellij run --floating --name ");
        reveal_strlit("canvas");
        reveal_strlit(" --close-on-exit");
        reveal_strlit(" --height ");
        reveal_strlit(" -- zsh");
        reveal_strlit(" -- ");
        reveal_strlit("zsh");
        assert("zellij run --floating --name "@ + "canvas"@ + when(false, " --pinned true"@) + when(
            true,
            " --close-on-exit"@,
        ) + " --height "@ =~= "zellij run --floating --name canvas --close-on-exit --height "@);
        assert(" -- "@ + "zsh"@ + when(false, " "@) =~= " -- zsh"@);
    }
}

/// Resizing renames the pane `float` and moves it to the layout named by the
/// first argument (`default` where there is none); it fails exactly when no
/// preset has that name.
#[verifier::rlimit(40)]
pub proof fn lemma_resize_command(args: Seq<Seq<char>>, flags: GeometryView)
    ensures
        ({
            let layout = if args.len() == 0 { "default"@ } else { args[0] };
            &&& (resize_plan(args, flags) is Ok <==> preset(layout) is Some)
            &&& (resize_plan(args, flags) matches Err(e) ==> e == (FloatErrorView::UnknownLayout {
                name: layout,
            }))
            &&& (resize_plan(args, flags) matches Ok(p) ==> {
                let g = override_geometry(preset(layout).unwrap(), flags);
                &&& starts_with(
                    p.0,
                    "zellij action rename-pane float\nzellij action change-floating-pane-coordinates --pane-id $ZELLIJ_PANE_ID --height "@
                        + g.height + " --width "@,
                )
                &&& ends_with(p.0, " --width "@ + g.width + " --x "@ + g.x + " --y "@ + g.y)
                &&& p.1 == "Failed to resize floating pane"@
            })
        }),
{
    let layout = if args.len() == 0 { "default"@ } else { args[0] };
    if let Some(pg) = preset(layout) {
        let g = override_geometry(pg, flags);
        let a = "zellij action rename-pane float\nzellij action change-floating-pane-coordinates --pane-id $ZELLIJ_PANE_ID --height "@
            + g.height;
        let b = " --width "@;
        let c = g.width + " --x "@ + g.x + " --y "@ + g.y;
        assert(resize_script(g) =~= (a + b) + c);
        assert(resize_script(g) =~= a + (b + c));
        lemma_starts_with_concat(a + b, c);
        lemma_ends_with_concat(a, b + c);
        assert(b + c =~= " --width "@ + g.width + " --x "@ + g.x + " --y "@ + g.y);
    }
}

/// Each subcommand opens its own tool: the pane carries the tool's name, or
/// for `resize` the current pane is renamed `float`.
#[verifier::rlimit(40)]
pub proof fn lemma_subcommands_open_their_tools(sub: FloatSubcommands, flags: GeometryView)
    ensures
        sub matches FloatSubcommands::Bat(a) ==> (subcommand_plan(sub, flags) matches Ok(p)
            && starts_with(p.0, "zellij run --floating --name bat --close-on-exit --height "@)),
        sub matches FloatSubcommands::Eza(a) ==> (subcommand_plan(sub, flags) matches Ok(p)
            && starts_with(p.0, "zellij run --floating --name eza --height "@)),
        sub matches FloatSubcommands::Helix(a) ==> (subcommand_plan(sub, flags) matches Ok(p)
            && starts_with(p.0, "zellij run --floating --name "@ + "helix"@ + " --close-on-exit --height "@)
            && ends_with(p.0, " -- "@ + "hx"@ + (if a@.len() == 0 { Seq::empty() } else { " "@ + a@[0] }))),
        sub matches FloatSubcommands::Micro(a) ==> (subcommand_plan(sub, flags) matches Ok(p)
            && starts_with(p.0, "zellij run --floating --name "@ + "micro"@ + " --close-on-exit --height "@)
            && ends_with(p.0, " -- "@ + "micro"@ + (if a@.len() == 0 { Seq::empty() } else { " "@ + a@[0] }))),
        sub matches FloatSubcommands::Lazygit(a) ==> (subcommand_plan(sub, flags) matches Ok(p) ==> starts_with(
            p.0,
            "zellij run --floating --name lazygit --pinned true --close-on-exit --height "@,
        )),
        sub matches FloatSubcommands::Mdcat(a) ==> (subcommand_plan(sub, flags) matches Ok(p) ==> starts_with(
            p.0,
            "zellij run --floating --name canvas --close-on-exit --height "@,
        )) && (subcommand_plan(sub, flags) is Err <==> a@.len() == 0),
        sub matches FloatSubcommands::Resize(a) ==> (subcommand_plan(sub, flags) matches Ok(p) ==> starts_with(
            p.0,
            "zellij action rename-pane float\nzellij action change-floating-pane-coordinates --pane-id $ZELLIJ_PANE_ID --height "@,
        )),
        sub matches FloatSubcommands::Watch(a) ==> (subcommand_plan(sub, flags) matches Ok(p) && starts_with(
            p.0,
            "zellij run --floating --name watch --pinned true --close-on-exit --height "@,
        )),
        sub matches FloatSubcommands::Yazi(a) ==> (subcommand_plan(sub, flags) matches Ok(p)
            && starts_with(p.0, "zellij run --floating --name yazi --close-on-exit --height "@)),
{
    match sub {
        FloatSubcommands::Bat(a) => lemma_bat_command(a@, flags),
        FloatSubcommands::Eza(a) => lemma_eza_command(a@, flags),
        FloatSubcommands::Helix(a) => lemma_editor_command(a@, flags, "hx"@, "helix"@),
        FloatSubcommands::Micro(a) => lemma_editor_command(a@, flags, "micro"@, "micro"@),
        FloatSubcommands::Lazygit(a) => lemma_lazygit_command(a@, flags),
        FloatSubcommands::Mdcat(a) => lemma_mdcat_command(a@, flags),
        FloatSubcommands::Resize(a) => {
            lemma_resize_command(a@, flags);
            let layout = if a@.len() == 0 { "default"@ } else { a@[0] };
            if let Ok(p) = subcommand_plan(sub, flags) {
                let g = override_geometry(preset(layout).unwrap(), flags);
                let pre = "zellij action rename-pane float\nzellij action change-floating-pane-coordinates --pane-id $ZELLIJ_PANE_ID --height "@;
                assert((pre + g.height + " --width "@).subrange(0, pre.len() as int) =~= pre);
                assert(p.0.subrange(0, pre.len() as int) =~= (pre + g.height + " --width "@).subrange(
                    0,
                    pre.len() as int,
                ));
            }
        },
        FloatSubcommands::Watch(_) => lemma_watch_command(flags),
        FloatSubcommands::Yazi(_) => lemma_yazi_command(flags),
    }
}


/// The presets, quoted and listed, as a list literal.
#[verifier::rlimit(60)]
proof fn lemma_layouts_listed_text()
    ensures
        layouts_listed()
            == "[\"full\", \"half-left\", \"half-right\", \"top-left\", \"bottom-left\", \"top-right\", \"bottom-right\", \"default\"]"@,
{
    let sep = ", "@;
    let q = layout_names().map_values(|n: Seq<char>| quoted(n));
    let p1 = Seq::<Seq<char>>::empty().push(quoted("full"@));
    let p2 = p1.push(quoted("half-left"@));
    let p3 = p2.push(quoted("half-right"@));
    let p4 = p3.push(quoted("top-left"@));
    let p5 = p4.push(quoted("bottom-left"@));
    let p6 = p5.push(quoted("top-right"@));
    let p7 = p6.push(quoted("bottom-right"@));
    let p8 = p7.push(quoted("default"@));
    assert(q =~= p8);
    lemma_join_push(Seq::empty(), quoted("full"@), sep);
    lemma_join_push(p1, quoted("half-left"@), sep);
    lemma_join_push(p2, quoted("half-right"@), sep);
    lemma_join_push(p3, quoted("top-left"@), sep);
    lemma_join_push(p4, quoted("bottom-left"@), sep);
    lemma_join_push(p5, quoted("top-right"@), sep);
    lemma_join_push(p6, quoted("bottom-right"@), sep);
    lemma_join_push(p7, quoted("default"@), sep);
    reveal_strlit("[");
    reveal_strlit("]");
    reveal_strlit(", ");
    reveal_strlit("\"");
    reveal_strlit("full");
    reveal_strlit("half-left");
    reveal_strlit("half-right");
    reveal_strlit("top-left");
    reveal_strlit("bottom-left");
    reveal_strlit("top-right");
    reveal_strlit("bottom-right");
    reveal_strlit("default");
    reveal_strlit(
        "[\"full\", \"half-left\", \"half-right\", \"top-left\", \"bottom-left\", \"top-right\", \"bottom-right\", \"default\"]",
    );
    assert(layouts_listed()
        =~= "[\"full\", \"half-left\", \"half-right\", \"top-left\", \"bottom-left\", \"top-right\", \"bottom-right\", \"default\"]"@);
}

/// An unknown layout is reported with its full name in quotes, followed by
/// the list of every preset name.
pub proof fn lemma_unknown_layout_message(name: Seq<char>)
    ensures
        starts_with(
            error_message(FloatErrorView::UnknownLayout { name }),
            "Unknown layout '"@ + name + "' (must be one of: "@,
        ),
        ends_with(
            error_message(FloatErrorView::UnknownLayout { name }),
            "[\"full\", \"half-left\", \"half-right\", \"top-left\", \"bottom-left\", \"top-right\", \"bottom-right\", \"default\"])"@,
        ),
        error_message(FloatErrorView::UnknownLayout { name }).len() == 16 + name.len() + 19 + 103,
{
    lemma_layouts_listed_text();
    let a = "Unknown layout '"@ + name + "' (must be one of: "@;
    let l = "[\"full\", \"half-left\", \"half-right\", \"top-left\", \"bottom-left\", \"top-right\", \"bottom-right\", \"default\"]"@;
    let t = "[\"full\", \"half-left\", \"half-right\", \"top-left\", \"bottom-left\", \"top-right\", \"bottom-right\", \"default\"])"@;
    reveal_strlit("Unknown layout '");
    reveal_strlit("' (must be one of: ");
    reveal_strlit(")");
    reveal_strlit(
        "[\"full\", \"half-left\", \"half-right\", \"top-left\", \"bottom-left\", \"top-right\", \"bottom-right\", \"default\"]",
    );
    reveal_strlit(
        "[\"full\", \"half-left\", \"half-right\", \"top-left\", \"bottom-left\", \"top-right\", \"bottom-right\", \"default\"])",
    );
    assert(l + ")"@ =~= t);
    assert(error_message(FloatErrorView::UnknownLayout { name }) =~= a + t);
    lemma_starts_with_concat(a, t);
    lemma_ends_with_concat(a, t);
}

} // verus!
