use vstd::prelude::*;
use crate::cmd::launch::LaunchCmd;
use crate::cmds::float::{
    fallbacks, plan_view, subcommand_plan, FloatCmd, FloatError, FloatSubArgs, FloatSubcommands,
};
use crate::util::shell::ShellPlan;
use crate::cmds::tab::TabCmd;
use crate::text::owned;

verus! {

/// The parsed command line.
pub struct Cli {
    pub command: Command,
    /// Enable verbose diagnostics
    pub verbose: bool,
}

pub enum Command {
    /// Delete all Zellij sessions
    Clean,
    /// Kill the current Zellij session
    Kill,
    /// Launch a new Zellij session with a custom layout
    Launch(LaunchCmd),
    /// List Zellij sessions
    List,
    /// Rename current Zellij tab to working directory
    Name,
    /// Monitor system through Zellij tab
    Monitor,
    /// Stack a new pane in current tab
    Stack,
    /// Create a new Zellij tab with layout
    Tab(TabCmd),
    /// Run Zellij update layout
    Update,
    /// Open a floating pane in Zellij
    Float(FloatCmd),
    /// View file with bat in floating pane
    Bat(FloatSubArgs),
    /// Browse directory with eza in floating pane
    Eza(FloatSubArgs),
    /// Edit with Helix in floating pane
    Helix(FloatSubArgs),
    /// Open lazygit in floating pane
    Lazygit(FloatSubArgs),
    /// Render Markdown with mdcat in floating pane
    Mdcat(FloatSubArgs),
    /// Edit with micro in floating pane
    Micro(FloatSubArgs),
    /// Resize current floating pane
    Resize(FloatSubArgs),
    /// Run 'just watch' in floating pane
    Watch(FloatSubArgs),
    /// Open yazi file manager in floating pane
    Yazi(FloatSubArgs),
    /// Print identity
    Identity,
    /// Generate shell completions
    Completion {
        /// Shell for which to generate completions
        shell: Shell,
    },
}

#[derive(Clone, Copy)]
pub enum Shell {
    Bash,
    Zsh,
    Fish,
    Powershell,
}

impl Default for FloatCmd {
    /// The float command with every flag at its default and no layout or
    /// subcommand.
    fn default() -> (r: FloatCmd)
        ensures
            r.height@ == "100%"@,
            r.width@ == "95%"@,
            r.x@ == "10"@,
            r.y@ == "0"@,
            r.flags_view() == fallbacks(),
            r.layout is None,
            r.subcommand is None,
    {
        FloatCmd {
            height: owned("100%"),
            width: owned("95%"),
            x: owned("10"),
            y: owned("0"),
            layout: None,
            subcommand: None,
        }
    }
}

/// The script of a tool named as a command of its own (`zero bat`, ...): the
/// same as under `float`, with every geometry flag at its default.
pub fn run_tool(tool: FloatSubcommands) -> (r: Result<ShellPlan, FloatError>)
    ensures
        plan_view(r) == subcommand_plan(tool, fallbacks()),
{
    tool.run(&FloatCmd::default())
}

} // verus!
