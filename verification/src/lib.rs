//! Builds the shell scripts, working directories and session layouts of a
//! Zellij workspace helper, each proved against its specification.

pub mod cli;
pub mod cmd;
pub mod cmds;
pub mod text;
pub mod util;
