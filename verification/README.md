# zero

A command-line helper for Zellij workspaces: floating panes for common tools
(bat, eza, Helix, lazygit, mdcat, micro, yazi, `just watch`), tabs with
workspace layouts, and sessions laid out over a directory and its git
repositories.

- `src/` is the verified library. It decides what each command does: the
  shell script it runs, the context under which a failure is reported, the
  directory it runs in, and the KDL layout of a launched session. The layout
  presets of floating panes and the way the geometry flags are laid over
  them are stated as spec functions, and every public function is proved
  against them with Verus.
- `app/` is the program around it: command-line parsing with clap, running
  the scripts with `sh -c`, changing directories, reading the directory tree
  and writing the temporary layout file.
- `tests/` runs the library on concrete inputs.
