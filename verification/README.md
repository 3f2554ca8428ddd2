# color_ssh

The logic of the interactive session manager of Color SSH (`cossh`), written
in Verus: every function in `src/` carries a contract that Verus proves.

- `src/` — the verified library: the host tree and its search, the tab bar,
  key and mouse routing, the text fields of the forms and prompts, terminal
  search, selection, OSC 52 and terminal query handling of PTY output, the
  folder picker and the decisions taken after inventory changes and vault
  queries. Laws that relate several functions are public proof functions
  beside them.
- `tests/` — tests run against the compiled library.
- `app/` — the terminal-facing rest: converting crossterm events into the
  library's inputs, writing to the terminal and to PTYs, reading the clock
  and the configuration directory.

Outside crates:

- `crossterm` and `chrono` are used by `app/` only: crossterm's key and
  mouse events are converted into the library's `KeyInput` and `MouseInput`,
  and chrono formats the vault's lock time in local time.
- `ratatui` (drawing) is not used. The library has its own `Rect`, and
  what is drawn is computed as plain values: info and status spans, host
  list lines, modal layouts, form value windows, cell highlights
  (`cell_style`) and the failed-session notice.
- `vt100` (terminal emulation) is not used. Screen contents reach the
  library as rows of cell strings (`selection`, `terminal_scan`), and a
  cell's colours as `TermColor`.
- `portable_pty` (PTYs) is not used. The library decides PTY sizes and
  resizes (`launch_policy`) and builds the `cossh` argument lists; spawning
  the processes is left to the caller.
