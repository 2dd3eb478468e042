# trayd

A system tray for Wayland sessions: a daemon that hosts StatusNotifierItems over
D-Bus, a dmenu bridge (`trayctl`) and a terminal client (`tray-tui`). The two
clients speak a newline-delimited JSON protocol over a Unix socket; the daemon
does not serve that socket yet (it keeps the tray state and answers D-Bus only).

## Layout

- `src/` — the library, written and proved with Verus:
  - `watcher` — the StatusNotifierWatcher registry (who registered, what is announced);
  - `host` — the item cache and the memoised pixmap cache, with their coherence invariant;
  - `menu` — decoding DBusMenu layouts into menu trees;
  - `ipc` — the wire types and how a client reads the daemon's replies;
  - `app` — the terminal client's state machine (keys, navigation, menu levels) and what it draws;
  - `dmenu` — the picker loop of `trayctl`;
  - `paths`, `daemon_config`, `tui_config`, `ctl_cli`, `trayd_cli` — socket and config locations, command lines;
  - `model`, `text`, `keyed`, `error` — shared types and helpers.
- `app/` — the programs around the library: D-Bus, sockets, processes, the
  terminal, configuration files and command-line parsing.
- `tests/` — tests of the library.

Run `trayd`, `trayctl` or `tray-tui` by the binary's name, or give the tool's
name as the first argument.
