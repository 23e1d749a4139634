# flicker

A terminal console for the person who threads the projector: what is
playing, what is arriving and what is straining across a homelab, in one
terminal. Sources (Tautulli, Plex, the *arr family, qBittorrent, NZBGet,
SABnzbd, Overseerr, Glances, ssh hosts, Prometheus, Uptime Kuma,
speedtest-tracker, and Jax the booth mascot) each poll their
service and hand back a plain-data panel; the console lays panels out on
screens, and destructive actions always ask first.

## Layout

- `src/` is the library, verified with Verus: the panel model, the
  console's key-and-event state machine with its laws (destructive actions
  route through the confirm, only an explicit `y` fires, steps undo each
  other, poll errors keep the last panel), the config and command line,
  each source's decisions (rows, badges, footers, what an action sends),
  Jax's scenes, the `--demo` reel, and the text helpers they rest on.
- `tests/` runs the library on concrete values.
- `app/` is the program around it: the terminal (ratatui, crossterm), the
  network (reqwest, ssh), the async workers (tokio), the config file
  (serde, toml), and the figures services report as floating point.

`flicker --demo` walks a full fake homelab with no network at all;
`flicker --init` writes a commented example config; `flicker --check`
polls every configured source once and reports.
