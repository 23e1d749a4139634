//! Flicker, the space between frames: a pluggable homelab console, and this
//! is its verified core.
//!
//! - `panel`: the plain-data model every source hands the console.
//! - `app`, `mood`: the console's state machine (keys, overlays, worker
//!   reports, the status line) and what Jax makes of it.
//! - `config`, `registry`, `cli`, `worker`: what the config and the command
//!   line ask for, which kinds exist, and how a source's worker proceeds.
//! - the sources' own decisions: `tautulli`, `arr`, `qbit`, `nzbget`,
//!   `overseerr`, `glances`, `ssh`, `jax`, `plex`, `sabnzbd`, `prometheus`,
//!   `kuma` (Uptime Kuma) and `speedtest`.
//! - `disks`: which disks a host panel shows; `demo`: the `--demo` reel.
//! - `scene`, `look`: Jax's animation frames, the palette, the proportions
//!   and how a slot's frame is drawn.
//! - `text`, `util`: character-level helpers with their specifications.

pub mod text;
pub mod util;
pub mod panel;
pub mod config;
pub mod registry;
pub mod cli;
pub mod worker;
pub mod app;
pub mod mood;
pub mod scene;
pub mod look;
pub mod tautulli;
pub mod arr;
pub mod qbit;
pub mod nzbget;
pub mod overseerr;
pub mod glances;
pub mod ssh;
pub mod jax;
pub mod plex;
pub mod sabnzbd;
pub mod speedtest;
pub mod kuma;
pub mod prometheus;
pub mod policy;
pub mod demo;
pub mod disks;
