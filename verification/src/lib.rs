//! A per-monitor status-bar renderer for a tiling window manager.
//!
//! The library holds the pure core of the bar: configuration assembly,
//! screen-geometry extraction, the workspace-slot renderer and its
//! classification rules, the clock, volume, notification and power
//! fragments, the fixed left/center/right line composer, and the
//! reconnect-once fetch policy for the window-manager IPC source. Every
//! function here carries a contract; the process shell around it — screen
//! discovery, sockets, subprocesses and the tick loop — lives outside and
//! hands the library plain values.

pub mod markup;
pub mod scan;
pub mod config;
pub mod workspace;
pub mod fragments;
pub mod screens;

pub use markup::add_reset;
pub use fragments::get_pow;
