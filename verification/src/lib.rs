//! Platform-integration core of a multi-monitor status-bar shell: edge
//! reservation geometry, bar lifecycle planning, fullscreen auto-hide,
//! display-change handling, the external window manager event bridge, and
//! live configuration reloading.

pub mod bridge;
pub mod commands;
pub mod config;
pub mod constants;
pub mod display;
pub mod events;
pub mod fullscreen;
pub mod geometry;
pub mod komorebi;
pub mod lifecycle;
pub mod paths;
pub mod reservation;
pub mod text;
pub mod utils;
pub mod watcher;
pub mod widgets;
