//! Fixed configuration values shared across the crate.

use vstd::prelude::*;
use crate::config::BarEdge;

verus! {

pub const CONFIG_DIR_NAME: &'static str = "yasb";
pub const CONFIG_FILENAME: &'static str = "config.yaml";
pub const STYLES_FILENAME: &'static str = "styles.scss";
pub const APP_LOG_FILENAME: &'static str = "yasb.log";
pub const APP_NAME: &'static str = "yasb";

pub const DEFAULT_BAR_THICKNESS: u32 = 64;
pub const DEFAULT_BAR_EDGE: BarEdge = BarEdge::Top;
pub const DEFAULT_BAR_TRANSPARENCY: bool = true;
pub const DEFAULT_BAR_WINAPPBAR: bool = true;
pub const DEFAULT_BAR_ALWAYSONTOP: bool = false;

/// Fixed delay between subscribe retries on the external window manager's
/// channel, in milliseconds.
pub const SUBSCRIBE_RETRY_MS: u64 = 1000;

/// Delay before rebuilding after a display-topology change, letting the OS
/// settle the new monitor set, in milliseconds.
pub const DISPLAY_SETTLE_MS: u64 = 1000;

/// Cadence of the fullscreen polling loop, in milliseconds.
pub const FULLSCREEN_POLL_MS: u64 = 500;

} // verus!
