//! Fullscreen detection and the per-bar auto-hide state machine.

use vstd::prelude::*;
use crate::config::YasbConfig;
use crate::events::BarEvent;
use crate::geometry::Rect;
use crate::text::str_eq;

verus! {

/// Whether the auto-hide watcher runs at all: decided once, from the
/// configuration snapshot at startup, by whether any bar is always-on-top.
pub fn auto_hide_enabled(config: &YasbConfig) -> (r: bool)
    ensures
        r == exists|j: int|
            0 <= j < config.bars@.len() && (#[trigger] config.bars@[j].config.always_on_top),
{
    let n = config.bars.len();
    let mut j: usize = 0;
    while j < n
        invariant
            j <= n,
            n == config.bars@.len(),
            forall|t: int| 0 <= t < j ==> !(#[trigger] config.bars@[t].config.always_on_top),
        decreases n - j,
    {
        if config.bars[j].config.always_on_top {
            return true;
        }
        j = j + 1;
    }
    false
}

/// OS user-notification states that signal a fullscreen or presentation
/// application somewhere on the system.
pub const QUNS_BUSY: u32 = 2;

pub const QUNS_RUNNING_D3D_FULL_SCREEN: u32 = 3;

pub const QUNS_PRESENTATION_MODE: u32 = 4;

/// Whether the queried user-notification state means a fullscreen,
/// presentation-mode, or do-not-disturb application is active system-wide.
pub fn is_fullscreen_present(state: u32) -> (r: bool)
    ensures
        r == (state == QUNS_BUSY || state == QUNS_RUNNING_D3D_FULL_SCREEN || state
            == QUNS_PRESENTATION_MODE),
{
    state == QUNS_BUSY || state == QUNS_RUNNING_D3D_FULL_SCREEN || state == QUNS_PRESENTATION_MODE
}

/// Benign desktop-shell window classes that can cover a monitor without
/// being a real fullscreen application.
pub open spec fn spec_ignored_fullscreen_class(s: Seq<char>) -> bool {
    ||| s == "SHELLDLL_DefView"@
    ||| s == "WorkerW"@
    ||| s == "XamlExplorerHostIslandWindow"@
}

fn is_ignored_fullscreen_class(s: &str) -> (r: bool)
    ensures
        r == spec_ignored_fullscreen_class(s@),
{
    str_eq(s, "SHELLDLL_DefView") || str_eq(s, "WorkerW") || str_eq(
        s,
        "XamlExplorerHostIslandWindow",
    )
}

/// The containment rule: the window's bounds are a superset of the
/// monitor's bounds. Chosen over exact edge equality as the safer, more
/// permissive reading.
pub open spec fn spec_covers_monitor(top: Rect, monitor: Rect) -> bool {
    &&& top.x <= monitor.x
    &&& top.y <= monitor.y
    &&& top.x + top.width >= monitor.x + monitor.width
    &&& top.y + top.height >= monitor.y + monitor.height
}

/// Whether the topmost window on a monitor covers it entirely and is not a
/// benign desktop-shell window.
pub fn is_monitor_fullscreen(monitor: &Rect, top_window: &Rect, top_class: &str) -> (r: bool)
    ensures
        r == (!spec_ignored_fullscreen_class(top_class@) && spec_covers_monitor(
            *top_window,
            *monitor,
        )),
{
    if is_ignored_fullscreen_class(top_class) {
        return false;
    }
    let top_right: i64 = top_window.x as i64 + top_window.width as i64;
    let top_bottom: i64 = top_window.y as i64 + top_window.height as i64;
    let mon_right: i64 = monitor.x as i64 + monitor.width as i64;
    let mon_bottom: i64 = monitor.y as i64 + monitor.height as i64;
    top_window.x <= monitor.x && top_window.y <= monitor.y && top_right >= mon_right && top_bottom
        >= mon_bottom
}

/// Visibility of one bar instance under the auto-hide watcher.
#[derive(Debug, Clone, Copy, PartialEq, Eq, Structural)]
pub struct BarVisibility {
    pub visible: bool,
}

/// One watcher tick: the visibility after it and the intent it emits.
pub open spec fn spec_tick(visible: bool, should_hide: bool) -> (bool, Option<BarEvent>) {
    if should_hide {
        if visible {
            (false, Some(BarEvent::HideWindowEvent))
        } else {
            (false, None)
        }
    } else {
        if visible {
            (true, None)
        } else {
            (true, Some(BarEvent::ShowWindowEvent))
        }
    }
}

impl BarVisibility {
    pub fn new_shown() -> (r: BarVisibility)
        ensures
            r.visible,
    {
        BarVisibility { visible: true }
    }

    /// One tick of the polling loop for this instance: hide while a
    /// fullscreen application covers the instance's monitor, show again
    /// once none does, emitting an intent only on a transition.
    pub fn tick(&mut self, fullscreen_signal: bool, monitor_covered: bool) -> (r: Option<BarEvent>)
        ensures
            ({
                let should_hide = fullscreen_signal && monitor_covered;
                &&& final(self).visible == spec_tick(old(self).visible, should_hide).0
                &&& r == spec_tick(old(self).visible, should_hide).1
            }),
    {
        let should_hide = fullscreen_signal && monitor_covered;
        if should_hide {
            if self.visible {
                self.visible = false;
                Some(BarEvent::HideWindowEvent)
            } else {
                None
            }
        } else {
            if self.visible {
                None
            } else {
                self.visible = true;
                Some(BarEvent::ShowWindowEvent)
            }
        }
    }
}

/// Law: hide/show intents are monotonic over the loop's ticks: a tick that
/// emitted an intent leaves a state in which an immediate tick under the
/// same conditions emits nothing, so no transition is ever emitted twice in
/// a row.
pub proof fn lemma_tick_monotonic(visible: bool, should_hide: bool)
    ensures
        ({
            let first = spec_tick(visible, should_hide);
            let second = spec_tick(first.0, should_hide);
            first.1 is Some ==> second.1 is None
        }),
{
}

} // verus!
