//! Named events broadcast over the internal event bus to bar windows.

use vstd::prelude::*;

verus! {

/// Window-level events a bar can receive.
#[derive(Debug, Clone, PartialEq, Eq, Structural)]
pub enum BarEvent {
    HideWindowEvent,
    HideAllWindowsEvent,
    ShowWindowEvent,
    ShowAllWindowsEvent,
    StylesChangedEvent,
}

impl BarEvent {
    /// The event's name on the bus.
    pub fn name(&self) -> (r: &'static str)
        ensures
            *self is HideWindowEvent ==> r@ == "HideWindowEvent"@,
            *self is HideAllWindowsEvent ==> r@ == "HideAllWindowsEvent"@,
            *self is ShowWindowEvent ==> r@ == "ShowWindowEvent"@,
            *self is ShowAllWindowsEvent ==> r@ == "ShowAllWindowsEvent"@,
            *self is StylesChangedEvent ==> r@ == "StylesChangedEvent"@,
    {
        match self {
            BarEvent::HideWindowEvent => "HideWindowEvent",
            BarEvent::HideAllWindowsEvent => "HideAllWindowsEvent",
            BarEvent::ShowWindowEvent => "ShowWindowEvent",
            BarEvent::ShowAllWindowsEvent => "ShowAllWindowsEvent",
            BarEvent::StylesChangedEvent => "StylesChangedEvent",
        }
    }
}

/// Log levels the webview side reports with.
#[derive(Debug, Clone, PartialEq, Eq, Structural)]
pub enum WebviewLogLevel {
    Info,
    Error,
    Debug,
    Trace,
    Warn,
}

/// Events of the active-window widget.
#[derive(Debug, Clone, PartialEq, Eq, Structural)]
pub enum ActiveWindowWidgetEvents {
    ForegroundChanged,
}

/// Events a widget can raise, tagged by widget kind.
#[derive(Debug, Clone, PartialEq, Eq, Structural)]
pub enum WidgetEvent {
    ActiveWindowWidget(ActiveWindowWidgetEvents),
}

} // verus!
