//! Display-topology change handling: the decision taken for each message
//! the listener's sentinel window receives.

use vstd::prelude::*;
use crate::constants::DISPLAY_SETTLE_MS;

verus! {

/// The display-configuration-changed window message.
pub const WM_DISPLAYCHANGE: u32 = 0x007E;

/// The window-destroyed message for the listener's own sentinel window.
pub const WM_DESTROY: u32 = 0x0002;

/// What the message-pump thread does with one received message.
#[derive(Debug, Clone, Copy, PartialEq, Eq, Structural)]
pub enum WinProcAction {
    /// Display topology changed: wait the given milliseconds for the OS to
    /// settle the new monitor set, then rebuild all bars from the current
    /// configuration snapshot.
    RebuildAfterSettle(u64),
    /// The sentinel window is gone: leave the message loop.
    QuitMessageLoop,
    /// Any other message: hand it to the default handler.
    PassThrough,
}

/// Decide the action for one window message.
pub fn window_proc(msg: u32) -> (r: WinProcAction)
    ensures
        msg == WM_DISPLAYCHANGE ==> r == WinProcAction::RebuildAfterSettle(DISPLAY_SETTLE_MS),
        msg == WM_DESTROY ==> r == WinProcAction::QuitMessageLoop,
        msg != WM_DISPLAYCHANGE && msg != WM_DESTROY ==> r == WinProcAction::PassThrough,
{
    if msg == WM_DISPLAYCHANGE {
        WinProcAction::RebuildAfterSettle(DISPLAY_SETTLE_MS)
    } else if msg == WM_DESTROY {
        WinProcAction::QuitMessageLoop
    } else {
        WinProcAction::PassThrough
    }
}

} // verus!
