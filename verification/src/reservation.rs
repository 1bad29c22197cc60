//! Edge reservation: the OS app-bar protocol that claims a strip of a
//! monitor's work area, modelled so that reserve/release bookkeeping can be
//! proved balanced.

use vstd::prelude::*;
use crate::config::BarEdge;
use crate::geometry::{Monitor, Rect, edge_rectangle, spec_edge_rect, monitor_in_bounds, thickness_fits};

verus! {

/// Edge codes of the OS app-bar protocol.
pub const ABE_LEFT: u32 = 0;

pub const ABE_TOP: u32 = 1;

pub const ABE_RIGHT: u32 = 2;

pub const ABE_BOTTOM: u32 = 3;

/// The callback message registered for app-bar notifications: WM_USER + 1.
pub const APP_BAR_CALLBACK_MESSAGE: u32 = 0x0401;

/// Map a bar edge to the protocol's edge code.
pub fn edge_to_abe(edge: BarEdge) -> (r: u32)
    ensures
        edge is Top ==> r == ABE_TOP,
        edge is Left ==> r == ABE_LEFT,
        edge is Bottom ==> r == ABE_BOTTOM,
        edge is Right ==> r == ABE_RIGHT,
{
    match edge {
        BarEdge::Top => ABE_TOP,
        BarEdge::Left => ABE_LEFT,
        BarEdge::Bottom => ABE_BOTTOM,
        BarEdge::Right => ABE_RIGHT,
    }
}

/// The message record handed to the OS app-bar protocol: target window,
/// callback message, edge code, and claimed rectangle.
#[derive(Debug, Clone, Copy, PartialEq, Eq, Structural)]
pub struct AppBarData {
    pub hwnd: isize,
    pub callback_message: u32,
    pub edge: u32,
    pub rect: Rect,
}

/// Build the protocol record for a window, with the edge code set when an
/// edge is given and left at its zero default otherwise.
pub fn abd_create(hwnd: isize, edge: Option<BarEdge>) -> (r: Result<AppBarData, ()>)
    ensures
        r is Ok,
        r->Ok_0.hwnd == hwnd,
        r->Ok_0.callback_message == APP_BAR_CALLBACK_MESSAGE,
        match edge {
            Option::Some(e) => r->Ok_0.edge == (match e {
                BarEdge::Top => ABE_TOP,
                BarEdge::Left => ABE_LEFT,
                BarEdge::Bottom => ABE_BOTTOM,
                BarEdge::Right => ABE_RIGHT,
            }),
            Option::None => r->Ok_0.edge == ABE_LEFT,
        },
        r->Ok_0.rect == (Rect { x: 0, y: 0, width: 0, height: 0 }),
{
    let edge_code: u32 = match edge {
        Option::Some(e) => edge_to_abe(e),
        Option::None => ABE_LEFT,
    };
    Ok(
        AppBarData {
            hwnd,
            callback_message: APP_BAR_CALLBACK_MESSAGE,
            edge: edge_code,
            rect: Rect { x: 0, y: 0, width: 0, height: 0 },
        },
    )
}

/// One registered reservation: an edge strip, deactivated on release.
#[derive(Debug, Clone, Copy, PartialEq, Eq, Structural)]
pub struct ReservationEntry {
    pub id: u64,
    pub edge: BarEdge,
    pub thickness: u32,
    pub active: bool,
}

/// A work-area rectangle with unbounded coordinates, for reasoning about
/// successive shrinks without overflow concerns.
pub struct WorkRect {
    pub x: int,
    pub y: int,
    pub width: int,
    pub height: int,
}

/// Carve one strip out of a work area.
pub open spec fn spec_shrink(r: WorkRect, edge: BarEdge, thickness: u32) -> WorkRect {
    match edge {
        BarEdge::Top => (WorkRect {
            x: r.x,
            y: r.y + thickness,
            width: r.width,
            height: r.height - thickness,
        }),
        BarEdge::Bottom => (WorkRect {
            x: r.x,
            y: r.y,
            width: r.width,
            height: r.height - thickness,
        }),
        BarEdge::Left => (WorkRect {
            x: r.x + thickness,
            y: r.y,
            width: r.width - thickness,
            height: r.height,
        }),
        BarEdge::Right => (WorkRect {
            x: r.x,
            y: r.y,
            width: r.width - thickness,
            height: r.height,
        }),
    }
}

pub open spec fn work_rect_of(monitor: Rect) -> WorkRect {
    WorkRect {
        x: monitor.x as int,
        y: monitor.y as int,
        width: monitor.width as int,
        height: monitor.height as int,
    }
}

/// The work area the OS reports: the monitor rectangle with every active
/// reservation carved out, in registration order.
pub open spec fn spec_available(monitor: Rect, entries: Seq<ReservationEntry>) -> WorkRect
    decreases entries.len(),
{
    if entries.len() == 0 {
        work_rect_of(monitor)
    } else {
        let base = spec_available(monitor, entries.drop_last());
        if entries.last().active {
            spec_shrink(base, entries.last().edge, entries.last().thickness)
        } else {
            base
        }
    }
}

/// Deactivate the entry a handle names, leaving released or unknown handles
/// as they are.
pub open spec fn spec_release(entries: Seq<ReservationEntry>, handle: u64) -> Seq<
    ReservationEntry,
> {
    entries.map_values(
        |e: ReservationEntry|
            if e.id == handle {
                ReservationEntry { id: e.id, edge: e.edge, thickness: e.thickness, active: false }
            } else {
                e
            },
    )
}

/// Handles are issued in order, so every stored id is below the next one.
pub open spec fn registry_wf(entries: Seq<ReservationEntry>, next_id: u64) -> bool {
    forall|k: int| 0 <= k < entries.len() ==> (#[trigger] entries[k].id) < next_id
}

/// Per-monitor bookkeeping of the reservations this process has registered
/// against the OS work area.
#[derive(Debug)]
pub struct EdgeReservationRegistry {
    pub monitor: Rect,
    pub entries: Vec<ReservationEntry>,
    pub next_id: u64,
}

impl EdgeReservationRegistry {
    /// Fresh bookkeeping for one monitor: nothing reserved yet.
    pub fn new(monitor: Rect) -> (r: EdgeReservationRegistry)
        ensures
            r.monitor == monitor,
            r.entries@ == Seq::<ReservationEntry>::empty(),
            r.next_id == 0,
            registry_wf(r.entries@, r.next_id),
    {
        EdgeReservationRegistry { monitor, entries: Vec::new(), next_id: 0 }
    }

    /// Register a strip against the work area and hand back its handle.
    pub fn reserve(&mut self, edge: BarEdge, thickness: u32) -> (h: u64)
        requires
            old(self).next_id < u64::MAX,
            registry_wf(old(self).entries@, old(self).next_id),
        ensures
            h == old(self).next_id,
            final(self).monitor == old(self).monitor,
            final(self).next_id == old(self).next_id + 1,
            final(self).entries@ == old(self).entries@.push(
                ReservationEntry { id: h, edge, thickness, active: true },
            ),
            registry_wf(final(self).entries@, final(self).next_id),
    {
        let h = self.next_id;
        self.entries.push(ReservationEntry { id: h, edge, thickness, active: true });
        self.next_id = self.next_id + 1;
        h
    }

    /// Release the reservation a handle names. Releasing a handle twice, or
    /// one that was never issued, changes nothing: the window may already be
    /// gone, so this must be safe to repeat on every teardown path.
    pub fn release(&mut self, handle: u64)
        ensures
            final(self).monitor == old(self).monitor,
            final(self).next_id == old(self).next_id,
            final(self).entries@ == spec_release(old(self).entries@, handle),
    {
        let n = self.entries.len();
        let mut k: usize = 0;
        while k < n
            invariant
                k <= n,
                n == self.entries@.len(),
                self.monitor == old(self).monitor,
                self.next_id == old(self).next_id,
                self.entries@.len() == old(self).entries@.len(),
                forall|t: int|
                    0 <= t < k ==> self.entries@[t] == spec_release(old(self).entries@, handle)[t],
                forall|t: int| k <= t < n ==> self.entries@[t] == old(self).entries@[t],
            decreases n - k,
        {
            if self.entries[k].id == handle {
                let e = self.entries[k];
                self.entries.set(
                    k,
                    ReservationEntry {
                        id: e.id,
                        edge: e.edge,
                        thickness: e.thickness,
                        active: false,
                    },
                );
            }
            k = k + 1;
        }
        proof {
            assert(self.entries@ =~= spec_release(old(self).entries@, handle));
        }
    }

    /// Compute the bar's rectangle for this monitor and register the strip:
    /// the sizing rule and the reservation in one step, as the OS protocol
    /// performs them.
    pub fn register_and_position(&mut self, m: &Monitor, edge: BarEdge, thickness: u32) -> (r: (
        Rect,
        u64,
    ))
        requires
            monitor_in_bounds(*m),
            thickness_fits(edge, thickness, *m),
            old(self).next_id < u64::MAX,
            registry_wf(old(self).entries@, old(self).next_id),
        ensures
            r.0 == spec_edge_rect(*m, edge, thickness),
            r.1 == old(self).next_id,
            final(self).monitor == old(self).monitor,
            final(self).next_id == old(self).next_id + 1,
            final(self).entries@ == old(self).entries@.push(
                ReservationEntry { id: r.1, edge, thickness, active: true },
            ),
            registry_wf(final(self).entries@, final(self).next_id),
    {
        let rect = edge_rectangle(m, edge, thickness);
        let h = self.reserve(edge, thickness);
        (rect, h)
    }
}

/// Releasing a handle twice leaves exactly the state one release leaves.
pub proof fn lemma_release_idempotent(entries: Seq<ReservationEntry>, handle: u64)
    ensures
        spec_release(spec_release(entries, handle), handle) == spec_release(entries, handle),
{
    assert(spec_release(spec_release(entries, handle), handle) =~= spec_release(entries, handle));
}

proof fn lemma_release_untouched(entries: Seq<ReservationEntry>, handle: u64)
    requires
        forall|k: int| 0 <= k < entries.len() ==> (#[trigger] entries[k].id) != handle,
    ensures
        spec_release(entries, handle) == entries,
{
    assert(spec_release(entries, handle) =~= entries);
}

/// Law: reserve followed immediately by release of the returned handle
/// leaves the monitor's available work area exactly as it was before the
/// call.
pub proof fn lemma_reserve_release_round_trip(
    monitor: Rect,
    entries: Seq<ReservationEntry>,
    next_id: u64,
    edge: BarEdge,
    thickness: u32,
)
    requires
        registry_wf(entries, next_id),
    ensures
        ({
            let reserved = entries.push(
                ReservationEntry { id: next_id, edge, thickness, active: true },
            );
            spec_available(monitor, spec_release(reserved, next_id)) == spec_available(
                monitor,
                entries,
            )
        }),
{
    let fresh = ReservationEntry { id: next_id, edge, thickness, active: true };
    let reserved = entries.push(fresh);
    let released = spec_release(reserved, next_id);
    lemma_release_untouched(entries, next_id);
    assert(released =~= entries.push(
        ReservationEntry { id: next_id, edge, thickness, active: false },
    ));
    assert(released.drop_last() =~= entries);
}

} // verus!
