//! Screen rectangles, monitor snapshots, and the edge-to-rectangle rule that
//! sizes a bar strip against its monitor.

use vstd::prelude::*;
use crate::config::BarEdge;

verus! {

/// A screen-space rectangle: origin and extent in physical pixels.
#[derive(Debug, Clone, Copy, PartialEq, Eq, Structural)]
pub struct Rect {
    pub x: i32,
    pub y: i32,
    pub width: u32,
    pub height: u32,
}

/// An OS-reported display: position, size, name. A snapshot taken at rebuild
/// time, never cached across rebuilds.
#[derive(Debug, Clone)]
pub struct Monitor {
    pub name: String,
    pub x: i32,
    pub y: i32,
    pub width: u32,
    pub height: u32,
}

/// The monitor's far corner still lies within the signed 32-bit coordinate
/// space, as the OS guarantees for real displays.
pub open spec fn monitor_in_bounds(m: Monitor) -> bool {
    &&& m.x + m.width <= i32::MAX
    &&& m.y + m.height <= i32::MAX
}

/// The strip depth does not exceed the monitor dimension it is carved from.
pub open spec fn thickness_fits(edge: BarEdge, thickness: u32, m: Monitor) -> bool {
    match edge {
        BarEdge::Top | BarEdge::Bottom => thickness <= m.height,
        BarEdge::Left | BarEdge::Right => thickness <= m.width,
    }
}

/// The rectangle a bar occupies: the full monitor width (Top/Bottom) or
/// height (Left/Right), `thickness` pixels deep, measured inward from the
/// chosen edge.
pub open spec fn spec_edge_rect(m: Monitor, edge: BarEdge, thickness: u32) -> Rect {
    match edge {
        BarEdge::Top => (Rect { x: m.x, y: m.y, width: m.width, height: thickness }),
        BarEdge::Bottom => (Rect {
            x: m.x,
            y: (m.y + m.height - thickness) as i32,
            width: m.width,
            height: thickness,
        }),
        BarEdge::Left => (Rect { x: m.x, y: m.y, width: thickness, height: m.height }),
        BarEdge::Right => (Rect {
            x: (m.x + m.width - thickness) as i32,
            y: m.y,
            width: thickness,
            height: m.height,
        }),
    }
}

/// Compute the rectangle a bar should occupy on `m` for the given edge and
/// thickness.
pub fn edge_rectangle(m: &Monitor, edge: BarEdge, thickness: u32) -> (r: Rect)
    requires
        monitor_in_bounds(*m),
        thickness_fits(edge, thickness, *m),
    ensures
        r == spec_edge_rect(*m, edge, thickness),
{
    match edge {
        BarEdge::Top => Rect { x: m.x, y: m.y, width: m.width, height: thickness },
        BarEdge::Bottom => {
            let far: i64 = m.y as i64 + m.height as i64;
            let y: i64 = far - thickness as i64;
            Rect { x: m.x, y: y as i32, width: m.width, height: thickness }
        },
        BarEdge::Left => Rect { x: m.x, y: m.y, width: thickness, height: m.height },
        BarEdge::Right => {
            let far: i64 = m.x as i64 + m.width as i64;
            let x: i64 = far - thickness as i64;
            Rect { x: x as i32, y: m.y, width: thickness, height: m.height }
        },
    }
}

} // verus!
