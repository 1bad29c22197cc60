//! Data carried by the external window manager's state stream, modelled as
//! plain values.

use vstd::prelude::*;
use std::collections::VecDeque;

verus! {

/// A focused ring of elements, as the external window manager reports its
/// monitors, workspaces and containers.
#[derive(Debug, Clone)]
pub struct Ring<T> {
    pub elements: VecDeque<T>,
    pub focused: usize,
}

/// The focus index points at an element whenever there is one.
pub open spec fn ring_wf<T>(r: Ring<T>) -> bool {
    r.elements@.len() == 0 || r.focused < r.elements@.len()
}

impl<T> Ring<T> {
    /// The focused element, or nothing for an empty ring.
    pub fn focused_element(&self) -> (r: Option<&T>)
        requires
            ring_wf(*self),
        ensures
            self.elements@.len() == 0 ==> r is None,
            self.elements@.len() > 0 ==> r is Some && *r->0 == self.elements@[
                self.focused as int
            ],
    {
        if self.elements.len() == 0 {
            None
        } else {
            Some(&self.elements[self.focused])
        }
    }
}

/// One window the external window manager tracks.
#[derive(Debug, Clone, Copy, PartialEq, Eq, Structural)]
pub struct Window {
    pub hwnd: isize,
}

/// One container of windows.
#[derive(Debug, Clone)]
pub struct Container {
    pub windows: Ring<Window>,
}

/// One float/manage/whitelist rule entry of the external tool's state.
#[derive(Debug, Clone)]
pub struct KomorebiIdentifier {
    pub id: String,
    pub kind: String,
    pub matching_strategy: String,
}

} // verus!
