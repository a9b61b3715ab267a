//! The selection tracker: remembers which window the user chose and
//! re-validates that choice against each fresh enumeration snapshot.

use vstd::prelude::*;

use crate::window::{has_handle, Snapshot, WindowHandle};

verus! {

/// Holds the currently chosen window, or none. It never inspects handle
/// validity itself; it only tracks presence in the latest snapshot.
pub struct SelectionTracker {
    pub selected: Option<WindowHandle>,
}

impl SelectionTracker {
    /// A tracker with nothing chosen yet.
    pub fn new() -> (r: SelectionTracker)
        ensures
            r.selected is None,
    {
        SelectionTracker { selected: None }
    }

    /// Unconditionally overwrite the held value. The handle must come
    /// from the caller's own most recent snapshot; no validation happens
    /// here.
    pub fn select(&mut self, h: WindowHandle)
        ensures
            final(self).selected == Some(h),
    {
        self.selected = Some(h);
    }

    /// The currently chosen window, a pure read.
    pub fn current(&self) -> (r: Option<WindowHandle>)
        ensures
            r == self.selected,
    {
        self.selected
    }

    /// Law: re-validate the held value against `snapshot`. A held handle
    /// still present in the snapshot is kept unchanged; an absent one is
    /// cleared; nothing is ever invented.
    pub fn reconcile(&mut self, snapshot: &Snapshot)
        ensures
            (match old(self).selected {
                Some(h) => final(self).selected == (if has_handle(snapshot.entries@, h) {
                    Some(h)
                } else {
                    None::<WindowHandle>
                }),
                None => final(self).selected is None,
            }),
    {
        match self.selected {
            Some(h) => {
                if !snapshot.contains_handle(h) {
                    self.selected = None;
                }
            }
            None => {}
        }
    }
}

} // verus!
