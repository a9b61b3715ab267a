//! The coordinator the user-interface layer talks to: it owns the latest
//! snapshot, the selection, the chosen preset and the refresh gate, and
//! decides every state change. The caller performs the enumeration and
//! the one OS geometry call; this type decides when and with what.

use vstd::prelude::*;

use crate::catalog::{default_preset, lemma_preset_round_trip, WindowResolution};
use crate::resize::{make_command, spec_dim_ok, ResizeCommand};
use crate::schedule::{spec_due, RefreshGate};
use crate::selection::SelectionTracker;
use crate::window::{has_handle, Snapshot, WindowHandle};

verus! {

/// The whole core state: one snapshot, one selection, one preset, one
/// refresh timestamp.
pub struct Core {
    pub snapshot: Snapshot,
    pub tracker: SelectionTracker,
    pub preset: WindowResolution,
    pub gate: RefreshGate,
}

impl Core {
    /// What every reachable core state satisfies: the snapshot is well
    /// formed and a held selection is present in it.
    pub open spec fn wf(&self) -> bool {
        &&& self.snapshot.wf()
        &&& (match self.tracker.selected {
            Some(h) => has_handle(self.snapshot.entries@, h),
            None => true,
        })
    }

    /// Start from a first snapshot taken at time `now`: nothing selected,
    /// the default preset chosen.
    pub fn new(snapshot: Snapshot, now: u64) -> (r: Core)
        requires
            snapshot.wf(),
        ensures
            r.wf(),
            r.snapshot == snapshot,
            r.tracker.selected is None,
            r.preset == WindowResolution::Preset720,
            r.gate.last_refresh == now,
    {
        Core {
            snapshot,
            tracker: SelectionTracker::new(),
            preset: default_preset(),
            gate: RefreshGate::new(now),
        }
    }

    /// True when the caller should take a fresh snapshot.
    pub fn refresh_due(&self, now: u64) -> (r: bool)
        ensures
            r == spec_due(now, self.gate.last_refresh),
    {
        self.gate.due(now)
    }

    /// Install a fresh snapshot taken at time `now`: it replaces the old
    /// one wholesale, the selection is re-validated against it, and the
    /// refresh moment is recorded. The preset is untouched.
    pub fn apply_snapshot(&mut self, snapshot: Snapshot, now: u64)
        requires
            old(self).wf(),
            snapshot.wf(),
        ensures
            final(self).wf(),
            final(self).snapshot == snapshot,
            final(self).preset == old(self).preset,
            final(self).gate.last_refresh == now,
            (match old(self).tracker.selected {
                Some(h) => final(self).tracker.selected == (if has_handle(snapshot.entries@, h) {
                    Some(h)
                } else {
                    None::<WindowHandle>
                }),
                None => final(self).tracker.selected is None,
            }),
    {
        self.snapshot = snapshot;
        self.tracker.reconcile(&self.snapshot);
        self.gate.tick(now);
    }

    /// The currently chosen window, a pure read.
    pub fn current_selection(&self) -> (r: Option<WindowHandle>)
        ensures
            r == self.tracker.selected,
    {
        self.tracker.current()
    }

    /// Choose a window. The handle must come from the current snapshot,
    /// which is where the user-interface layer read it.
    pub fn set_selection(&mut self, h: WindowHandle)
        requires
            old(self).wf(),
            has_handle(old(self).snapshot.entries@, h),
        ensures
            final(self).wf(),
            final(self).tracker.selected == Some(h),
            final(self).snapshot == old(self).snapshot,
            final(self).preset == old(self).preset,
            final(self).gate == old(self).gate,
    {
        self.tracker.select(h);
    }

    /// The currently chosen preset.
    pub fn selected_preset(&self) -> (r: WindowResolution)
        ensures
            r == self.preset,
    {
        self.preset
    }

    /// Choose a preset; nothing else changes.
    pub fn set_preset(&mut self, p: WindowResolution)
        requires
            old(self).wf(),
        ensures
            final(self).wf(),
            final(self).preset == p,
            final(self).snapshot == old(self).snapshot,
            final(self).tracker == old(self).tracker,
            final(self).gate == old(self).gate,
    {
        self.preset = p;
    }

    /// The entries of the current snapshot, for display.
    pub fn entries(&self) -> (r: &Snapshot)
        ensures
            r == self.snapshot,
    {
        &self.snapshot
    }

    /// Title of the currently chosen window: none exactly when nothing is
    /// chosen, otherwise the title of the first entry bearing the chosen
    /// handle.
    pub fn selected_title(&self) -> (r: Option<String>)
        requires
            self.wf(),
        ensures
            (match (r, self.tracker.selected) {
                (Some(t), Some(h)) => exists|i: int|
                    0 <= i < self.snapshot.entries@.len() && (#[trigger] self.snapshot.entries@[i]).handle
                        == h && self.snapshot.entries@[i].title@ == t@ && (forall|j: int|
                        0 <= j < i ==> (#[trigger] self.snapshot.entries@[j]).handle != h),
                (None, None) => true,
                _ => false,
            }),
    {
        match self.tracker.current() {
            None => None,
            Some(h) => {
                match self.snapshot.index_of_handle(h) {
                    Some(i) => Some(self.snapshot.title_at(i)),
                    None => unreached(),
                }
            }
        }
    }

    /// Law: decide a resize request. With nothing chosen this is a no-op:
    /// no command, hence no OS call and no error. With a chosen window it
    /// is exactly one command, at the chosen preset's dimensions, with
    /// both keep-flags set.
    pub fn on_resize_requested(&self) -> (r: Option<ResizeCommand>)
        requires
            self.wf(),
        ensures
            (match self.tracker.selected {
                None => r is None,
                Some(h) => r == Some(
                    (ResizeCommand {
                        handle: h,
                        width: self.preset.spec_width() as i32,
                        height: self.preset.spec_height() as i32,
                        keep_position: true,
                        keep_z_order: true,
                    }),
                ),
            }),
    {
        match self.tracker.current() {
            None => None,
            Some(h) => {
                let (w, hgt) = self.preset.parse();
                proof {
                    lemma_preset_round_trip(self.preset);
                    assert(spec_dim_ok(self.preset.spec_width()));
                    assert(spec_dim_ok(self.preset.spec_height()));
                }
                match make_command(h, w, hgt) {
                    Ok(cmd) => Some(cmd),
                    Err(_) => unreached(),
                }
            }
        }
    }
}

} // verus!
