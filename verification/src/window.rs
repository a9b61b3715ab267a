//! Window identity and enumeration snapshots.
//!
//! A snapshot is one complete result of walking the visible top-level
//! windows: an ordered list of (handle, title) entries in which no two
//! entries share a title and every title has at least two characters.
//! The walk itself is an operating-system affair outside this crate;
//! whoever performs it feeds each visible window's handle and title to
//! [`Snapshot::offer`], which applies the admission rules.

use vstd::prelude::*;

verus! {

/// Opaque identity of a live top-level window, as issued by the
/// operating system. Compared by raw value only; no arithmetic.
#[derive(Clone, Copy, PartialEq, Eq, Structural, Debug)]
pub struct WindowHandle {
    raw: u64,
}

impl WindowHandle {
    /// The raw identity value, in specifications.
    pub closed spec fn spec_raw(self) -> u64 {
        self.raw
    }

    /// Wrap an OS-issued raw identity value.
    pub fn new(raw: u64) -> (r: WindowHandle)
        ensures
            r.spec_raw() == raw,
    {
        WindowHandle { raw }
    }

    /// The raw identity value, for handing back to the operating system.
    pub fn raw(&self) -> (r: u64)
        ensures
            r == self.spec_raw(),
    {
        self.raw
    }
}

/// Law: handles are equal exactly when their raw identity values are.
pub proof fn lemma_handle_identity(a: WindowHandle, b: WindowHandle)
    ensures
        (a == b) <==> (a.spec_raw() == b.spec_raw()),
{
}

/// One entry of an enumeration snapshot: a window and its resolved title.
pub struct WindowEntry {
    pub handle: WindowHandle,
    pub title: String,
}

/// True when no two entries of `s` share a title.
pub open spec fn titles_unique(s: Seq<WindowEntry>) -> bool {
    forall|i: int, j: int|
        0 <= i < j < s.len() ==> (#[trigger] s[i]).title@ != (#[trigger] s[j]).title@
}

/// True when every title of `s` has at least two characters.
pub open spec fn titles_long_enough(s: Seq<WindowEntry>) -> bool {
    forall|i: int| 0 <= i < s.len() ==> (#[trigger] s[i]).title@.len() >= 2
}

/// True when some entry of `s` bears the title `t`.
pub open spec fn has_title(s: Seq<WindowEntry>, t: Seq<char>) -> bool {
    exists|i: int| 0 <= i < s.len() && (#[trigger] s[i]).title@ == t
}

/// True when some entry of `s` bears the handle `h`.
pub open spec fn has_handle(s: Seq<WindowEntry>, h: WindowHandle) -> bool {
    exists|i: int| 0 <= i < s.len() && (#[trigger] s[i]).handle == h
}

/// One complete enumeration result, built entry by entry.
pub struct Snapshot {
    pub entries: Vec<WindowEntry>,
}

impl Snapshot {
    /// What every snapshot satisfies once built through [`Snapshot::offer`]:
    /// titles are unique and at least two characters long.
    pub open spec fn wf(&self) -> bool {
        titles_unique(self.entries@) && titles_long_enough(self.entries@)
    }

    /// True when an offered title would be admitted: long enough and not
    /// already taken by an earlier entry.
    pub open spec fn spec_accepts(&self, title: Seq<char>) -> bool {
        title.len() >= 2 && !has_title(self.entries@, title)
    }

    /// An empty snapshot, ready to be filled by one enumeration walk.
    pub fn new() -> (r: Snapshot)
        ensures
            r.entries@.len() == 0,
            r.wf(),
    {
        Snapshot { entries: Vec::new() }
    }

    /// Number of entries.
    pub fn len(&self) -> (r: usize)
        ensures
            r == self.entries@.len(),
    {
        self.entries.len()
    }

    /// True when some entry already bears the title `t`.
    pub fn contains_title(&self, t: &String) -> (r: bool)
        ensures
            r == has_title(self.entries@, t@),
    {
        let n = self.entries.len();
        let mut i: usize = 0;
        while i < n
            invariant
                0 <= i <= n,
                n == self.entries@.len(),
                forall|j: int| 0 <= j < i ==> (#[trigger] self.entries@[j]).title@ != t@,
            decreases n - i,
        {
            if self.entries[i].title == *t {
                return true;
            }
            i += 1;
        }
        false
    }

    /// True when some entry bears the handle `h`.
    pub fn contains_handle(&self, h: WindowHandle) -> (r: bool)
        ensures
            r == has_handle(self.entries@, h),
    {
        let n = self.entries.len();
        let mut i: usize = 0;
        while i < n
            invariant
                0 <= i <= n,
                n == self.entries@.len(),
                forall|j: int| 0 <= j < i ==> (#[trigger] self.entries@[j]).handle != h,
            decreases n - i,
        {
            if self.entries[i].handle == h {
                return true;
            }
            i += 1;
        }
        false
    }

    /// Position of the first entry bearing the handle `h`, if any.
    pub fn index_of_handle(&self, h: WindowHandle) -> (r: Option<usize>)
        ensures
            (match r {
                Some(i) => i < self.entries@.len() && self.entries@[i as int].handle == h
                    && (forall|j: int|
                    0 <= j < i ==> (#[trigger] self.entries@[j]).handle != h),
                None => !has_handle(self.entries@, h),
            }),
    {
        let n = self.entries.len();
        let mut i: usize = 0;
        while i < n
            invariant
                0 <= i <= n,
                n == self.entries@.len(),
                forall|j: int| 0 <= j < i ==> (#[trigger] self.entries@[j]).handle != h,
            decreases n - i,
        {
            if self.entries[i].handle == h {
                return Some(i);
            }
            i += 1;
        }
        None
    }

    /// Title of the entry at position `i`, as a fresh copy.
    pub fn title_at(&self, i: usize) -> (r: String)
        requires
            i < self.entries@.len(),
        ensures
            r@ == self.entries@[i as int].title@,
    {
        self.entries[i].title.clone()
    }

    /// Handle of the entry at position `i`.
    pub fn handle_at(&self, i: usize) -> (r: WindowHandle)
        requires
            i < self.entries@.len(),
        ensures
            r == self.entries@[i as int].handle,
    {
        self.entries[i].handle
    }

    /// Offer one visible window to the snapshot. The entry is admitted
    /// only when its title has at least two characters and no earlier
    /// entry bears the same title; the first seen wins, even when the
    /// handles differ.
    pub fn offer(&mut self, handle: WindowHandle, title: String)
        requires
            old(self).wf(),
        ensures
            final(self).wf(),
            old(self).spec_accepts(title@) ==> final(self).entries@ == old(self).entries@.push(
                (WindowEntry { handle, title }),
            ),
            !old(self).spec_accepts(title@) ==> final(self).entries@ == old(self).entries@,
    {
        let ghost s_old = self.entries@;
        let ghost t = title@;
        if title.as_str().unicode_len() < 2 {
            return;
        }
        if self.contains_title(&title) {
            return;
        }
        self.entries.push(WindowEntry { handle, title });
        proof {
            let s_new = self.entries@;
            assert forall|i: int, j: int| 0 <= i < j < s_new.len() implies (#[trigger] s_new[i]).title@
                != (#[trigger] s_new[j]).title@ by {
                if j < s_old.len() {
                } else {
                    assert(s_new[j].title@ == t);
                    assert(s_new[i] == s_old[i]);
                    assert(!has_title(s_old, t));
                }
            }
            assert forall|i: int| 0 <= i < s_new.len() implies (#[trigger] s_new[i]).title@.len()
                >= 2 by {
                if i < s_old.len() {
                    assert(s_old[i].title@.len() >= 2);
                }
            }
        }
    }
}

} // verus!
