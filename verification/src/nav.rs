//! The navigation controller: the current path, the listing of the current
//! directory, and the selection cursor. Movement wraps around both ends of
//! the listing; descending and ascending install a fresh listing that the
//! directory reader hands over.

use vstd::prelude::*;
use crate::entry::FileData;
use crate::entry::FileType;

verus! {

/// The navigation state. `path` holds the components below the filesystem
/// root, so an empty `path` is the root itself. The listing is re-created on
/// every navigation action, never partially mutated.
#[derive(Debug, Clone)]
pub struct DirectoryState {
    pub path: Vec<String>,
    pub entries: Vec<FileData>,
    pub selected: Option<usize>,
}

/// Where one movement step lands from index `i` in a listing of length `n`:
/// one past the last index wraps to the first, one before the first to the
/// last. `delta` is 1 or -1.
pub open spec fn wrapped_index(i: int, n: int, delta: int) -> int {
    if delta == 1 {
        if i + 1 >= n {
            0
        } else {
            i + 1
        }
    } else {
        if i == 0 {
            n - 1
        } else {
            i - 1
        }
    }
}

/// What a movement step does to the cursor: nothing without a selection,
/// a wrapped step otherwise.
pub open spec fn moved_selection(sel: Option<usize>, n: int, delta: int) -> Option<usize> {
    match sel {
        Option::None => Option::None,
        Option::Some(i) => Option::Some(wrapped_index(i as int, n, delta) as usize),
    }
}

/// The selection a freshly installed listing gets: its first entry, or none
/// when it is empty.
pub open spec fn initial_selection(n: int) -> Option<usize> {
    if n > 0 {
        Option::Some(0usize)
    } else {
        Option::<usize>::None
    }
}

/// The selection a refreshed listing keeps: the old position where it still
/// exists, the first entry otherwise, none when the listing is empty.
pub open spec fn clamped_selection(sel: Option<usize>, n: int) -> Option<usize> {
    match sel {
        Option::Some(i) => if i < n {
            Option::Some(i)
        } else {
            initial_selection(n)
        },
        Option::None => initial_selection(n),
    }
}

/// Movement wraps around both ends: in any non-empty listing, moving up from
/// the first entry selects the last one, and moving down from the last entry
/// selects the first one.
pub proof fn lemma_selection_wraps_around(n: int)
    requires
        n > 0,
    ensures
        wrapped_index(0, n, -1) == n - 1,
        wrapped_index(n - 1, n, 1) == 0,
{
}

/// With an empty listing there is never a selection: any state that keeps
/// the invariant has no cursor, and no movement step produces one.
pub proof fn lemma_empty_listing_never_selects(d: DirectoryState, delta: int)
    requires
        d.wf(),
        d.entries@.len() == 0,
    ensures
        d.selected is None,
        moved_selection(d.selected, d.entries@.len() as int, delta) is None,
{
}

impl DirectoryState {
    /// The invariant every operation keeps: a non-empty listing always has a
    /// cursor on one of its entries, an empty listing never has one.
    pub open spec fn wf(self) -> bool {
        match self.selected {
            Option::Some(i) => i < self.entries@.len(),
            Option::None => self.entries@.len() == 0,
        }
    }

    /// The starting state: the directory the browser opened in, with the
    /// cursor on the first entry where there is one.
    pub fn new(path: Vec<String>, entries: Vec<FileData>) -> (r: DirectoryState)
        ensures
            r.path == path,
            r.entries == entries,
            r.selected == initial_selection(entries@.len() as int),
            r.wf(),
    {
        let selected: Option<usize> = if entries.len() > 0 {
            Some(0)
        } else {
            None
        };
        DirectoryState { path, entries, selected }
    }

    /// One movement keystroke. With an empty listing there is nothing to
    /// select and the call does nothing; otherwise the cursor wraps around
    /// either end of the listing.
    pub fn move_selection(&mut self, delta: i32)
        requires
            delta == 1 || delta == -1,
            old(self).wf(),
        ensures
            final(self).path == old(self).path,
            final(self).entries == old(self).entries,
            final(self).selected == moved_selection(
                old(self).selected,
                old(self).entries@.len() as int,
                delta as int,
            ),
            final(self).wf(),
    {
        match self.selected {
            None => {},
            Some(i) => {
                let n = self.entries.len();
                if delta == 1 {
                    self.selected = Some(if i + 1 >= n {
                        0
                    } else {
                        i + 1
                    });
                } else {
                    self.selected = Some(
                        if i == 0 {
                            n - 1
                        } else {
                            i - 1
                        },
                    );
                }
            },
        }
    }

    /// The name of the entry under the cursor, if any.
    pub open spec fn selected_name_view(self) -> Option<String> {
        match self.selected {
            Option::Some(i) => Option::Some(self.entries@[i as int].name),
            Option::None => Option::<String>::None,
        }
    }

    /// The name of the entry under the cursor, if any.
    pub fn selected_name(&self) -> (r: Option<String>)
        requires
            self.wf(),
        ensures
            r == self.selected_name_view(),
    {
        match self.selected {
            Some(i) => Some(self.entries[i].name.clone()),
            None => None,
        }
    }

    /// The entry under the cursor, if any.
    pub fn selected_entry(&self) -> (r: Option<&FileData>)
        requires
            self.wf(),
        ensures
            (match (r, self.selected) {
                (Option::Some(e), Option::Some(i)) => *e == self.entries@[i as int],
                (Option::None, Option::None) => true,
                _ => false,
            }),
    {
        match self.selected {
            Some(i) => Some(&self.entries[i]),
            None => None,
        }
    }

    /// Descends into the named subdirectory, installing the listing the
    /// directory reader produced for it and putting the cursor on its first
    /// entry. Callers descend only after the read succeeded, so a failed
    /// read leaves the state untouched.
    pub fn enter_dir(&mut self, name: String, listing: Vec<FileData>)
        requires
            old(self).wf(),
        ensures
            final(self).path@ == old(self).path@.push(name),
            final(self).entries == listing,
            final(self).selected == initial_selection(listing@.len() as int),
            final(self).wf(),
    {
        self.path.push(name);
        self.entries = listing;
        self.selected = if self.entries.len() > 0 {
            Some(0)
        } else {
            None
        };
    }

    /// The path of the parent directory, or nothing at the filesystem root:
    /// the root is its own parent and ascending from it is a no-op. Callers
    /// read the returned path and, on success, ascend with `leave_to`.
    pub fn leave_target(&self) -> (r: Option<Vec<String>>)
        ensures
            (match r {
                Option::Some(p) => self.path@.len() > 0 && p@ == self.path@.drop_last(),
                Option::None => self.path@.len() == 0,
            }),
    {
        if self.path.len() == 0 {
            None
        } else {
            let n = self.path.len();
            let mut parent: Vec<String> = Vec::new();
            let mut i: usize = 0;
            while i < n - 1
                invariant
                    n == self.path@.len(),
                    n >= 1,
                    i <= n - 1,
                    parent@ =~= self.path@.subrange(0, i as int),
                decreases n - 1 - i,
            {
                parent.push(self.path[i].clone());
                i = i + 1;
            }
            proof {
                assert(parent@ =~= self.path@.drop_last());
            }
            Some(parent)
        }
    }

    /// Ascends to the parent directory, installing the listing the directory
    /// reader produced for it and putting the cursor on its first entry.
    /// Callers ascend only after the read succeeded, so a failed read leaves
    /// the state untouched.
    pub fn leave_to(&mut self, listing: Vec<FileData>)
        requires
            old(self).wf(),
            old(self).path@.len() > 0,
        ensures
            final(self).path@ == old(self).path@.drop_last(),
            final(self).entries == listing,
            final(self).selected == initial_selection(listing@.len() as int),
            final(self).wf(),
    {
        self.path.pop();
        self.entries = listing;
        self.selected = if self.entries.len() > 0 {
            Some(0)
        } else {
            None
        };
    }

    /// Re-reads of the current directory: installs the fresh listing without
    /// changing the path, keeping the cursor where the position still exists
    /// and falling back to the first entry where it does not.
    pub fn refresh(&mut self, listing: Vec<FileData>)
        requires
            old(self).wf(),
        ensures
            final(self).path == old(self).path,
            final(self).entries == listing,
            final(self).selected == clamped_selection(
                old(self).selected,
                listing@.len() as int,
            ),
            final(self).wf(),
    {
        let n = listing.len();
        let fresh: Option<usize> = if n > 0 {
            Some(0)
        } else {
            None
        };
        self.selected = match self.selected {
            Some(i) => if i < n {
                Some(i)
            } else {
                fresh
            },
            None => fresh,
        };
        self.entries = listing;
    }
}

} // verus!
