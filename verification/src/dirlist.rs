//! The ordered entry list of one directory: cursor index, cursor movement,
//! and the viewport computation used by rendering.

use vstd::prelude::*;
use crate::entry::DirectoryEntry;

verus! {

/// The scroll margin clamped so that it never exceeds what the viewport can
/// keep on both sides of the cursor.
pub open spec fn clamped_margin(height: int, margin: int) -> int {
    if margin <= (height - 1) / 2 {
        margin
    } else {
        (height - 1) / 2
    }
}

/// Index of the first entry to display: the cursor stays `margin` rows from
/// the viewport edges whenever the list is longer than the viewport, and the
/// margin collapses near the start and the end of the list.
pub open spec fn spec_first_index(len: int, cursor: int, height: int, margin: int) -> int {
    if len <= height {
        0
    } else {
        let keep = height - 1 - clamped_margin(height, margin);
        let want = if cursor > keep {
            cursor - keep
        } else {
            0
        };
        if want > len - height {
            len - height
        } else {
            want
        }
    }
}

/// The viewport skip distance never exceeds `len - height`, and the cursor
/// always lies inside the viewport.
pub proof fn lemma_viewport_bounds(len: int, cursor: int, height: int, margin: int)
    requires
        0 <= cursor < len,
        height > 0,
        margin >= 0,
    ensures
        0 <= spec_first_index(len, cursor, height, margin),
        len > height ==> spec_first_index(len, cursor, height, margin) <= len - height,
        len <= height ==> spec_first_index(len, cursor, height, margin) == 0,
        spec_first_index(len, cursor, height, margin) <= cursor,
        cursor < spec_first_index(len, cursor, height, margin) + height,
{
}

/// Ordered entries of one directory, with the cursor index. The cursor is
/// absent exactly when the list is empty, and otherwise valid.
#[derive(Debug)]
pub struct DirectoryList {
    pub path: String,
    pub contents: Vec<DirectoryEntry>,
    pub index: Option<usize>,
}

impl DirectoryList {
    /// Cursor validity: absent on an empty list, in bounds otherwise.
    pub open spec fn wf(self) -> bool {
        &&& (self.index is Some <==> self.contents@.len() > 0)
        &&& (match self.index {
            Some(i) => i < self.contents@.len(),
            None => true,
        })
    }

    /// A fresh list with the cursor on the first entry.
    pub fn new(path: String, contents: Vec<DirectoryEntry>) -> (r: DirectoryList)
        ensures
            r.wf(),
            r.path == path,
            r.contents == contents,
            r.index == (if contents@.len() > 0 {
                Some(0usize)
            } else {
                None::<usize>
            }),
    {
        let index = if contents.len() > 0 {
            Some(0usize)
        } else {
            None
        };
        DirectoryList { path, contents, index }
    }

    pub fn len(&self) -> (r: usize)
        ensures
            r == self.contents@.len(),
    {
        self.contents.len()
    }

    pub fn is_empty(&self) -> (r: bool)
        ensures
            r == (self.contents@.len() == 0),
    {
        self.contents.len() == 0
    }

    /// The entry under the cursor, when there is one.
    pub fn curr_entry_ref(&self) -> (r: Option<&DirectoryEntry>)
        requires
            self.wf(),
        ensures
            match r {
                Some(e) => self.index matches Some(i) && e == &self.contents@[i as int],
                None => self.index is None,
            },
    {
        match self.index {
            Some(i) => Some(&self.contents[i]),
            None => None,
        }
    }

    /// Move the cursor forward by `n`, clamping at the last entry; a no-op on
    /// an empty list.
    pub fn cursor_down(&mut self, n: usize)
        requires
            old(self).wf(),
        ensures
            final(self).wf(),
            final(self).path == old(self).path,
            final(self).contents == old(self).contents,
            final(self).index == (match old(self).index {
                Some(i) => if i + n < old(self).contents@.len() {
                    Some((i + n) as usize)
                } else {
                    Some((old(self).contents@.len() - 1) as usize)
                },
                None => None::<usize>,
            }),
    {
        match self.index {
            Some(i) => {
                let len = self.contents.len();
                if n < len - i {
                    self.index = Some(i + n);
                } else {
                    self.index = Some(len - 1);
                }
            },
            None => {},
        }
    }

    /// The skip distance for a viewport of `height` rows with the configured
    /// scroll `margin`.
    pub fn first_index_for_viewport(&self, height: usize, margin: usize) -> (r: usize)
        requires
            self.wf(),
            self.index is Some,
            height > 0,
        ensures
            r == spec_first_index(
                self.contents@.len() as int,
                self.index->0 as int,
                height as int,
                margin as int,
            ),
            r <= self.index->0 < r + height,
    {
        let len = self.contents.len();
        let cursor = match self.index {
            Some(i) => i,
            None => 0,
        };
        if len <= height {
            0
        } else {
            let half = (height - 1) / 2;
            let m = if margin <= half {
                margin
            } else {
                half
            };
            let keep = height - 1 - m;
            let want = if cursor > keep {
                cursor - keep
            } else {
                0
            };
            if want > len - height {
                len - height
            } else {
                want
            }
        }
    }
}

} // verus!
