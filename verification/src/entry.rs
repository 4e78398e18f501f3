//! One filesystem record with a persistent selection flag.

use vstd::prelude::*;

verus! {

/// The kind of a filesystem record.
#[derive(Clone, Copy, Debug, PartialEq, Eq, Structural)]
pub enum EntryKind {
    File,
    Dir,
    Symlink,
    Other,
}

/// The metadata of an entry the core keeps as plain values.
#[derive(Clone, Copy, Debug, PartialEq, Eq, Structural)]
pub struct EntryMetadata {
    pub kind: EntryKind,
    pub size: u64,
    pub modified: u64,
    pub permissions: u32,
}

/// One entry of a directory list. The `selected` flag is entry-owned state:
/// it travels with the entry across re-sorting and cache re-attachment and is
/// mutated only by the selection engine and the post-processing pipeline.
#[derive(Debug)]
pub struct DirectoryEntry {
    pub name: String,
    pub path: String,
    pub metadata: EntryMetadata,
    pub selected: bool,
}

/// The same entry with its selection flag set to `s`.
pub open spec fn with_selected(e: DirectoryEntry, s: bool) -> DirectoryEntry {
    DirectoryEntry { selected: s, ..e }
}

impl DirectoryEntry {
    pub fn new(name: String, path: String, metadata: EntryMetadata, selected: bool) -> (r:
        DirectoryEntry)
        ensures
            r == (DirectoryEntry { name, path, metadata, selected }),
    {
        DirectoryEntry { name, path, metadata, selected }
    }

    pub fn file_name(&self) -> (r: &str)
        ensures
            r@ == self.name@,
    {
        self.name.as_str()
    }

    pub fn is_selected(&self) -> (r: bool)
        ensures
            r == self.selected,
    {
        self.selected
    }

    pub fn set_permanent_selected(&mut self, selected: bool)
        ensures
            *final(self) == with_selected(*old(self), selected),
    {
        self.selected = selected;
    }
}

/// Replace the selection flag of the entry at `i`, leaving everything else
/// of the entry and of the vector as it was.
pub fn set_entry_selected(v: &mut Vec<DirectoryEntry>, i: usize, selected: bool)
    requires
        i < old(v).len(),
    ensures
        final(v)@ == old(v)@.update(i as int, with_selected(old(v)@[i as int], selected)),
{
    let mut taken = DirectoryEntry {
        name: String::new(),
        path: String::new(),
        metadata: EntryMetadata { kind: EntryKind::Other, size: 0, modified: 0, permissions: 0 },
        selected: false,
    };
    v.set_and_swap(i, &mut taken);
    let updated = DirectoryEntry {
        name: taken.name,
        path: taken.path,
        metadata: taken.metadata,
        selected,
    };
    v.set(i, updated);
    proof {
        assert(v@ =~= old(v)@.update(i as int, with_selected(old(v)@[i as int], selected)));
    }
}

} // verus!
