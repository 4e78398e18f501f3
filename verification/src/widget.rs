//! The read-only view a rendering widget takes of one directory list. The
//! drawing itself belongs to the terminal layer; it reads the contents, the
//! cursor, and the viewport skip distance from here.

use vstd::prelude::*;
use crate::dirlist::DirectoryList;

verus! {

/// A rendering view over a directory list.
#[derive(Debug)]
pub struct TuiDirList<'a> {
    pub dirlist: &'a DirectoryList,
}

impl<'a> TuiDirList<'a> {
    pub fn new(dirlist: &'a DirectoryList) -> (r: TuiDirList<'a>)
        ensures
            r.dirlist == dirlist,
    {
        TuiDirList { dirlist }
    }
}

} // verus!
