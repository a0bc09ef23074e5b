//! One item found during a walk of the file tree.

use vstd::prelude::*;
use crate::kind::FileKind;

verus! {

/// An entry as the contracts see it.
pub struct EntryView {
    pub path: Seq<char>,
    pub kind: FileKind,
}

/// An entry of the file tree: where it was found and what it was found to
/// be. The kind is resolved once, by the walk; reading it back touches no
/// file system.
#[derive(Debug, PartialEq, Eq)]
pub struct Entry {
    path: String,
    kind: FileKind,
}

impl View for Entry {
    type V = EntryView;

    closed spec fn view(&self) -> EntryView {
        EntryView { path: self.path@, kind: self.kind }
    }
}

impl Entry {
    /// Records an entry found at `path` and resolved to `kind`.
    pub fn new(path: String, kind: FileKind) -> (entry: Entry)
        ensures
            entry@ == (EntryView { path: path@, kind }),
    {
        Entry { path, kind }
    }

    /// The path under which the walk found the entry.
    pub fn path(&self) -> (path: &str)
        ensures
            path@ == self@.path,
    {
        self.path.as_str()
    }

    /// The kind that the walk resolved for the entry.
    pub fn file_type(&self) -> (kind: FileKind)
        ensures
            kind == self@.kind,
    {
        self.kind
    }
}

} // verus!
