//! A frozen view of one document: the path under which it is shown and the
//! outline of its symbols.

use vstd::prelude::*;

verus! {

/// One symbol or heading of a document. Only the text that is shown for it
/// is kept.
#[derive(Clone, Debug, PartialEq, Eq)]
pub struct OutlineEntry {
    pub string: String,
}

impl View for OutlineEntry {
    type V = Seq<char>;

    open spec fn view(&self) -> Seq<char> {
        self.string@
    }
}

impl OutlineEntry {
    /// An entry that is shown as `string`.
    pub fn new(string: String) -> (entry: OutlineEntry)
        ensures
            entry@ == string@,
    {
        OutlineEntry { string }
    }
}

/// The symbols of a document, in the order in which they stand in it.
#[derive(Clone, Debug, PartialEq, Eq)]
pub struct Outline {
    pub path_candidates: Vec<OutlineEntry>,
}

/// The display strings of a run of entries, in the same order.
pub open spec fn display_strings(entries: Seq<OutlineEntry>) -> Seq<Seq<char>> {
    Seq::new(entries.len(), |i: int| entries[i]@)
}

impl View for Outline {
    type V = Seq<Seq<char>>;

    open spec fn view(&self) -> Seq<Seq<char>> {
        display_strings(self.path_candidates@)
    }
}

impl Outline {
    /// The outline with the given entries, in their order.
    pub fn new(path_candidates: Vec<OutlineEntry>) -> (outline: Outline)
        ensures
            outline.path_candidates == path_candidates,
            outline@ == display_strings(path_candidates@),
    {
        Outline { path_candidates }
    }
}

/// What a [`DocumentSnapshot`] holds, as mathematical values.
pub struct SnapshotView {
    /// The path under which the document is shown, if it has one.
    pub path: Option<Seq<char>>,
    /// The display strings of the outline's entries in document order, if the
    /// document has an outline.
    pub outline: Option<Seq<Seq<char>>>,
}

/// The characters of a path that may be absent.
pub open spec fn path_view(path: Option<&String>) -> Option<Seq<char>> {
    match path {
        Some(path) => Some(path@),
        None => None,
    }
}

/// The display strings of an outline that may be absent.
pub open spec fn outline_view(outline: Option<&Outline>) -> Option<Seq<Seq<char>>> {
    match outline {
        Some(outline) => Some(outline@),
        None => None,
    }
}

/// The view of the snapshot of a document that is shown under `path` and
/// has the outline `outline`.
pub open spec fn snapshot_view(path: Option<String>, outline: Option<Outline>) -> SnapshotView {
    SnapshotView {
        path: match path {
            Some(path) => Some(path@),
            None => None,
        },
        outline: match outline {
            Some(outline) => Some(outline@),
            None => None,
        },
    }
}

/// A document as it was at one moment. Nothing changes it afterwards, so
/// whatever is computed from it depends on nothing else.
#[derive(Clone, Debug, PartialEq, Eq)]
pub struct DocumentSnapshot {
    path: Option<String>,
    outline: Option<Outline>,
}

impl View for DocumentSnapshot {
    type V = SnapshotView;

    closed spec fn view(&self) -> SnapshotView {
        snapshot_view(self.path, self.outline)
    }
}

impl DocumentSnapshot {
    /// The snapshot of a document that is shown under `path` and whose
    /// symbols are `outline`. A document that was never saved has no path; a
    /// document in which no symbol structure is recognised has no outline,
    /// which is not the same as an outline without entries.
    pub fn new(path: Option<String>, outline: Option<Outline>) -> (snapshot: DocumentSnapshot)
        ensures
            snapshot@ == snapshot_view(path, outline),
    {
        DocumentSnapshot { path, outline }
    }

    /// The path under which the document is shown, if it has one.
    pub fn resolve_file_path(&self) -> (path: Option<&String>)
        ensures
            path_view(path) == self@.path,
    {
        self.path.as_ref()
    }

    /// The outline of the whole document, with no filter on the names, if
    /// the document has one.
    pub fn outline(&self) -> (outline: Option<&Outline>)
        ensures
            outline_view(outline) == self@.outline,
    {
        self.outline.as_ref()
    }
}

} // verus!
