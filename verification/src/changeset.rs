//! The patch of one revision: for each path that it touches, the hunks of
//! that file.
//!
//! The files are kept in a persistent ordered map (`im::OrdMap`), which hands
//! its entries out in ascending order of their paths. This module names the
//! entries of such a map, [`map_entries`], and states what the map operations
//! used by the crate do to them. Those contracts are trusted: they restate
//! the documentation of `im` and of the order of `String`.

use crate::model::{FileInfo, FileInfoView};
use im::OrdMap;
use vstd::prelude::*;

verus! {

#[verifier::external_type_specification]
#[verifier::external_body]
#[verifier::reject_recursive_types(K)]
#[verifier::reject_recursive_types(V)]
pub struct ExOrdMap<K, V>(OrdMap<K, V>);

/// One entry of a patch: a path and what the patch does to that file.
pub type Entry = (Seq<char>, FileInfoView);

/// The entries that a map of files holds, in the order in which the map hands
/// them out.
pub uninterp spec fn map_entries(m: OrdMap<String, FileInfo>) -> Seq<Entry>;

/// The order of paths: that of `String`, which compares two strings
/// character by character, by code point, a proper prefix coming first.
pub open spec fn path_lt(a: Seq<char>, b: Seq<char>) -> bool
    decreases a.len(),
{
    if b.len() == 0 {
        false
    } else if a.len() == 0 {
        true
    } else if a[0] != b[0] {
        (a[0] as u32) < (b[0] as u32)
    } else {
        path_lt(a.skip(1), b.skip(1))
    }
}

/// The entries after `info` has been stored under `path`: the entries with a
/// smaller path, the new entry, and the entries with a greater path. An
/// earlier entry for the same path is gone.
pub open spec fn entries_insert(entries: Seq<Entry>, path: Seq<char>, info: FileInfoView) -> Seq<
    Entry,
> {
    entries.filter(|e: Entry| path_lt(e.0, path)) + seq![(path, info)] + entries.filter(
        |e: Entry| path_lt(path, e.0),
    )
}

/// The entries of a list of files, over views.
pub open spec fn listed(list: Seq<(&String, &FileInfo)>) -> Seq<Entry> {
    list.map_values(|e: (&String, &FileInfo)| (e.0@, e.1@))
}

/// `im::OrdMap::new`: the empty map.
#[verifier::external_body]
pub(crate) fn files_new() -> (m: OrdMap<String, FileInfo>)
    ensures
        map_entries(m) == Seq::<Entry>::empty(),
{
    OrdMap::new()
}

/// `im::OrdMap::insert`: stores `info` under `path`, in place of what was
/// stored there before, and keeps the keys in ascending order.
#[verifier::external_body]
pub(crate) fn files_insert(m: &mut OrdMap<String, FileInfo>, path: String, info: FileInfo)
    ensures
        map_entries(*final(m)) == entries_insert(map_entries(*old(m)), path@, info@),
{
    m.insert(path, info);
}

/// `im::OrdMap::iter`: the entries of the map, from the lowest key to the
/// highest.
#[verifier::external_body]
pub(crate) fn files_list(m: &OrdMap<String, FileInfo>) -> (list: Vec<(&String, &FileInfo)>)
    ensures
        listed(list@) == map_entries(*m),
{
    m.iter().collect()
}

/// The patch of one revision.
#[derive(Debug)]
pub struct ChangeSet {
    /// The name of the revision.
    pub githash: String,
    /// What the patch does, file by file.
    pub files: OrdMap<String, FileInfo>,
}

/// A patch over views: the revision's name and the entries in ascending
/// order of their paths.
pub struct ChangeSetView {
    pub githash: Seq<char>,
    pub files: Seq<Entry>,
}

impl View for ChangeSet {
    type V = ChangeSetView;

    open spec fn view(&self) -> ChangeSetView {
        ChangeSetView { githash: self.githash@, files: map_entries(self.files) }
    }
}

} // verus!
