//! The simulated file tree and what one patch does to it.
//!
//! Every path is in one of three states: known by the id of its content and
//! not read yet, removed, or loaded with its lines in memory. A path that the
//! tree does not hold stands for a file that does not exist. Each kind of
//! patch has a defined outcome in each state.

use crate::changeset::{files_list, listed, ChangeSet, ChangeSetView, Entry};
use crate::hunks::{apply_hunks, apply_hunks_spec};
use crate::text::{split_lines, text_lines};
use crate::model::{
    FileInfo, FileInfoView, FileKind, FileState, FileStateView, MergeError, MergeErrors,
};
use vstd::hash_map::StringHashMap;
use vstd::prelude::*;
use vstd::string::StringExecFns;

verus! {

/// The simulated tree: the state of each path.
pub struct FileSet {
    pub files: StringHashMap<FileState>,
}

/// A tree over views.
pub type Tree = Map<Seq<char>, FileStateView>;

/// The failures of one patch over views.
pub type Failures = Seq<(Seq<char>, MergeError)>;

impl View for FileSet {
    type V = Tree;

    open spec fn view(&self) -> Tree {
        self.files@.map_values(|state: FileState| state@)
    }
}

/// Whether a file exists at `path`: the tree holds the path, and not as
/// removed.
pub open spec fn exists_at(tree: Tree, path: Seq<char>) -> bool {
    tree.contains_key(path) && !(tree[path] is Removed)
}

/// What one entry of a patch does to the tree, and the failure that it
/// records, if any.
///
/// A deletion leaves the path removed, whatever it was. An addition needs a
/// path at which no file exists and exactly one hunk, whose target becomes
/// the content. A modification needs a loaded file; it applies its hunks and
/// keeps what they made of the content, also when one of them failed.
pub open spec fn apply_file(tree: Tree, path: Seq<char>, info: FileInfoView) -> (
    Tree,
    Option<MergeError>,
) {
    match info.kind {
        FileKind::Deletion => (tree.insert(path, FileStateView::Removed), None),
        FileKind::Addition => if exists_at(tree, path) {
            (tree, Some(MergeError::AddExisting))
        } else if info.hunks.len() != 1 {
            (tree, Some(MergeError::MalformedAddition))
        } else {
            (tree.insert(path, FileStateView::Loaded(info.hunks[0].1.target)), None)
        },
        FileKind::Changes => if !exists_at(tree, path) {
            (tree, Some(MergeError::ModifyNonexistent))
        } else {
            match tree[path] {
                FileStateView::Loaded(content) => (
                    tree.insert(
                        path,
                        FileStateView::Loaded(apply_hunks_spec(content, info.hunks).0),
                    ),
                    apply_hunks_spec(content, info.hunks).1,
                ),
                _ => (tree, Some(MergeError::ContentNotLoaded)),
            }
        },
    }
}

/// The failures with that of one more file, if it has one.
pub open spec fn record(failures: Failures, path: Seq<char>, failure: Option<MergeError>) -> Failures {
    match failure {
        None => failures,
        Some(e) => failures.push((path, e)),
    }
}

/// What the entries of a patch do to the tree, one after the other, and the
/// failures that they add to `failures`. A failure on one file does not keep
/// the files behind it from being tried.
pub open spec fn apply_from(tree: Tree, entries: Seq<Entry>, failures: Failures) -> (Tree, Failures)
    decreases entries.len(),
{
    if entries.len() == 0 {
        (tree, failures)
    } else {
        apply_from(
            apply_file(tree, entries[0].0, entries[0].1).0,
            entries.skip(1),
            record(failures, entries[0].0, apply_file(tree, entries[0].0, entries[0].1).1),
        )
    }
}

/// What a patch does to the tree, and its failures in the order of its files.
pub open spec fn apply_spec(tree: Tree, changeset: ChangeSetView) -> (Tree, Failures) {
    apply_from(tree, changeset.files, Seq::empty())
}

/// Whether an entry of a patch cannot be applied before the content of its
/// file has been read: it modifies a file that the tree knows only by the id
/// of its content.
pub open spec fn needs_content(tree: Tree, entry: Entry) -> bool {
    entry.1.kind == FileKind::Changes && tree.contains_key(entry.0) && tree[entry.0] is Oid
}

/// The first entry of a patch that needs content read, as the path and the
/// id of its content.
pub open spec fn first_unread(tree: Tree, entries: Seq<Entry>) -> Option<(Seq<char>, git2::Oid)>
    decreases entries.len(),
{
    if entries.len() == 0 {
        None
    } else if needs_content(tree, entries[0]) {
        Some((entries[0].0, tree[entries[0].0]->Oid_0))
    } else {
        first_unread(tree, entries.skip(1))
    }
}

/// The tree after the content of `path` has been read as `text`: a path that
/// was known by its id holds the lines of the text, and any other tree is
/// left as it was.
pub open spec fn load_spec(tree: Tree, path: Seq<char>, text: Seq<char>) -> Tree {
    if tree.contains_key(path) && tree[path] is Oid {
        tree.insert(path, FileStateView::Loaded(text_lines(text)))
    } else {
        tree
    }
}

/// A file that one patch deleted cannot be modified by a later one: the
/// modification fails as that of a file that does not exist, and leaves the
/// path removed.
pub proof fn law_modify_after_delete(
    tree: Tree,
    path: Seq<char>,
    deletion: FileInfoView,
    modification: FileInfoView,
)
    requires
        deletion.kind == FileKind::Deletion,
        modification.kind == FileKind::Changes,
    ensures
        apply_file(apply_file(tree, path, deletion).0, path, modification) == (
            apply_file(tree, path, deletion).0,
            Some(MergeError::ModifyNonexistent),
        ),
        apply_file(tree, path, deletion).0[path] is Removed,
{
}

impl FileSet {
    /// The empty tree.
    pub fn new() -> (fs: FileSet)
        ensures
            fs@ == Tree::empty(),
    {
        let fs = FileSet { files: StringHashMap::new() };
        assert(fs@ =~= Tree::empty());
        fs
    }

    /// Puts `path` into `state`.
    pub fn insert(&mut self, path: String, state: FileState)
        ensures
            final(self)@ == old(self)@.insert(path@, state@),
    {
        self.files.insert(path, state);
        assert(self@ =~= old(self)@.insert(path@, state@));
    }

    /// The state of `path`, if the tree holds it.
    pub fn get(&self, path: &str) -> (state: Option<&FileState>)
        ensures
            match state {
                Some(s) => self@.contains_key(path@) && self@[path@] == s@,
                None => !self@.contains_key(path@),
            },
    {
        self.files.get(path)
    }

    /// Records one entry met on a walk through the base tree. Only a named
    /// entry that is a blob is a file: it is known from now on by the id of
    /// its content, under the path of its directory followed by its name.
    pub fn record_tree_entry(&mut self, root: &str, name: Option<&str>, is_blob: bool, id: git2::Oid)
        ensures
            final(self)@ == (match name {
                Some(n) if is_blob => old(self)@.insert(root@ + n@, FileStateView::Oid(id)),
                _ => old(self)@,
            }),
    {
        if let Some(n) = name {
            if is_blob {
                self.insert(root.to_owned().concat(n), FileState::Oid(id));
            }
        }
    }

    /// Takes the content of `path`, read from where the base tree keeps it, and
    /// holds its lines from now on. Says whether the tree was waiting for it.
    pub fn load(&mut self, path: &str, text: &str) -> (loaded: bool)
        ensures
            final(self)@ == load_spec(old(self)@, path@, text@),
            loaded == (old(self)@.contains_key(path@) && old(self)@[path@] is Oid),
    {
        let waiting = match self.get(path) {
            Some(FileState::Oid(_)) => true,
            _ => false,
        };
        if waiting {
            self.insert(path.to_owned(), FileState::Loaded(split_lines(text)));
        }
        waiting
    }

    /// The first file of `changeset` whose content must be read before the
    /// patch can be applied.
    pub fn find_unread(&self, changeset: &ChangeSet) -> (found: Option<(String, git2::Oid)>)
        ensures
            match first_unread(self@, changeset@.files) {
                Some((path, id)) => found matches Some((p, i)) && p@ == path && i == id,
                None => found is None,
            },
    {
        let list = files_list(&changeset.files);
        let ghost entries = changeset@.files;
        let mut i: usize = 0;
        assert(entries.skip(0) =~= entries);
        while i < list.len()
            invariant
                0 <= i <= list.len(),
                entries == changeset@.files,
                listed(list@) == entries,
                first_unread(self@, entries.skip(i as int)) == first_unread(self@, entries),
            decreases list.len() - i,
        {
            let path = list[i].0;
            let info = list[i].1;
            assert(entries[i as int] == (path@, info@));
            assert(entries.skip(i as int).skip(1) =~= entries.skip(i + 1));
            if let FileKind::Changes = info.kind {
                if let Some(FileState::Oid(id)) = self.get(path.as_str()) {
                    return Some((path.clone(), id.clone()));
                }
            }
            i += 1;
        }
        None
    }

    /// Applies one entry of a patch.
    pub fn apply_file(&mut self, path: &String, info: &FileInfo) -> (failure: Option<MergeError>)
        ensures
            final(self)@ == apply_file(old(self)@, path@, info@).0,
            failure == apply_file(old(self)@, path@, info@).1,
    {
        match info.kind {
            FileKind::Deletion => {
                self.insert(path.clone(), FileState::Removed);
                None
            },
            FileKind::Addition => {
                let present = match self.get(path.as_str()) {
                    None | Some(FileState::Removed) => false,
                    _ => true,
                };
                if present {
                    Some(MergeError::AddExisting)
                } else if info.hunks.len() != 1 {
                    Some(MergeError::MalformedAddition)
                } else {
                    self.insert(path.clone(), FileState::Loaded(info.hunks[0].1.target.clone()));
                    None
                }
            },
            FileKind::Changes => {
                match self.get(path.as_str()) {
                    None | Some(FileState::Removed) => Some(MergeError::ModifyNonexistent),
                    Some(FileState::Oid(_)) => Some(MergeError::ContentNotLoaded),
                    Some(FileState::Loaded(lines)) => {
                        let mut content = lines.clone();
                        let outcome = apply_hunks(info, &mut content);
                        self.insert(path.clone(), FileState::Loaded(content));
                        match outcome {
                            Ok(()) => None,
                            Err(e) => Some(e),
                        }
                    },
                }
            },
        }
    }
}

/// Applies a patch to the tree, file by file in ascending order of the paths.
///
/// The tree is changed in place. The patch fails as a whole when any of its
/// files fails; the failures then come back in the order of the files.
pub fn apply(fs: &mut FileSet, changeset: &ChangeSet) -> (r: Result<(), MergeErrors>)
    ensures
        final(fs)@ == apply_spec(old(fs)@, changeset@).0,
        match r {
            Ok(_) => apply_spec(old(fs)@, changeset@).1.len() == 0,
            Err(errors) => errors@ == apply_spec(old(fs)@, changeset@).1 && errors@.len() > 0,
        },
{
    let list = files_list(&changeset.files);
    let ghost entries = changeset@.files;
    let mut merge_errors = MergeErrors { list: Vec::new() };
    let mut i: usize = 0;
    assert(entries.skip(0) =~= entries);
    assert(merge_errors@ =~= Seq::empty());
    while i < list.len()
        invariant
            0 <= i <= list.len(),
            entries == changeset@.files,
            listed(list@) == entries,
            apply_from(fs@, entries.skip(i as int), merge_errors@) == apply_spec(
                old(fs)@,
                changeset@,
            ),
        decreases list.len() - i,
    {
        let path = list[i].0;
        let info = list[i].1;
        let ghost before = merge_errors@;
        assert(entries[i as int] == (path@, info@));
        assert(entries.skip(i as int).skip(1) =~= entries.skip(i + 1));
        match fs.apply_file(path, info) {
            None => {},
            Some(e) => {
                merge_errors.list.push((path.clone(), e));
                assert(merge_errors@ =~= before.push((path@, e)));
            },
        }
        i += 1;
    }
    if merge_errors.list.len() > 0 {
        return Err(merge_errors);
    }
    Ok(())
}

} // verus!
