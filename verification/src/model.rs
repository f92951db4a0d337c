//! The patch model: hunks, per-file patch information, file states and the
//! records of failure, each with the mathematical view that the contracts of
//! this crate speak of.

use crate::lines::vector_lines;
use git2::Oid;
use im::Vector;
use std::rc::Rc;
use vstd::prelude::*;

verus! {

#[verifier::external_type_specification]
#[verifier::external_body]
pub struct ExOid(git2::Oid);

/// `git2::Oid::clone`: an object id is plain data, and its copy is equal to it.
pub assume_specification[ <git2::Oid as Clone>::clone ](id: &git2::Oid) -> (copy: git2::Oid)
    ensures
        copy == *id,
;

/// A 0-based line number.
pub type LineNr = usize;

/// What a patch does to one file as a whole.
#[derive(Clone, Copy, Debug, PartialEq, Eq, Structural)]
pub enum FileKind {
    /// The file is created by the patch.
    Addition,
    /// The file exists before and after the patch.
    Changes,
    /// The file is removed by the patch.
    Deletion,
}

/// One contiguous fragment of a patch.
///
/// `source` holds the lines expected in the file before the patch (removed
/// and context lines), `target` the lines that stand there afterwards (added
/// and context lines).
#[derive(Clone, Debug)]
pub struct Hunk {
    pub source: Vector<Rc<String>>,
    pub target: Vector<Rc<String>>,
}

/// The two sides of a hunk as sequences of lines.
pub struct HunkView {
    pub source: Seq<Seq<char>>,
    pub target: Seq<Seq<char>>,
}

impl View for Hunk {
    type V = HunkView;

    open spec fn view(&self) -> HunkView {
        HunkView { source: vector_lines(self.source), target: vector_lines(self.target) }
    }
}

impl HunkView {
    /// The change in the number of lines that applying the hunk brings.
    pub open spec fn growth(self) -> int {
        self.target.len() - self.source.len()
    }
}

/// The hunks of one file in one patch, each with its predicted source line.
#[derive(Clone, Debug)]
pub struct FileInfo {
    pub kind: FileKind,
    pub hunks: Vec<(LineNr, Hunk)>,
}

/// A file's patch information over views.
pub struct FileInfoView {
    pub kind: FileKind,
    pub hunks: Seq<(LineNr, HunkView)>,
}

impl View for FileInfo {
    type V = FileInfoView;

    open spec fn view(&self) -> FileInfoView {
        FileInfoView {
            kind: self.kind,
            hunks: self.hunks@.map_values(|p: (LineNr, Hunk)| (p.0, p.1@)),
        }
    }
}

/// Why a patch could not be applied to one file.
#[derive(Clone, Copy, Debug, PartialEq, Eq, Structural)]
pub enum MergeError {
    /// No placement was found for the hunk predicted at this line.
    UnappliedHunk(u32),
    /// Applying the hunk predicted at this line would give the file more
    /// lines than can be counted.
    TooManyLines(u32),
    /// The patch modifies a file that does not exist at this point.
    ModifyNonexistent,
    /// The patch modifies a file whose content has not been read yet.
    ContentNotLoaded,
    /// The patch adds a file that exists at this point.
    AddExisting,
    /// The patch adds a file with no hunk, or with more than one.
    MalformedAddition,
}

/// The failures of one patch, one per file, in the order of the files.
#[derive(Debug)]
pub struct MergeErrors {
    pub list: Vec<(String, MergeError)>,
}

impl View for MergeErrors {
    type V = Seq<(Seq<char>, MergeError)>;

    open spec fn view(&self) -> Seq<(Seq<char>, MergeError)> {
        self.list@.map_values(|p: (String, MergeError)| (p.0@, p.1))
    }
}

/// The simulated state of one path.
#[derive(Clone, Debug)]
pub enum FileState {
    /// The file exists in the base tree and its content has not been read.
    Oid(Oid),
    /// The file does not exist at this point.
    Removed,
    /// The file exists and these are its lines.
    Loaded(Vector<Rc<String>>),
}

/// The state of one path over views.
pub enum FileStateView {
    Oid(Oid),
    Removed,
    Loaded(Seq<Seq<char>>),
}

impl View for FileState {
    type V = FileStateView;

    open spec fn view(&self) -> FileStateView {
        match *self {
            FileState::Oid(id) => FileStateView::Oid(id),
            FileState::Removed => FileStateView::Removed,
            FileState::Loaded(lines) => FileStateView::Loaded(vector_lines(lines)),
        }
    }
}

} // verus!
