//! From the text of a unified diff to the patch of a revision.
//!
//! The text is parsed by `unidiff`. What the parser found is copied into
//! plain values, [`FileDiff`], and the patch is built from those: the kind of
//! each file, the two sides of each hunk, and the predicted line of each
//! hunk, counted from 0.

use crate::changeset::{entries_insert, files_insert, files_new, map_entries, ChangeSet, ChangeSetView, Entry};
use crate::error::{Error, ErrorView};
use crate::guard::{is_parser_safe, parser_safe};
use crate::lines::{lines_new, lines_push_back, vector_lines};
use crate::model::{FileInfo, FileInfoView, FileKind, Hunk, HunkView, LineNr};
use std::rc::Rc;
use vstd::prelude::*;
use vstd::string::StringSliceAdditionalSpecFns;
use vstd::utf8::encode_utf8;

verus! {

/// One line of a hunk as the parser found it: its tag and its text.
pub struct DiffLine {
    pub line_type: String,
    pub value: String,
}

/// One hunk as the parser found it: the line of the source file at which it
/// starts, counted from 1, and its lines.
pub struct DiffHunk {
    pub source_start: usize,
    pub lines: Vec<DiffLine>,
}

/// One file of a diff as the parser found it.
pub struct FileDiff {
    pub path: String,
    pub added: bool,
    pub removed: bool,
    pub hunks: Vec<DiffHunk>,
}

/// A parsed line over views.
pub struct DiffLineView {
    pub line_type: Seq<char>,
    pub value: Seq<char>,
}

/// A parsed hunk over views.
pub struct DiffHunkView {
    pub source_start: usize,
    pub lines: Seq<DiffLineView>,
}

/// A parsed file over views.
pub struct FileDiffView {
    pub path: Seq<char>,
    pub added: bool,
    pub removed: bool,
    pub hunks: Seq<DiffHunkView>,
}

impl View for DiffLine {
    type V = DiffLineView;

    open spec fn view(&self) -> DiffLineView {
        DiffLineView { line_type: self.line_type@, value: self.value@ }
    }
}

impl View for DiffHunk {
    type V = DiffHunkView;

    open spec fn view(&self) -> DiffHunkView {
        DiffHunkView {
            source_start: self.source_start,
            lines: line_views(self.lines@),
        }
    }
}

impl View for FileDiff {
    type V = FileDiffView;

    open spec fn view(&self) -> FileDiffView {
        FileDiffView {
            path: self.path@,
            added: self.added,
            removed: self.removed,
            hunks: self.hunks@.map_values(|h: DiffHunk| h@),
        }
    }
}

/// The lines of a hunk over views.
pub open spec fn line_views(lines: Seq<DiffLine>) -> Seq<DiffLineView> {
    lines.map_values(|l: DiffLine| l@)
}

/// The files of a diff over views.
pub open spec fn file_views(files: Seq<FileDiff>) -> Seq<FileDiffView> {
    files.map_values(|f: FileDiff| f@)
}

/// What the diff parser makes of a text: the files it found, or the message
/// with which it refused the text.
pub uninterp spec fn parsed_diff(text: Seq<char>) -> Result<Seq<FileDiffView>, Seq<char>>;

/// What a parse returned, over views.
pub open spec fn parse_view(r: Result<Vec<FileDiff>, String>) -> Result<Seq<FileDiffView>, Seq<char>> {
    match r {
        Ok(files) => Ok(file_views(files@)),
        Err(message) => Err(message@),
    }
}

/// `unidiff::PatchSet::parse`, with the files read out through
/// `PatchSet::files`, `PatchedFile::path`, `is_added_file`, `is_removed_file`
/// and `hunks`, and `Hunk::lines`.
///
/// The result depends on the text alone. The parser unwraps what it reads
/// from headers, so the text must be one that [`parser_safe`] admits.
#[verifier::external_body]
fn parse_patch(text: &str) -> (r: Result<Vec<FileDiff>, String>)
    requires
        parser_safe(text.spec_bytes()),
    ensures
        parse_view(r) == parsed_diff(text@),
{
    let mut set = unidiff::PatchSet::new();
    set.parse(text).map_err(|e| e.to_string())?;
    Ok(set.files().iter().map(|f| FileDiff {
        path: f.path(),
        added: f.is_added_file(),
        removed: f.is_removed_file(),
        hunks: f.hunks().iter().map(|h| DiffHunk {
            source_start: h.source_start,
            lines: h.lines().iter().map(|l| DiffLine {
                line_type: l.line_type.clone(),
                value: l.value.clone(),
            }).collect(),
        }).collect(),
    }).collect())
}

/// What a line of a hunk is.
#[derive(Clone, Copy, Debug, PartialEq, Eq, Structural)]
pub enum LineTag {
    /// The line stands only in the target.
    Added,
    /// The line stands only in the source.
    Removed,
    /// The line stands in both.
    Context,
    /// A placeholder that stands for an empty line in both.
    Empty,
}

/// The tag that a line type stands for: `+`, `-`, a space or a line feed.
pub open spec fn tag_of(line_type: Seq<char>) -> Option<LineTag> {
    if line_type.len() != 1 {
        None
    } else if line_type[0] == '+' {
        Some(LineTag::Added)
    } else if line_type[0] == '-' {
        Some(LineTag::Removed)
    } else if line_type[0] == ' ' {
        Some(LineTag::Context)
    } else if line_type[0] == '\n' {
        Some(LineTag::Empty)
    } else {
        None
    }
}

/// What one line of a hunk adds to the source side (`source`) or to the
/// target side of its hunk.
pub open spec fn side_line(line: DiffLineView, source: bool) -> Option<Seq<char>> {
    match tag_of(line.line_type) {
        Some(LineTag::Added) => if source {
            None
        } else {
            Some(line.value)
        },
        Some(LineTag::Removed) => if source {
            Some(line.value)
        } else {
            None
        },
        Some(LineTag::Context) => Some(line.value),
        Some(LineTag::Empty) => Some(Seq::empty()),
        None => None,
    }
}

/// One side of a hunk: what its lines add to that side, in their order.
pub open spec fn hunk_side(lines: Seq<DiffLineView>, source: bool) -> Seq<Seq<char>>
    decreases lines.len(),
{
    if lines.len() == 0 {
        Seq::empty()
    } else {
        match side_line(lines.last(), source) {
            Some(text) => hunk_side(lines.drop_last(), source).push(text),
            None => hunk_side(lines.drop_last(), source),
        }
    }
}

/// The kind of a file: an added file is an addition, a removed one a
/// deletion, any other a modification.
pub open spec fn kind_of(file: FileDiffView) -> FileKind {
    if file.added {
        FileKind::Addition
    } else if file.removed {
        FileKind::Deletion
    } else {
        FileKind::Changes
    }
}

/// The predicted line of a hunk. A modification counts lines from 1 in the
/// diff and from 0 here; the hunk of an added or removed file keeps its
/// number.
pub open spec fn predicted(kind: FileKind, source_start: usize) -> int {
    if kind == FileKind::Changes {
        source_start - 1
    } else {
        source_start as int
    }
}

/// The hunk that the lines of a parsed hunk describe.
pub open spec fn hunk_of(hunk: DiffHunkView) -> HunkView {
    HunkView { source: hunk_side(hunk.lines, true), target: hunk_side(hunk.lines, false) }
}

/// The patch information of a parsed file.
pub open spec fn info_of(file: FileDiffView) -> FileInfoView {
    FileInfoView {
        kind: kind_of(file),
        hunks: file.hunks.map_values(
            |h: DiffHunkView| (predicted(kind_of(file), h.source_start) as usize, hunk_of(h)),
        ),
    }
}

/// The entries of the patch that parsed files describe. A file without hunks
/// is left out; of two files with one path the later one stays.
pub open spec fn entries_of(files: Seq<FileDiffView>) -> Seq<Entry>
    decreases files.len(),
{
    if files.len() == 0 {
        Seq::empty()
    } else if files.last().hunks.len() == 0 {
        entries_of(files.drop_last())
    } else {
        entries_insert(entries_of(files.drop_last()), files.last().path, info_of(files.last()))
    }
}

/// Whether every one of the lines carries one of the four tags.
pub open spec fn lines_tagged(lines: Seq<DiffLineView>) -> bool {
    forall|l: int| 0 <= l < lines.len() ==> tag_of((#[trigger] lines[l]).line_type) is Some
}

/// Whether every line of a hunk carries one of the four tags.
pub open spec fn hunk_tagged(hunk: DiffHunkView) -> bool {
    lines_tagged(hunk.lines)
}

/// Whether every line of every hunk of a file carries one of the four tags.
pub open spec fn file_tagged(file: FileDiffView) -> bool {
    forall|h: int| 0 <= h < file.hunks.len() ==> hunk_tagged(#[trigger] file.hunks[h])
}

/// Whether every line of every hunk carries one of the four tags.
pub open spec fn all_tagged(files: Seq<FileDiffView>) -> bool {
    forall|f: int| 0 <= f < files.len() ==> file_tagged(#[trigger] files[f])
}

/// Whether the hunks of a file come in ascending order of their predicted
/// lines, none of them before the first line of the file.
pub open spec fn ordered(file: FileDiffView) -> bool {
    &&& forall|h: int|
        0 <= h < file.hunks.len() ==> predicted(kind_of(file), (#[trigger] file.hunks[h]).source_start)
            >= 0
    &&& forall|h: int, k: int|
        0 <= h <= k < file.hunks.len() ==> (#[trigger] file.hunks[h]).source_start
            <= (#[trigger] file.hunks[k]).source_start
}

/// Whether the hunks of every file are ordered.
pub open spec fn all_ordered(files: Seq<FileDiffView>) -> bool {
    forall|f: int| 0 <= f < files.len() ==> ordered(#[trigger] files[f])
}

/// The hunks of a file that is ordered stand in ascending order of their
/// predicted lines in its patch information.
pub proof fn law_hunks_ascend(file: FileDiffView, h: int, k: int)
    requires
        ordered(file),
        0 <= h <= k < file.hunks.len(),
    ensures
        info_of(file).hunks[h].0 <= info_of(file).hunks[k].0,
        info_of(file).hunks[h].0 == predicted(kind_of(file), file.hunks[h].source_start),
{
    assert(file.hunks[h].source_start <= file.hunks[k].source_start);
    assert(predicted(kind_of(file), file.hunks[h].source_start) >= 0);
    assert(predicted(kind_of(file), file.hunks[k].source_start) >= 0);
}

/// The patch that parsed files describe, or why they describe none: a line
/// with an unknown tag, or else hunks out of order.
pub open spec fn build_spec(githash: Seq<char>, files: Seq<FileDiffView>) -> Result<
    ChangeSetView,
    ErrorView,
> {
    if !all_tagged(files) {
        Err(ErrorView::UnknownLineType)
    } else if !all_ordered(files) {
        Err(ErrorView::NonMonotonicPatchLines)
    } else {
        Ok(ChangeSetView { githash, files: entries_of(files) })
    }
}

/// The patch that a diff text describes, or why it describes none.
pub open spec fn commit_spec(githash: Seq<char>, text: Seq<char>) -> Result<
    ChangeSetView,
    ErrorView,
> {
    if !parser_safe(encode_utf8(text)) {
        Err(ErrorView::UnsupportedDiff)
    } else {
        match parsed_diff(text) {
            Err(message) => Err(ErrorView::UniDiff(message)),
            Ok(files) => build_spec(githash, files),
        }
    }
}

/// A result over views.
pub open spec fn outcome_view(r: Result<ChangeSet, Error>) -> Result<ChangeSetView, ErrorView> {
    match r {
        Ok(changeset) => Ok(changeset@),
        Err(e) => Err(e@),
    }
}

/// Reads the tag of a line.
fn classify(line_type: &str) -> (tag: Option<LineTag>)
    ensures
        tag == tag_of(line_type@),
{
    if line_type.unicode_len() != 1 {
        return None;
    }
    let c = line_type.get_char(0);
    if c == '+' {
        Some(LineTag::Added)
    } else if c == '-' {
        Some(LineTag::Removed)
    } else if c == ' ' {
        Some(LineTag::Context)
    } else if c == '\n' {
        Some(LineTag::Empty)
    } else {
        None
    }
}

/// Builds the two sides of a hunk from its lines: an added line goes to the
/// target, a removed line to the source, a context line to both, and the
/// empty placeholder puts an empty line into both. A line with any other tag
/// makes the hunk unreadable.
pub fn build_hunk(lines: &Vec<DiffLine>) -> (r: Option<Hunk>)
    ensures
        match r {
            Some(hunk) => lines_tagged(line_views(lines@)) && hunk@.source == hunk_side(
                line_views(lines@),
                true,
            ) && hunk@.target == hunk_side(line_views(lines@), false),
            None => !lines_tagged(line_views(lines@)),
        },
{
    let ghost all = line_views(lines@);
    let mut source = lines_new();
    let mut target = lines_new();
    let mut i: usize = 0;
    assert(all.take(0) =~= Seq::<DiffLineView>::empty());
    while i < lines.len()
        invariant
            0 <= i <= lines.len(),
            all == line_views(lines@),
            vector_lines(source).len() <= i,
            vector_lines(target).len() <= i,
            forall|l: int| 0 <= l < i ==> tag_of((#[trigger] all[l]).line_type) is Some,
            vector_lines(source) == hunk_side(all.take(i as int), true),
            vector_lines(target) == hunk_side(all.take(i as int), false),
        decreases lines.len() - i,
    {
        let line = &lines[i];
        assert(all[i as int] == line@);
        assert(all.take(i + 1).drop_last() =~= all.take(i as int));
        assert(all.take(i + 1).last() == line@);
        match classify(line.line_type.as_str()) {
            Some(LineTag::Added) => {
                lines_push_back(&mut target, Rc::new(line.value.clone()));
            },
            Some(LineTag::Removed) => {
                lines_push_back(&mut source, Rc::new(line.value.clone()));
            },
            Some(LineTag::Context) => {
                lines_push_back(&mut source, Rc::new(line.value.clone()));
                lines_push_back(&mut target, Rc::new(line.value.clone()));
            },
            Some(LineTag::Empty) => {
                lines_push_back(&mut source, Rc::new(String::new()));
                lines_push_back(&mut target, Rc::new(String::new()));
            },
            None => {
                return None;
            },
        }
        i += 1;
    }
    assert(all.take(lines.len() as int) =~= all);
    Some(Hunk { source, target })
}

/// Builds the patch information of one parsed file, and says whether its
/// hunks are ordered. Gives nothing where a line carries an unknown tag.
fn build_info(file: &FileDiff) -> (r: Option<(FileInfo, bool)>)
    ensures
        match r {
            Some((info, in_order)) => file_tagged(file@) && in_order == ordered(file@) && (in_order
                ==> info@ == info_of(file@)),
            None => !file_tagged(file@),
        },
{
    let ghost view = file@;
    let kind = if file.added {
        FileKind::Addition
    } else if file.removed {
        FileKind::Deletion
    } else {
        FileKind::Changes
    };
    let mut hunks: Vec<(LineNr, Hunk)> = Vec::new();
    let mut in_order = true;
    let mut last: usize = 0;
    let mut i: usize = 0;
    while i < file.hunks.len()
        invariant
            0 <= i <= file.hunks.len(),
            view == file@,
            kind == kind_of(view),
            hunks.len() == i,
            forall|h: int| 0 <= h < i ==> hunk_tagged(#[trigger] view.hunks[h]),
            !in_order ==> !ordered(view),
            i == 0 ==> last == 0,
            i > 0 ==> last == view.hunks[i - 1].source_start,
            in_order ==> forall|h: int|
                0 <= h < i ==> (#[trigger] view.hunks[h]).source_start <= last && predicted(
                    kind,
                    view.hunks[h].source_start,
                ) >= 0,
            in_order ==> forall|h: int, k: int|
                0 <= h <= k < i ==> (#[trigger] view.hunks[h]).source_start
                    <= (#[trigger] view.hunks[k]).source_start,
            in_order ==> forall|h: int|
                0 <= h < i ==> (#[trigger] hunks@[h]).0 == predicted(
                    kind,
                    view.hunks[h].source_start,
                ) && hunks@[h].1@ == hunk_of(view.hunks[h]),
        decreases file.hunks.len() - i,
    {
        let parsed = &file.hunks[i];
        assert(view.hunks[i as int] == parsed@);
        let hunk = match build_hunk(&parsed.lines) {
            Some(hunk) => hunk,
            None => {
                assert(!hunk_tagged(view.hunks[i as int]));
                return None;
            },
        };
        assert(hunk_tagged(view.hunks[i as int]));
        let start = parsed.source_start;
        let changes = match kind {
            FileKind::Changes => true,
            _ => false,
        };
        if start < last || (changes && start == 0) {
            proof {
                if start < last {
                    assert(view.hunks[i - 1].source_start > view.hunks[i as int].source_start);
                } else {
                    assert(predicted(kind, view.hunks[i as int].source_start) < 0);
                }
            }
            in_order = false;
        }
        let line = if changes && start > 0 {
            start - 1
        } else {
            start
        };
        hunks.push((line, hunk));
        last = start;
        i += 1;
    }
    let info = FileInfo { kind, hunks };
    proof {
        if in_order {
            assert(info@.hunks =~= info_of(view).hunks);
        }
    }
    Some((info, in_order))
}

/// Builds the patch of a revision from the files of its diff.
///
/// A file without hunks is left out. The patch is refused where a line
/// carries an unknown tag, and else where the hunks of a file are out of
/// order.
pub fn build_changeset(githash: &str, files: &Vec<FileDiff>) -> (r: Result<ChangeSet, Error>)
    ensures
        outcome_view(r) == build_spec(githash@, file_views(files@)),
{
    let ghost views = file_views(files@);
    let mut map = files_new();
    let mut in_order = true;
    let mut i: usize = 0;
    assert(views.take(0) =~= Seq::<FileDiffView>::empty());
    while i < files.len()
        invariant
            0 <= i <= files.len(),
            views == file_views(files@),
            forall|f: int| 0 <= f < i ==> file_tagged(#[trigger] views[f]),
            in_order <==> forall|f: int| 0 <= f < i ==> ordered(#[trigger] views[f]),
            in_order ==> map_entries(map) == entries_of(views.take(i as int)),
        decreases files.len() - i,
    {
        let file = &files[i];
        assert(views[i as int] == file@);
        assert(views.take(i + 1).drop_last() =~= views.take(i as int));
        assert(views.take(i + 1).last() == file@);
        match build_info(file) {
            None => {
                return Err(Error::UnknownLineType);
            },
            Some((info, file_in_order)) => {
                if !file_in_order {
                    in_order = false;
                } else if in_order && file.hunks.len() > 0 {
                    files_insert(&mut map, file.path.clone(), info);
                }
            },
        }
        i += 1;
    }
    assert(views.take(files.len() as int) =~= views);
    if !in_order {
        return Err(Error::NonMonotonicPatchLines);
    }
    Ok(ChangeSet { githash: githash.to_owned(), files: map })
}

/// Reads the patch of the revision `githash` from the text of its diff.
///
/// The text is refused as unsupported where the diff parser could not take
/// it, and with the parser's message where the parser refuses it. What the
/// parser found is then built into the patch as [`build_changeset`] says.
pub fn add_commit_text(githash: &Option<String>, lines: &String) -> (r: Result<ChangeSet, Error>)
    requires
        githash is Some,
    ensures
        outcome_view(r) == commit_spec(githash->Some_0@, lines@),
{
    let name = match githash {
        Some(name) => name,
        None => {
            return Err(Error::NotScriptFile);
        },
    };
    let text = lines.as_str();
    if !is_parser_safe(text) {
        return Err(Error::UnsupportedDiff);
    }
    match parse_patch(text) {
        Err(message) => Err(Error::UniDiff(message)),
        Ok(files) => build_changeset(name.as_str(), &files),
    }
}

} // verus!
