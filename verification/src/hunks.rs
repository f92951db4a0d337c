//! Applying the hunks of one file.
//!
//! A placed hunk replaces its source window by its target lines. The hunks of
//! a file are applied in their stored order; each moves the lines behind it
//! by the difference of its two sides, and that drift is added to the
//! predicted line of every later hunk. The first hunk that cannot be placed
//! ends the work on the file.

use crate::lines::{lines_append, lines_len, lines_split_off, vector_lines};
use crate::locate::{lemma_placement_matches, locate, placement};
use crate::model::{FileInfo, Hunk, HunkView, LineNr, MergeError};
use im::Vector;
use std::rc::Rc;
use vstd::prelude::*;

verus! {

/// The file after the window of `hunk.source.len()` lines at `pos` has been
/// replaced by `hunk.target`.
pub open spec fn splice_spec(content: Seq<Seq<char>>, pos: int, hunk: HunkView) -> Seq<Seq<char>> {
    content.take(pos) + hunk.target + content.skip(pos + hunk.source.len())
}

/// What applying one hunk at drift `drift` does to a file: the new content,
/// or the failure and the content as it was.
pub open spec fn apply_hunk_spec(
    content: Seq<Seq<char>>,
    line: LineNr,
    hunk: HunkView,
    drift: int,
) -> Result<Seq<Seq<char>>, MergeError> {
    match placement(content, hunk.source, line, drift) {
        Err(e) => Err(e),
        Ok(o) => if content.len() + hunk.growth() > usize::MAX {
            Err(MergeError::TooManyLines(line as u32))
        } else {
            Ok(splice_spec(content, line + drift + o, hunk))
        },
    }
}

/// What applying `hunks` in order does to a file, the first of them at drift
/// `drift`: the content when the work ended, and the failure that ended it
/// early, if any. Each hunk that is applied adds its growth to the drift of
/// those behind it.
pub open spec fn apply_hunks_from(
    content: Seq<Seq<char>>,
    hunks: Seq<(LineNr, HunkView)>,
    drift: int,
) -> (Seq<Seq<char>>, Option<MergeError>)
    decreases hunks.len(),
{
    if hunks.len() == 0 {
        (content, None)
    } else {
        match apply_hunk_spec(content, hunks[0].0, hunks[0].1, drift) {
            Err(e) => (content, Some(e)),
            Ok(next) => apply_hunks_from(next, hunks.skip(1), drift + hunks[0].1.growth()),
        }
    }
}

/// What applying the hunks of a file does to its content.
pub open spec fn apply_hunks_spec(content: Seq<Seq<char>>, hunks: Seq<(LineNr, HunkView)>) -> (
    Seq<Seq<char>>,
    Option<MergeError>,
) {
    apply_hunks_from(content, hunks, 0)
}

/// A hunk that is applied changes the length of the file by its growth.
pub proof fn lemma_apply_hunk_len(content: Seq<Seq<char>>, line: LineNr, hunk: HunkView, drift: int)
    requires
        apply_hunk_spec(content, line, hunk, drift) is Ok,
    ensures
        apply_hunk_spec(content, line, hunk, drift)->Ok_0.len() == content.len() + hunk.growth(),
{
    let o = placement(content, hunk.source, line, drift)->Ok_0;
    lemma_placement_matches(content, hunk.source, line + drift, o);
}

/// Drift accumulation: the second hunk of a file is searched from its
/// predicted line plus the growth of the first, in the content that the
/// first hunk left. After a first hunk that brings two lines more than it
/// takes away, that is the predicted line plus two.
pub proof fn law_drift_accumulates(
    content: Seq<Seq<char>>,
    first: (LineNr, HunkView),
    second: (LineNr, HunkView),
)
    requires
        apply_hunk_spec(content, first.0, first.1, 0) is Ok,
    ensures
        apply_hunks_spec(content, seq![first, second]) == match apply_hunk_spec(
            apply_hunk_spec(content, first.0, first.1, 0)->Ok_0,
            second.0,
            second.1,
            first.1.growth(),
        ) {
            Ok(last) => (last, None::<MergeError>),
            Err(e) => (apply_hunk_spec(content, first.0, first.1, 0)->Ok_0, Some(e)),
        },
        first.1.target.len() == first.1.source.len() + 2 ==> first.1.growth() == 2,
{
    let hunks = seq![first, second];
    assert(hunks.skip(1) =~= seq![second]);
    assert(seq![second].skip(1) =~= Seq::<(LineNr, HunkView)>::empty());
    reveal_with_fuel(apply_hunks_from, 3);
}

/// Replaces the window of `hunk.source` lines at `pos` by the target lines of
/// `hunk`.
pub fn splice(content: &mut Vector<Rc<String>>, pos: usize, hunk: &Hunk)
    requires
        pos + hunk@.source.len() <= vector_lines(*old(content)).len(),
        vector_lines(*old(content)).len() + hunk@.growth() <= usize::MAX,
    ensures
        vector_lines(*final(content)) == splice_spec(
            vector_lines(*old(content)),
            pos as int,
            hunk@,
        ),
{
    let taken = lines_len(&hunk.source);
    let mut rest = lines_split_off(content, pos);
    let after = lines_split_off(&mut rest, taken);
    lines_append(content, hunk.target.clone());
    lines_append(content, after);
    proof {
        let before = vector_lines(*old(content));
        assert(before.skip(pos as int).skip(taken as int) =~= before.skip(pos + taken));
    }
}

/// Applies the hunks of `file_info` to `content`, in their stored order.
///
/// On the first hunk that cannot be placed the work stops: `content` keeps
/// what the hunks before it made of it, and the failure names the predicted
/// line of that hunk.
pub fn apply_hunks(file_info: &FileInfo, content: &mut Vector<Rc<String>>) -> (r: Result<
    (),
    MergeError,
>)
    ensures
        vector_lines(*final(content)) == apply_hunks_spec(
            vector_lines(*old(content)),
            file_info@.hunks,
        ).0,
        match apply_hunks_spec(vector_lines(*old(content)), file_info@.hunks).1 {
            None => r is Ok,
            Some(e) => r == Err::<(), MergeError>(e),
        },
{
    let ghost start = vector_lines(*content);
    let ghost hunks = file_info@.hunks;
    let mut drift: i128 = 0;
    let mut i: usize = 0;
    assert(hunks.skip(0) =~= hunks);
    while i < file_info.hunks.len()
        invariant
            0 <= i <= file_info.hunks.len(),
            hunks == file_info@.hunks,
            start == vector_lines(*old(content)),
            hunks.len() == file_info.hunks.len(),
            drift == vector_lines(*content).len() - start.len(),
            apply_hunks_from(vector_lines(*content), hunks.skip(i as int), drift as int)
                == apply_hunks_spec(start, hunks),
        decreases file_info.hunks.len() - i,
    {
        let line = file_info.hunks[i].0;
        let hunk = &file_info.hunks[i].1;
        let ghost now = vector_lines(*content);
        let ghost rest = hunks.skip(i as int);
        assert(rest[0] == (line, hunk@));
        assert(rest.skip(1) =~= hunks.skip(i + 1));
        let offset = match locate(content, hunk, line, drift) {
            Ok(offset) => offset,
            Err(e) => {
                return Err(e);
            },
        };
        proof {
            lemma_placement_matches(now, hunk@.source, line + drift, offset as int);
        }
        let taken = lines_len(&hunk.source);
        let given = lines_len(&hunk.target);
        let len = lines_len(content);
        if len as u128 - taken as u128 + given as u128 > usize::MAX as u128 {
            return Err(MergeError::TooManyLines(#[verifier::truncate] (line as u32)));
        }
        let pos = (line as i128 + drift + offset) as usize;
        splice(content, pos, hunk);
        proof {
            lemma_apply_hunk_len(now, line, hunk@, drift as int);
        }
        drift = drift + given as i128 - taken as i128;
        i += 1;
    }
    Ok(())
}

} // verus!
