//! The fuzzy locator: where in a file a hunk is placed.
//!
//! A hunk is accepted only where its whole source side stands in the file,
//! line for line. The search starts at the pivot, the predicted line moved by
//! the drift of the hunks applied before, and widens one line at a time,
//! looking after the pivot before it looks ahead of it.

use crate::lines::{lines_at, lines_len, vector_lines};
use crate::model::{Hunk, LineNr, MergeError};
use im::Vector;
use std::rc::Rc;
use vstd::prelude::*;

verus! {

/// Whether the lines of `source` stand in `content` from position `start` on.
/// A window that leaves the file on either side matches nothing.
pub open spec fn matches_at(content: Seq<Seq<char>>, source: Seq<Seq<char>>, start: int) -> bool {
    &&& 0 <= start
    &&& start + source.len() <= content.len()
    &&& forall|j: int| 0 <= j < source.len() ==> content[start + j] == #[trigger] source[j]
}

/// Whether `source` stands in `content` at offset `o` from `pivot`.
pub open spec fn matches_offset(
    content: Seq<Seq<char>>,
    source: Seq<Seq<char>>,
    pivot: int,
    o: int,
) -> bool {
    matches_at(content, source, pivot + o)
}

/// The offsets that the search tries in a file of `len` lines: the pivot
/// itself, then every distance below `len` on both sides.
pub open spec fn in_reach(len: nat, o: int) -> bool {
    o == 0 || -len < o < len
}

/// The distance of an offset from the pivot.
pub open spec fn distance(o: int) -> int {
    if o < 0 {
        -o
    } else {
        o
    }
}

/// Whether the search tries offset `a` before offset `b`: nearer offsets
/// first, and at one distance the offset after the pivot first.
pub open spec fn tried_before(a: int, b: int) -> bool {
    distance(a) < distance(b) || (distance(a) == distance(b) && a > b)
}

/// Whether `o` is the offset that the search accepts: it is tried, the source
/// stands there, and it stands at no offset tried earlier.
pub open spec fn is_first_match(
    content: Seq<Seq<char>>,
    source: Seq<Seq<char>>,
    pivot: int,
    o: int,
) -> bool {
    &&& in_reach(content.len(), o)
    &&& matches_offset(content, source, pivot, o)
    &&& forall|p: int|
        in_reach(content.len(), p) && tried_before(p, o) ==> !#[trigger] matches_offset(
            content,
            source,
            pivot,
            p,
        )
}

/// The offset from `pivot` at which `source` is placed in `content`, if there
/// is one.
pub open spec fn locate_spec(content: Seq<Seq<char>>, source: Seq<Seq<char>>, pivot: int) -> Option<
    int,
> {
    if exists|o: int| is_first_match(content, source, pivot, o) {
        Some(choose|o: int| is_first_match(content, source, pivot, o))
    } else {
        None
    }
}

/// At most one offset is the first match.
pub proof fn lemma_first_match_unique(
    content: Seq<Seq<char>>,
    source: Seq<Seq<char>>,
    pivot: int,
    a: int,
    b: int,
)
    requires
        is_first_match(content, source, pivot, a),
        is_first_match(content, source, pivot, b),
    ensures
        a == b,
{
    if a != b {
        assert(tried_before(a, b) || tried_before(b, a));
    }
}

/// An offset that is the first match is the one that `locate_spec` gives.
pub proof fn lemma_located(content: Seq<Seq<char>>, source: Seq<Seq<char>>, pivot: int, o: int)
    requires
        is_first_match(content, source, pivot, o),
    ensures
        locate_spec(content, source, pivot) == Some(o),
{
    let c = choose|c: int| is_first_match(content, source, pivot, c);
    lemma_first_match_unique(content, source, pivot, o, c);
}

/// Where the source stands at no offset in reach, `locate_spec` gives none.
pub proof fn lemma_not_located(content: Seq<Seq<char>>, source: Seq<Seq<char>>, pivot: int)
    requires
        forall|p: int|
            in_reach(content.len(), p) ==> !#[trigger] matches_offset(content, source, pivot, p),
    ensures
        locate_spec(content, source, pivot) is None,
{
}

/// Where the locator places a hunk that is predicted at `line`, after the
/// hunks before it have moved the file by `drift` lines: the accepted offset
/// from `line + drift`, or the failure that names the predicted line.
pub open spec fn placement(content: Seq<Seq<char>>, source: Seq<Seq<char>>, line: LineNr, drift: int) -> Result<
    int,
    MergeError,
> {
    match locate_spec(content, source, line + drift) {
        Some(o) => Ok(o),
        None => Err(MergeError::UnappliedHunk(line as u32)),
    }
}

/// A placement that is accepted is the first match, so the source side
/// stands at the accepted position.
pub proof fn lemma_placement_matches(
    content: Seq<Seq<char>>,
    source: Seq<Seq<char>>,
    pivot: int,
    o: int,
)
    requires
        locate_spec(content, source, pivot) == Some(o),
    ensures
        is_first_match(content, source, pivot, o),
        matches_at(content, source, pivot + o),
{
}

/// Exact match: a hunk whose source side stands at the pivot is placed at
/// offset 0, whatever stands elsewhere in the file.
pub proof fn law_exact_match(content: Seq<Seq<char>>, source: Seq<Seq<char>>, pivot: int)
    requires
        matches_at(content, source, pivot),
    ensures
        locate_spec(content, source, pivot) == Some(0int),
{
    assert(matches_offset(content, source, pivot, 0));
    lemma_located(content, source, pivot, 0);
}

/// Direction of the search: where the source side stands `d` lines after the
/// pivot and `d` lines before it, and at no smaller distance, the hunk is
/// placed after the pivot.
pub proof fn law_after_before(content: Seq<Seq<char>>, source: Seq<Seq<char>>, pivot: int, d: int)
    requires
        d > 0,
        matches_at(content, source, pivot + d),
        matches_at(content, source, pivot - d),
        forall|p: int| -d < p < d ==> !#[trigger] matches_offset(content, source, pivot, p),
    ensures
        locate_spec(content, source, pivot) == Some(d),
{
    assert(matches_offset(content, source, pivot, d));
    lemma_located(content, source, pivot, d);
}

/// No match: where the source side stands nowhere in the file, the locator
/// fails with `UnappliedHunk` and the predicted line, whatever the drift.
pub proof fn law_no_match(content: Seq<Seq<char>>, source: Seq<Seq<char>>, line: LineNr, drift: int)
    requires
        forall|start: int| !matches_at(content, source, start),
    ensures
        locate_spec(content, source, line + drift) is None,
        placement(content, source, line, drift) == Err::<int, MergeError>(
            MergeError::UnappliedHunk(line as u32),
        ),
{
    assert forall|p: int| in_reach(content.len(), p) implies !#[trigger] matches_offset(
        content,
        source,
        line + drift,
        p,
    ) by {}
    lemma_not_located(content, source, line + drift);
}

/// Compares the window of `content` that starts at `start` with `source`.
fn window_matches(content: &Vector<Rc<String>>, source: &Vector<Rc<String>>, start: i128) -> (r:
    bool)
    ensures
        r == matches_at(vector_lines(*content), vector_lines(*source), start as int),
{
    let n = lines_len(content);
    let m = lines_len(source);
    if start < 0 || start > n as i128 - m as i128 {
        return false;
    }
    let first = start as usize;
    let mut j: usize = 0;
    while j < m
        invariant
            0 <= j <= m,
            m == vector_lines(*source).len(),
            n == vector_lines(*content).len(),
            first == start,
            first + m <= n,
            forall|k: int|
                0 <= k < j ==> vector_lines(*content)[first + k] == #[trigger] vector_lines(
                    *source,
                )[k],
        decreases m - j,
    {
        let wanted = lines_at(source, j);
        let found = lines_at(content, first + j);
        if **wanted != **found {
            return false;
        }
        j += 1;
    }
    true
}

/// Finds the offset from the pivot at which `hunk` is placed in `content`.
///
/// The pivot is `line + drift`. The result is the offset that the search
/// accepts, or `UnappliedHunk` with the predicted line where the source side
/// of the hunk stands at no offset in reach.
pub fn locate(content: &Vector<Rc<String>>, hunk: &Hunk, line: LineNr, drift: i128) -> (r: Result<
    i128,
    MergeError,
>)
    ensures
        match placement(vector_lines(*content), hunk@.source, line, drift as int) {
            Ok(o) => r == Ok::<i128, MergeError>(o as i128) && o == o as i128,
            Err(e) => r == Err::<i128, MergeError>(e),
        },
{
    let ghost lines = vector_lines(*content);
    let ghost wanted = hunk@.source;
    let ghost at: int = line + drift;
    let n = lines_len(content);
    let failure = MergeError::UnappliedHunk(#[verifier::truncate] (line as u32));
    if drift < -0x4_0000_0000_0000_0000 || drift > 0x4_0000_0000_0000_0000 {
        proof {
            assert forall|p: int| in_reach(lines.len(), p) implies !#[trigger] matches_offset(
                lines,
                wanted,
                at,
                p,
            ) by {}
            lemma_not_located(lines, wanted, at);
        }
        return Err(failure);
    }
    let pivot: i128 = line as i128 + drift;
    if window_matches(content, &hunk.source, pivot) {
        proof {
            assert(matches_offset(lines, wanted, at, 0));
            lemma_located(lines, wanted, at, 0);
        }
        return Ok(0);
    }
    let mut d: usize = 1;
    while d < n
        invariant
            1 <= d,
            n == lines.len(),
            lines == vector_lines(*content),
            wanted == hunk@.source,
            at == pivot,
            at == line + drift,
            -0x5_0000_0000_0000_0000 <= pivot <= 0x5_0000_0000_0000_0000,
            forall|p: int| -d < p < d ==> !#[trigger] matches_offset(lines, wanted, at, p),
        decreases n - d,
    {
        let after = pivot + d as i128;
        if window_matches(content, &hunk.source, after) {
            proof {
                assert(matches_offset(lines, wanted, at, d as int));
                lemma_located(lines, wanted, at, d as int);
            }
            return Ok(d as i128);
        }
        let before = pivot - d as i128;
        if window_matches(content, &hunk.source, before) {
            proof {
                assert(matches_offset(lines, wanted, at, -(d as int)));
                lemma_located(lines, wanted, at, -(d as int));
            }
            return Ok(-(d as i128));
        }
        proof {
            assert(!matches_offset(lines, wanted, at, d as int));
            assert(!matches_offset(lines, wanted, at, -(d as int)));
        }
        d += 1;
    }
    proof {
        assert(!matches_offset(lines, wanted, at, 0));
        lemma_not_located(lines, wanted, at);
    }
    Err(failure)
}

} // verus!
