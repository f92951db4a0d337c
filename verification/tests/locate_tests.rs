use im::Vector;
use rebase_dryrun::hunks::{apply_hunks, splice};
use rebase_dryrun::locate::locate;
use rebase_dryrun::model::{FileInfo, FileKind, Hunk, MergeError};
use std::rc::Rc;

fn lines(items: &[&str]) -> Vector<Rc<String>> {
    let mut v = Vector::new();
    for item in items {
        v.push_back(Rc::new(item.to_string()));
    }
    v
}

fn hunk(source: &[&str], target: &[&str]) -> Hunk {
    Hunk { source: lines(source), target: lines(target) }
}

#[test]
fn exact_match_gives_offset_zero() {
    let content = lines(&["A", "B", "C", "B", "C"]);
    let h = hunk(&["B", "C"], &["X"]);
    assert_eq!(locate(&content, &h, 1, 0), Ok(0));
}

#[test]
fn exact_match_wins_over_other_matches() {
    let content = lines(&["B", "B", "B"]);
    let h = hunk(&["B"], &[]);
    assert_eq!(locate(&content, &h, 1, 0), Ok(0));
}

#[test]
fn equal_distance_prefers_the_line_after() {
    let content = lines(&["B", "x", "y", "z", "B"]);
    let h = hunk(&["B"], &["C"]);
    assert_eq!(locate(&content, &h, 2, 0), Ok(2));
}

#[test]
fn nearer_match_before_wins_over_farther_match_after() {
    let content = lines(&["x", "B", "y", "z", "w", "B"]);
    let h = hunk(&["B"], &["C"]);
    assert_eq!(locate(&content, &h, 2, 0), Ok(-1));
}

#[test]
fn no_match_names_the_predicted_line() {
    let content = lines(&["A", "B", "C"]);
    let h = hunk(&["Z"], &["Y"]);
    assert_eq!(locate(&content, &h, 7, 0), Err(MergeError::UnappliedHunk(7)));
}

#[test]
fn no_match_names_the_predicted_line_not_the_pivot() {
    let content = lines(&["A", "B", "C"]);
    let h = hunk(&["Z"], &["Y"]);
    assert_eq!(locate(&content, &h, 1, 1), Err(MergeError::UnappliedHunk(1)));
}

#[test]
fn window_that_leaves_the_file_is_skipped() {
    let content = lines(&["A", "B"]);
    let h = hunk(&["B", "C"], &[]);
    assert_eq!(locate(&content, &h, 1, 0), Err(MergeError::UnappliedHunk(1)));
}

#[test]
fn match_beyond_reach_is_not_found() {
    let content = lines(&["A", "B", "C"]);
    let h = hunk(&["A"], &[]);
    assert_eq!(locate(&content, &h, 3, 0), Err(MergeError::UnappliedHunk(3)));
    assert_eq!(locate(&content, &h, 2, 0), Ok(-2));
}

#[test]
fn empty_source_in_empty_file_is_placed_at_the_pivot() {
    let content = lines(&[]);
    let h = hunk(&[], &["A"]);
    assert_eq!(locate(&content, &h, 0, 0), Ok(0));
    assert_eq!(locate(&content, &h, 1, 0), Err(MergeError::UnappliedHunk(1)));
}

#[test]
fn drift_moves_the_pivot() {
    let content = lines(&["A", "B", "C", "D"]);
    let h = hunk(&["D"], &[]);
    assert_eq!(locate(&content, &h, 1, 2), Ok(0));
    assert_eq!(locate(&content, &h, 5, -2), Ok(0));
}

#[test]
fn drift_out_of_all_range_fails() {
    let content = lines(&["A"]);
    let h = hunk(&["A"], &[]);
    assert_eq!(locate(&content, &h, 0, i128::MAX), Err(MergeError::UnappliedHunk(0)));
    assert_eq!(locate(&content, &h, 0, i128::MIN), Err(MergeError::UnappliedHunk(0)));
}

#[test]
fn shifted_hunk_is_found_one_line_later() {
    // A line was inserted before position 1, so the content that the hunk
    // expects at line 1 starts at line 2.
    let content = lines(&["A", "new", "B", "C", "D"]);
    let h = hunk(&["B", "C"], &["X"]);
    assert_eq!(locate(&content, &h, 1, 0), Ok(1));
}

#[test]
fn splice_replaces_the_window() {
    let mut content = lines(&["A", "B", "C", "D"]);
    let h = hunk(&["B", "C"], &["X", "Y", "Z"]);
    splice(&mut content, 1, &h);
    assert_eq!(content, lines(&["A", "X", "Y", "Z", "D"]));
}

#[test]
fn round_trip() {
    let mut content = lines(&["A", "B", "C", "D"]);
    let info = FileInfo { kind: FileKind::Changes, hunks: vec![(1, hunk(&["B", "C"], &["X"]))] };
    assert_eq!(apply_hunks(&info, &mut content), Ok(()));
    assert_eq!(content, lines(&["A", "X", "D"]));
}

#[test]
fn second_hunk_is_searched_two_lines_later() {
    // The first hunk brings two lines more than it takes. The second is
    // predicted at line 3; "D" stands at 3 in the old file and at 5 in the
    // new one, and a decoy "D" stands at 3 in the new file's neighbourhood.
    let mut content = lines(&["A", "B", "C", "D", "E"]);
    let info = FileInfo {
        kind: FileKind::Changes,
        hunks: vec![
            (0, hunk(&["A"], &["A", "D", "q"])),
            (3, hunk(&["D"], &["Z"])),
        ],
    };
    assert_eq!(apply_hunks(&info, &mut content), Ok(()));
    // Pivot 5 holds "D": it is taken, not the nearer-to-3 decoy at line 1.
    assert_eq!(content, lines(&["A", "D", "q", "B", "C", "Z", "E"]));
}

#[test]
fn failing_hunk_stops_the_file_and_keeps_earlier_hunks() {
    let mut content = lines(&["A", "B", "C"]);
    let info = FileInfo {
        kind: FileKind::Changes,
        hunks: vec![
            (0, hunk(&["A"], &["X"])),
            (1, hunk(&["nowhere"], &["Y"])),
            (2, hunk(&["C"], &["Z"])),
        ],
    };
    assert_eq!(apply_hunks(&info, &mut content), Err(MergeError::UnappliedHunk(1)));
    assert_eq!(content, lines(&["X", "B", "C"]));
}

#[test]
fn no_hunks_leave_the_file_alone() {
    let mut content = lines(&["A"]);
    let info = FileInfo { kind: FileKind::Changes, hunks: vec![] };
    assert_eq!(apply_hunks(&info, &mut content), Ok(()));
    assert_eq!(content, lines(&["A"]));
}

#[test]
fn file_that_would_outgrow_the_count_of_lines_is_refused() {
    // A vector that shares its halves holds half of all countable lines in
    // little memory; twice as many cannot be counted.
    let mut half = lines(&["x"]);
    for _ in 0..(usize::BITS - 1) {
        let copy = half.clone();
        half.append(copy);
    }
    assert_eq!(half.len(), 1usize << (usize::BITS - 1));
    let mut content = half.clone();
    let info = FileInfo {
        kind: FileKind::Changes,
        hunks: vec![(0, Hunk { source: lines(&[]), target: half })],
    };
    assert_eq!(apply_hunks(&info, &mut content), Err(MergeError::TooManyLines(0)));
    assert_eq!(content.len(), 1usize << (usize::BITS - 1));
}
