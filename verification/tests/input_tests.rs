use rebase_dryrun::changeset::ChangeSet;
use rebase_dryrun::diff::{add_commit_text, build_changeset, build_hunk, DiffHunk, DiffLine, FileDiff};
use rebase_dryrun::error::Error;
use rebase_dryrun::guard::is_parser_safe;
use rebase_dryrun::model::{FileInfo, FileKind};
use rebase_dryrun::script::{add_step, onto_file, push_diff_line, repo_of_script, script_steps};

fn commit(text: &str) -> Result<ChangeSet, Error> {
    add_commit_text(&Some("abc123".to_string()), &text.to_string())
}

fn side(v: &im::Vector<std::rc::Rc<String>>) -> Vec<String> {
    v.iter().map(|l| (**l).clone()).collect()
}

fn entry<'a>(cs: &'a ChangeSet, path: &str) -> &'a FileInfo {
    cs.files.get(path).unwrap()
}

fn line(tag: &str, value: &str) -> DiffLine {
    DiffLine { line_type: tag.to_string(), value: value.to_string() }
}

const MODIFY: &str = "diff --git a/src/lib.rs b/src/lib.rs
index 1111111..2222222 100644
--- a/src/lib.rs
+++ b/src/lib.rs
@@ -3,4 +3,5 @@ fn before()
 keep one
-old line
+new line
+extra line
 keep two
 keep three
@@ -20,2 +21,2 @@
 tail
-last
+LAST
";

#[test]
fn modification_is_read_with_lines_counted_from_zero() {
    let cs = commit(MODIFY).unwrap();
    assert_eq!(cs.githash, "abc123");
    assert_eq!(cs.files.len(), 1);
    let info = entry(&cs, "src/lib.rs");
    assert!(matches!(info.kind, FileKind::Changes));
    assert_eq!(info.hunks.len(), 2);
    assert_eq!(info.hunks[0].0, 2);
    assert_eq!(side(&info.hunks[0].1.source), vec!["keep one", "old line", "keep two", "keep three"]);
    assert_eq!(
        side(&info.hunks[0].1.target),
        vec!["keep one", "new line", "extra line", "keep two", "keep three"]
    );
    assert_eq!(info.hunks[1].0, 19);
    assert_eq!(side(&info.hunks[1].1.source), vec!["tail", "last"]);
    assert_eq!(side(&info.hunks[1].1.target), vec!["tail", "LAST"]);
}

#[test]
fn added_and_removed_files_keep_their_line_numbers() {
    let text = "--- /dev/null
+++ b/new.txt
@@ -0,0 +1,2 @@
+one
+two
--- a/old.txt
+++ /dev/null
@@ -1,2 +0,0 @@
-gone
-too
";
    let cs = commit(text).unwrap();
    assert_eq!(cs.files.len(), 2);
    let added = entry(&cs, "new.txt");
    assert!(matches!(added.kind, FileKind::Addition));
    assert_eq!(added.hunks[0].0, 0);
    assert_eq!(side(&added.hunks[0].1.source), Vec::<String>::new());
    assert_eq!(side(&added.hunks[0].1.target), vec!["one", "two"]);
    let removed = entry(&cs, "old.txt");
    assert!(matches!(removed.kind, FileKind::Deletion));
    assert_eq!(removed.hunks[0].0, 1);
    assert_eq!(side(&removed.hunks[0].1.source), vec!["gone", "too"]);
    assert_eq!(side(&removed.hunks[0].1.target), Vec::<String>::new());
}

#[test]
fn file_without_hunks_is_left_out() {
    let text = "--- a/mode.sh
+++ b/mode.sh
--- a/real.txt
+++ b/real.txt
@@ -1 +1 @@
-a
+b
";
    let cs = commit(text).unwrap();
    let paths: Vec<String> = cs.files.keys().cloned().collect();
    assert_eq!(paths, vec!["real.txt"]);
}

#[test]
fn empty_diff_gives_an_empty_patch() {
    let cs = commit("").unwrap();
    assert_eq!(cs.files.len(), 0);
}

#[test]
fn target_header_without_source_is_unsupported() {
    assert!(matches!(commit("+++ b/file\n@@ -1 +1 @@\n-a\n+b\n"), Err(Error::UnsupportedDiff)));
    assert!(matches!(commit("--- \n+++ b/file\n"), Err(Error::UnsupportedDiff)));
}

#[test]
fn hunk_header_with_wild_numbers_is_unsupported() {
    let huge = "--- a/f\n+++ b/f\n@@ -99999999999999999999999,1 +1 @@\n-a\n+b\n";
    assert!(matches!(commit(huge), Err(Error::UnsupportedDiff)));
    let arabic = "--- a/f\n+++ b/f\n@@ -\u{663} +1 @@\n-a\n+b\n";
    assert!(matches!(commit(arabic), Err(Error::UnsupportedDiff)));
}

#[test]
fn guard_admits_ordinary_diffs() {
    assert!(is_parser_safe(MODIFY));
    assert!(is_parser_safe(""));
    assert!(is_parser_safe("--- a/f\n+++ b/f\n@@ -123456789,1 +1 @@ h\u{e9}llo 12345678901234567890\n"));
    assert!(!is_parser_safe("+++ no source before\n"));
    assert!(!is_parser_safe("context\n+++ b/f\n--- a/f\n"));
    assert!(!is_parser_safe("--- a/f\n+++ b/f\n@@ -1234567890 +1 @@\n"));
    assert!(is_parser_safe("--- a/f\n+++ b/f\n+++ again\n"));
    assert!(is_parser_safe(" +++ indented is no header\n"));
}

#[test]
fn parser_refusal_comes_back_with_its_message() {
    match commit("@@ -1 +1 @@\n-a\n+b\n") {
        Err(Error::UniDiff(message)) => assert!(message.contains("@@ -1 +1 @@")),
        other => panic!("{:?}", other.map(|c| c.githash)),
    }
}

#[test]
fn hunks_out_of_order_are_refused() {
    let text = "--- a/f
+++ b/f
@@ -10 +10 @@
-a
+b
@@ -2 +2 @@
-c
+d
";
    assert!(matches!(commit(text), Err(Error::NonMonotonicPatchLines)));
}

#[test]
fn modification_before_the_first_line_is_refused() {
    let text = "--- a/f
+++ b/f
@@ -0,0 +1 @@
+b
@@ -2 +3 @@
-c
+d
";
    assert!(matches!(commit(text), Err(Error::NonMonotonicPatchLines)));
}

fn disordered() -> FileDiff {
    FileDiff {
        path: "a".to_string(),
        added: false,
        removed: false,
        hunks: vec![
            DiffHunk { source_start: 9, lines: vec![line(" ", "x")] },
            DiffHunk { source_start: 2, lines: vec![line(" ", "y")] },
        ],
    }
}

#[test]
fn unknown_line_type_is_refused_first() {
    let untagged = FileDiff {
        path: "b".to_string(),
        added: false,
        removed: false,
        hunks: vec![DiffHunk { source_start: 1, lines: vec![line("\\", " No newline at end of file")] }],
    };
    assert!(matches!(build_changeset("h", &vec![disordered(), untagged]), Err(Error::UnknownLineType)));
    assert!(matches!(build_changeset("h", &vec![disordered()]), Err(Error::NonMonotonicPatchLines)));
}

#[test]
fn hunk_sides_follow_the_tags() {
    let lines = vec![
        line(" ", "ctx"),
        line("-", "old"),
        line("+", "new"),
        line("\n", "ignored"),
        line("+", ""),
    ];
    let hunk = build_hunk(&lines).unwrap();
    assert_eq!(side(&hunk.source), vec!["ctx", "old", ""]);
    assert_eq!(side(&hunk.target), vec!["ctx", "new", "", ""]);
    assert!(build_hunk(&vec![line("", "x")]).is_none());
    assert!(build_hunk(&vec![line("++", "x")]).is_none());
    assert!(build_hunk(&vec![line("!", "x")]).is_none());
}

#[test]
fn later_file_with_the_same_path_stays() {
    let files = vec![
        FileDiff {
            path: "p".to_string(),
            added: true,
            removed: false,
            hunks: vec![DiffHunk { source_start: 0, lines: vec![line("+", "first")] }],
        },
        FileDiff {
            path: "p".to_string(),
            added: false,
            removed: true,
            hunks: vec![DiffHunk { source_start: 1, lines: vec![line("-", "second")] }],
        },
    ];
    let cs = build_changeset("h", &files).unwrap();
    assert_eq!(cs.files.len(), 1);
    assert!(matches!(entry(&cs, "p").kind, FileKind::Deletion));
}

#[test]
fn script_path_must_end_as_a_script_does() {
    assert_eq!(
        repo_of_script("/home/me/repo/.git/rebase-merge/git-rebase-todo").unwrap(),
        "/home/me/repo/.git"
    );
    assert_eq!(repo_of_script("/rebase-merge/git-rebase-todo").unwrap(), "");
    assert!(matches!(repo_of_script("/repo/.git/rebase-merge/git-rebase-todo.bak"), Err(Error::NotScriptFile)));
    assert!(matches!(repo_of_script("todo"), Err(Error::NotScriptFile)));
    assert!(matches!(repo_of_script("rebase-merge/git-rebase-todo"), Err(Error::NotScriptFile)));
    assert_eq!(onto_file("/r/.git"), "/r/.git/rebase-merge/onto");
}

#[test]
fn script_steps_name_line_and_revision() {
    let lines: Vec<String> = [
        "pick 1a2b3c first commit",
        "# a comment",
        "",
        "  squash deadbeef second",
        "drop 999 not an action we read",
        "fixup cafe",
        "reword",
        "xpick 123 no",
        "reword 77 again",
    ]
    .iter()
    .map(|l| l.to_string())
    .collect();
    let steps = script_steps(&lines).unwrap();
    assert_eq!(
        steps,
        vec![
            (1, "1a2b3c".to_string()),
            (4, "deadbeef".to_string()),
            (6, "cafe".to_string()),
            (9, "77".to_string()),
        ]
    );
    assert_eq!(script_steps(&vec![]).unwrap(), vec![]);
}

#[test]
fn add_step_keeps_or_extends() {
    let mut steps = vec![(1, "a".to_string())];
    add_step(&mut steps, 5, None);
    assert_eq!(steps, vec![(1, "a".to_string())]);
    add_step(&mut steps, 6, Some("b".to_string()));
    assert_eq!(steps, vec![(1, "a".to_string()), (6, "b".to_string())]);
}

#[test]
fn diff_lines_are_written_with_their_sign() {
    let mut text = Vec::new();
    push_diff_line(&mut text, 'F', b"--- a/f\n+++ b/f\n");
    push_diff_line(&mut text, 'H', b"@@ -1 +1 @@\n");
    push_diff_line(&mut text, '-', b"old\n");
    push_diff_line(&mut text, '+', b"new\n");
    push_diff_line(&mut text, ' ', b"same\n");
    push_diff_line(&mut text, '>', b"\n\\ No newline at end of file\n");
    assert_eq!(
        String::from_utf8(text).unwrap(),
        "--- a/f\n+++ b/f\n@@ -1 +1 @@\n-old\n+new\n same\n\n\\ No newline at end of file\n"
    );
}

#[test]
fn marker_line_inside_a_hunk_is_an_unknown_line_type() {
    let text = "--- a/f\n+++ b/f\n@@ -1 +1 @@\n-a\n\\ No newline at end of file\n+b\n";
    assert!(matches!(commit(text), Err(Error::UnknownLineType)));
}
