//! The script of a rebase in progress: where it lies, which of its lines
//! name a revision, and how the text of a diff is put together from the
//! lines that the object store prints.

use crate::error::{Error, ErrorView};
use vstd::prelude::*;
use vstd::string::StringExecFns;

verus! {

/// The end of the path of a script, seen from the repository.
pub open spec fn script_suffix() -> Seq<char> {
    "/rebase-merge/git-rebase-todo"@
}

/// The path, seen from the repository, of the file that names the revision
/// onto which the script is replayed.
pub open spec fn onto_suffix() -> Seq<char> {
    "/rebase-merge/onto"@
}

/// Whether `path` ends with `suffix`.
pub open spec fn ends_with(path: Seq<char>, suffix: Seq<char>) -> bool {
    path.len() >= suffix.len() && path.subrange(path.len() - suffix.len(), path.len() as int)
        == suffix
}

/// The repository that a script belongs to: the path of the script without
/// its end. A path that does not end as a script does is refused.
pub fn repo_of_script(script_path: &str) -> (r: Result<String, Error>)
    ensures
        match r {
            Ok(repo) => script_path@ == repo@ + script_suffix(),
            Err(e) => e@ == ErrorView::NotScriptFile && !ends_with(script_path@, script_suffix()),
        },
{
    let suffix = "/rebase-merge/git-rebase-todo";
    let n = script_path.unicode_len();
    let m = suffix.unicode_len();
    if n < m {
        return Err(Error::NotScriptFile);
    }
    let end = script_path.substring_char(n - m, n);
    if end.to_owned() != suffix.to_owned() {
        return Err(Error::NotScriptFile);
    }
    let repo = script_path.substring_char(0, n - m).to_owned();
    assert(script_path@ =~= repo@ + script_suffix());
    Ok(repo)
}

/// The path of the file that names the revision onto which the script of
/// the repository at `repo` is replayed.
pub fn onto_file(repo: &str) -> (path: String)
    ensures
        path@ == repo@ + onto_suffix(),
{
    repo.to_owned().concat("/rebase-merge/onto")
}

/// The pattern of a line of a script that names a revision: an action, a
/// space, and the revision as the second group.
pub open spec fn step_pattern() -> Seq<char> {
    "^ *(pick|reword|squash|fixup) ([^ ]+)"@
}

/// What matching `text` against the regular expression `pattern` gives for
/// the group `group`: the text of the group where the expression matches and
/// the group took part, nothing where it does not, or the message with which
/// the expression is refused.
pub uninterp spec fn captured(pattern: Seq<char>, text: Seq<char>, group: usize) -> Result<
    Option<Seq<char>>,
    Seq<char>,
>;

/// What a match returned, over views.
pub open spec fn capture_view(r: Result<Option<String>, String>) -> Result<
    Option<Seq<char>>,
    Seq<char>,
> {
    match r {
        Ok(Some(found)) => Ok(Some(found@)),
        Ok(None) => Ok(None),
        Err(message) => Err(message@),
    }
}

/// `regex::Regex::new` and `Regex::captures`, with the group read through
/// `Captures::get` and `Match::as_str`. The result depends on the pattern,
/// the text and the number of the group alone.
#[verifier::external_body]
fn capture_group(pattern: &str, text: &str, group: usize) -> (r: Result<Option<String>, String>)
    ensures
        capture_view(r) == captured(pattern@, text@, group),
{
    let re = regex::Regex::new(pattern).map_err(|e| e.to_string())?;
    Ok(re.captures(text).and_then(|c| c.get(group)).map(|m| m.as_str().to_owned()))
}

/// A step of a script over views: the number of its line, counted from 1,
/// and the revision that the line names.
pub type StepView = (usize, Seq<char>);

/// The steps over views.
pub open spec fn step_views(steps: Seq<(usize, String)>) -> Seq<StepView> {
    steps.map_values(|s: (usize, String)| (s.0, s.1@))
}

/// The steps with that of the line numbered `line`, if the line names a
/// revision.
pub open spec fn with_step(steps: Seq<StepView>, line: usize, found: Option<Seq<char>>) -> Seq<
    StepView,
> {
    match found {
        Some(revision) => steps.push((line, revision)),
        None => steps,
    }
}

/// The steps of a script: for each line that names a revision, in order, the
/// number of the line and the revision. A pattern that is refused ends the
/// reading with its message.
pub open spec fn steps_of(lines: Seq<Seq<char>>) -> Result<Seq<StepView>, ErrorView>
    decreases lines.len(),
{
    if lines.len() == 0 {
        Ok(Seq::empty())
    } else {
        match steps_of(lines.drop_last()) {
            Err(e) => Err(e),
            Ok(steps) => match captured(step_pattern(), lines.last(), 2) {
                Err(message) => Err(ErrorView::Pattern(message)),
                Ok(found) => Ok(with_step(steps, lines.len() as usize, found)),
            },
        }
    }
}

/// The lines of a script over views.
pub open spec fn line_views(lines: Seq<String>) -> Seq<Seq<char>> {
    lines.map_values(|l: String| l@)
}

/// Adds the step of the line numbered `line` to `steps`, if the line names a
/// revision.
pub fn add_step(steps: &mut Vec<(usize, String)>, line: usize, found: Option<String>)
    ensures
        step_views(final(steps)@) == with_step(
            step_views(old(steps)@),
            line,
            match found {
                Some(revision) => Some(revision@),
                None => None,
            },
        ),
{
    match found {
        Some(revision) => {
            steps.push((line, revision));
            assert(step_views(steps@) =~= step_views(old(steps)@).push((line, revision@)));
        },
        None => {},
    }
}

/// Reads the steps of a script from its lines.
pub fn script_steps(lines: &Vec<String>) -> (r: Result<Vec<(usize, String)>, Error>)
    ensures
        match r {
            Ok(steps) => steps_of(line_views(lines@)) == Ok::<Seq<StepView>, ErrorView>(
                step_views(steps@),
            ),
            Err(e) => steps_of(line_views(lines@)) == Err::<Seq<StepView>, ErrorView>(e@),
        },
{
    let ghost all = line_views(lines@);
    let mut steps: Vec<(usize, String)> = Vec::new();
    let mut i: usize = 0;
    assert(all.take(0) =~= Seq::<Seq<char>>::empty());
    assert(step_views(steps@) =~= Seq::<StepView>::empty());
    while i < lines.len()
        invariant
            0 <= i <= lines.len(),
            all == line_views(lines@),
            steps_of(all.take(i as int)) == Ok::<Seq<StepView>, ErrorView>(step_views(steps@)),
        decreases lines.len() - i,
    {
        assert(all.take(i + 1).drop_last() =~= all.take(i as int));
        assert(all.take(i + 1).last() == lines[i as int]@);
        match capture_group("^ *(pick|reword|squash|fixup) ([^ ]+)", lines[i].as_str(), 2) {
            Err(message) => {
                proof {
                    lemma_steps_fail(all, i + 1);
                }
                return Err(Error::Pattern(message));
            },
            Ok(found) => {
                add_step(&mut steps, i + 1, found);
            },
        }
        i += 1;
    }
    assert(all.take(lines.len() as int) =~= all);
    Ok(steps)
}

/// A reading that has failed on the first `n` lines fails in the same way on
/// all of them.
pub proof fn lemma_steps_fail(lines: Seq<Seq<char>>, n: int)
    requires
        0 <= n <= lines.len(),
        steps_of(lines.take(n)) is Err,
    ensures
        steps_of(lines) == steps_of(lines.take(n)),
    decreases lines.len() - n,
{
    if n < lines.len() {
        assert(lines.take(n + 1).drop_last() =~= lines.take(n));
        lemma_steps_fail(lines, n + 1);
    } else {
        assert(lines.take(n) =~= lines);
    }
}

/// Whether a line of a printed diff is written with the sign of its origin:
/// an added, a removed or a context line.
pub open spec fn has_sign(origin: char) -> bool {
    origin == '+' || origin == '-' || origin == ' '
}

/// The text of a diff after one more printed line: the sign of the line, for
/// a line that has one, and its content.
pub open spec fn with_diff_line(text: Seq<u8>, origin: char, content: Seq<u8>) -> Seq<u8> {
    if has_sign(origin) {
        text.push(origin as u8) + content
    } else {
        text + content
    }
}

/// Appends one printed line to the text of a diff.
pub fn push_diff_line(text: &mut Vec<u8>, origin: char, content: &[u8])
    ensures
        final(text)@ == with_diff_line(old(text)@, origin, content@),
{
    if origin == '+' {
        text.push(43u8);
    } else if origin == '-' {
        text.push(45u8);
    } else if origin == ' ' {
        text.push(32u8);
    }
    text.extend_from_slice(content);
}

} // verus!
