//! The sequence driver: an ordered list of patches against one tree.
//!
//! The patches are applied one after the other, each to the tree that the
//! one before it left. The first patch that fails ends the run; no later
//! patch is looked at. Where a patch modifies a file whose content has not
//! been read, the run hands that request out and is taken up again at the
//! same patch once the content is there.

use crate::changeset::{ChangeSet, ChangeSetView};
use crate::fileset::{apply, apply_spec, first_unread, Failures, FileSet, Tree};
use crate::model::MergeErrors;
use vstd::prelude::*;

verus! {

/// How a run ended.
#[derive(Debug)]
pub enum Outcome {
    /// Every patch from the starting one on was applied without failure.
    Completed,
    /// The patch at `index` failed, and no patch behind it was tried.
    Stopped {
        /// The position of the patch in the list.
        index: usize,
        /// The line of the script that names the patch.
        line: usize,
        /// The name of the revision.
        githash: String,
        /// The failures, file by file.
        errors: MergeErrors,
    },
    /// The patch at `index` modifies `path`, whose content has not been read.
    /// Nothing of that patch has been applied.
    NeedContent { index: usize, path: String, id: git2::Oid },
}

/// The end of a run over views.
pub enum OutcomeView {
    Completed,
    Stopped { index: int, line: usize, githash: Seq<char>, errors: Failures },
    NeedContent { index: int, path: Seq<char>, id: git2::Oid },
}

impl View for Outcome {
    type V = OutcomeView;

    open spec fn view(&self) -> OutcomeView {
        match *self {
            Outcome::Completed => OutcomeView::Completed,
            Outcome::Stopped { index, line, githash, errors } => OutcomeView::Stopped {
                index: index as int,
                line,
                githash: githash@,
                errors: errors@,
            },
            Outcome::NeedContent { index, path, id } => OutcomeView::NeedContent {
                index: index as int,
                path: path@,
                id,
            },
        }
    }
}

/// One step of a script over views: the line that names the revision, and
/// the patch of that revision.
pub type Step = (usize, ChangeSetView);

/// The steps of a script over views.
pub open spec fn steps(patches: Seq<(usize, ChangeSet)>) -> Seq<Step> {
    patches.map_values(|p: (usize, ChangeSet)| (p.0, p.1@))
}

/// The tree and the outcome of a run that starts at the patch at `index`.
pub open spec fn run_spec(tree: Tree, patches: Seq<Step>, index: int) -> (Tree, OutcomeView)
    decreases patches.len() - index,
{
    if index < 0 || index >= patches.len() {
        (tree, OutcomeView::Completed)
    } else {
        match first_unread(tree, patches[index].1.files) {
            Some((path, id)) => (tree, OutcomeView::NeedContent { index, path, id }),
            None => if apply_spec(tree, patches[index].1).1.len() > 0 {
                (
                    apply_spec(tree, patches[index].1).0,
                    OutcomeView::Stopped {
                        index,
                        line: patches[index].0,
                        githash: patches[index].1.githash,
                        errors: apply_spec(tree, patches[index].1).1,
                    },
                )
            } else {
                run_spec(apply_spec(tree, patches[index].1).0, patches, index + 1)
            },
        }
    }
}

/// Early halt: a run that stops at the patch at `k`, be it on a failure or
/// on a request for content, depends on no patch behind `k`. Whatever list
/// agrees with this one up to `k` gives the same tree and the same outcome.
pub proof fn law_early_halt(tree: Tree, patches: Seq<Step>, others: Seq<Step>, index: int, k: int)
    requires
        0 <= index,
        match run_spec(tree, patches, index).1 {
            OutcomeView::Completed => false,
            OutcomeView::Stopped { index: at, .. } => at == k,
            OutcomeView::NeedContent { index: at, .. } => at == k,
        },
        others.len() > k,
        forall|i: int| 0 <= i <= k && i < patches.len() ==> others[i] == patches[i],
    ensures
        index <= k < patches.len(),
        run_spec(tree, others, index) == run_spec(tree, patches, index),
    decreases patches.len() - index,
{
    if index < patches.len() {
        if first_unread(tree, patches[index].1.files) is None && apply_spec(
            tree,
            patches[index].1,
        ).1.len() == 0 {
            law_early_halt(apply_spec(tree, patches[index].1).0, patches, others, index + 1, k);
        }
    }
}

/// Applies the patches from the one at `start` on, in order, until one of
/// them fails, one of them needs content read, or none is left.
pub fn run(fs: &mut FileSet, patches: &Vec<(usize, ChangeSet)>, start: usize) -> (outcome: Outcome)
    ensures
        final(fs)@ == run_spec(old(fs)@, steps(patches@), start as int).0,
        outcome@ == run_spec(old(fs)@, steps(patches@), start as int).1,
{
    let ghost list = steps(patches@);
    let mut index = start;
    while index < patches.len()
        invariant
            list == steps(patches@),
            run_spec(fs@, list, index as int) == run_spec(old(fs)@, list, start as int),
        decreases patches.len() - index,
    {
        let line = patches[index].0;
        let changeset = &patches[index].1;
        assert(list[index as int] == (line, changeset@));
        if let Some((path, id)) = fs.find_unread(changeset) {
            return Outcome::NeedContent { index, path, id };
        }
        if let Err(errors) = apply(fs, changeset) {
            return Outcome::Stopped { index, line, githash: changeset.githash.clone(), errors };
        }
        index += 1;
    }
    Outcome::Completed
}

} // verus!
