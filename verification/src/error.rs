//! The errors that end a run before any verdict on a patch.

use vstd::prelude::*;

verus! {

/// Why the input could not be turned into patches.
#[derive(Debug)]
pub enum Error {
    /// The diff parser refused the text of a patch; its message.
    UniDiff(String),
    /// The pattern for the lines of a script was refused; the message.
    Pattern(String),
    /// The hunks of a file overlap or are out of order.
    NonMonotonicPatchLines,
    /// The path does not name the script of a rebase in progress.
    NotScriptFile,
    /// The text of a patch holds a header that the diff parser cannot take.
    UnsupportedDiff,
    /// A line of a hunk is tagged as none of added, removed, context or empty.
    UnknownLineType,
}

/// An error over views.
pub enum ErrorView {
    UniDiff(Seq<char>),
    Pattern(Seq<char>),
    NonMonotonicPatchLines,
    NotScriptFile,
    UnsupportedDiff,
    UnknownLineType,
}

impl View for Error {
    type V = ErrorView;

    open spec fn view(&self) -> ErrorView {
        match *self {
            Error::UniDiff(message) => ErrorView::UniDiff(message@),
            Error::Pattern(message) => ErrorView::Pattern(message@),
            Error::NonMonotonicPatchLines => ErrorView::NonMonotonicPatchLines,
            Error::NotScriptFile => ErrorView::NotScriptFile,
            Error::UnsupportedDiff => ErrorView::UnsupportedDiff,
            Error::UnknownLineType => ErrorView::UnknownLineType,
        }
    }
}

} // verus!
