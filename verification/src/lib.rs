//! Dry-run simulation of an ordered sequence of textual patches against an
//! evolving snapshot of a file tree.
//!
//! Each patch is a set of per-file hunks. A hunk is placed by a bounded
//! bidirectional search around its predicted line, the file is rewritten in
//! memory, and the run stops at the first patch that cannot be placed.

pub mod changeset;
pub mod diff;
pub mod driver;
pub mod error;
pub mod fileset;
pub mod guard;
pub mod hunks;
pub mod lines;
pub mod locate;
pub mod model;
pub mod script;
pub mod text;

pub use changeset::ChangeSet;
pub use diff::add_commit_text;
pub use driver::{run, Outcome};
pub use error::Error;
pub use fileset::{apply, FileSet};
pub use hunks::apply_hunks;
pub use locate::locate;
pub use model::{FileInfo, FileKind, FileState, Hunk, LineNr, MergeError, MergeErrors};
