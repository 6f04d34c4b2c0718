//! Command-line options of the dashboard.
use vstd::prelude::*;

verus! {

/// The log shown when no revset is given.
pub const DEFAULT_REVSET: &'static str = "root() | remote_bookmarks() | ancestors(immutable_heads().., 24)";

/// Where to operate and what to show.
#[derive(Debug, Clone)]
pub struct Args {
    /// Path to the repository to operate on.
    pub repository: String,
    /// Which revisions to show.
    pub revisions: String,
}

} // verus!
