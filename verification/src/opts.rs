//! Configuration of one traversal.

use vstd::prelude::*;

verus! {

/// Options for one space-usage computation. Immutable for the duration of a
/// traversal.
#[derive(Debug, Clone)]
pub struct Opts {
    /// Directory to start from; `None` means the caller's current directory.
    pub dir: Option<String>,
    /// Render the total with human-readable units instead of a raw byte count.
    pub human_readable: bool,
    /// Count every hard link separately instead of counting each inode once.
    pub ignore_hardlinks: bool,
    /// Resolve symlinks and process their targets instead of skipping them.
    pub follow_symlinks: bool,
}

impl Opts {
    /// Options as the command line defaults them: start from the current
    /// directory, raw byte output, deduplicate hard links, skip symlinks.
    pub fn new() -> (opts: Opts)
        ensures
            opts.dir is None,
            !opts.human_readable,
            !opts.ignore_hardlinks,
            !opts.follow_symlinks,
    {
        Opts { dir: None, human_readable: false, ignore_hardlinks: false, follow_symlinks: false }
    }
}

} // verus!
