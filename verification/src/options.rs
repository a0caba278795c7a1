//! The settings of one run.

use vstd::prelude::*;

verus! {

/// What the command line configures. The library only reads it.
#[derive(Clone, Debug)]
pub struct Options {
    /// Whether debug output was asked for.
    pub debug: bool,
    /// The directory whose tree is watched.
    pub root: String,
    /// Path of the transfer tool.
    pub rsync: String,
    /// Further arguments for the transfer tool, separated by white space.
    pub rsync_params: String,
    /// Path of the file of ignore patterns; empty when there is none.
    pub ignore_file: String,
    /// How long to sleep when nothing is pending, in milliseconds.
    pub interval: u64,
    /// Where the files are sent, in the order given.
    pub destinations: Vec<String>,
}

impl Options {
    /// Whether a file of ignore patterns is configured.
    pub open spec fn has_ignore_file(&self) -> bool {
        self.ignore_file@.len() > 0
    }

    /// The path of the file of ignore patterns, if one is configured.
    pub fn ignore_file_path(&self) -> (path: Option<&str>)
        ensures
            path is Some <==> self.has_ignore_file(),
            path matches Some(p) ==> p@ == self.ignore_file@,
    {
        if self.ignore_file.as_str().is_empty() {
            None
        } else {
            Some(self.ignore_file.as_str())
        }
    }
}

} // verus!
