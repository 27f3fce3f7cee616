use vstd::prelude::*;

verus! {

/// Settings an engine is opened with.
#[derive(Clone, Copy, Debug, PartialEq, Eq, Structural)]
pub struct Options {
    /// Create a new store when none exists at the path, instead of failing.
    pub create_if_missing: bool,
    /// Bound on the number of retained write-ahead log files.
    pub keep_log_file_num: u32,
}

impl Options {
    pub fn new(create_if_missing: bool, keep_log_file_num: u32) -> (r: Options)
        ensures
            r.create_if_missing == create_if_missing,
            r.keep_log_file_num == keep_log_file_num,
    {
        Options { create_if_missing, keep_log_file_num }
    }
}

} // verus!
