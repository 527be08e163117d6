use vstd::prelude::*;

verus! {

/// Configuration of one download run, immutable for its duration.
///
/// `zip_path` names the input archive, `output_dir` the destination
/// directory for every written file, `thread_sleep` the minimum spacing in
/// milliseconds between successive task launches, and `developer_mode`
/// restricts the run to a prefix of the manifest for quick trials.
#[derive(Debug)]
pub struct Config {
    pub zip_path: String,
    pub output_dir: String,
    pub thread_sleep: i32,
    pub developer_mode: bool,
}

} // verus!
