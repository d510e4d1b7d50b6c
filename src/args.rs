//! Command-line overrides for the configuration.
use vstd::prelude::*;

verus! {

/// The options a user may give on the command line; each one present
/// overrides the configuration file's value.
#[derive(Debug, Clone)]
pub struct Args {
    pub config: String,
    pub pane: Option<String>,
    pub backend: Option<String>,
    pub interval: Option<u64>,
    pub stuck_sec: Option<u64>,
    pub max_retry: Option<usize>,
}

} // verus!
