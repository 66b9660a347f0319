//! The runtime configuration an instance of the application starts with.
//!
//! Flag parsing itself is the host program's business; what the engine
//! needs from it is gathered here.

use vstd::prelude::*;

verus! {

/// The runtime configuration of one application instance.
#[derive(Debug)]
pub struct RunConfiguration {
    /// The configuration file path.
    pub path: String,
    /// Pages to open on initial load.
    pub start_pages: Vec<String>,
    /// The exit status and message, set when the instance should end
    /// instead of running.
    pub exit_status: Option<(i32, String)>,
}

} // verus!
