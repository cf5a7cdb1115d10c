//! What a run is configured with.

use vstd::prelude::*;

verus! {

/// The settings of one run: where the catalog is and how to sign in to it,
/// which libraries to work on, and the key for the metadata provider.
#[derive(Debug)]
pub struct Config {
    pub komga_url: String,
    pub komga_username: String,
    pub komga_password: String,
    /// Names of the libraries to work on; empty for the whole catalog.
    pub libraries: Vec<String>,
    pub bgm_key: String,
}

} // verus!
