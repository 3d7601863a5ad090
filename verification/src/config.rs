//! The user's settings.

use vstd::prelude::*;

verus! {

/// The settings that the settings screen edits: where files go, how many
/// playlist items are fetched at once, and whether debug output is on.
pub struct Config {
    pub download_path: String,
    pub parallel_downloads: u8,
    pub debug_mode: bool,
}

impl Config {
    /// A copy of the settings.
    pub fn copied(&self) -> (r: Config)
        ensures
            r == *self,
    {
        Config {
            download_path: self.download_path.clone(),
            parallel_downloads: self.parallel_downloads,
            debug_mode: self.debug_mode,
        }
    }
}

} // verus!
