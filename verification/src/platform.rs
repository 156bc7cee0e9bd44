//! What differs between the platforms that the embedder runs on.

use vstd::prelude::*;

verus! {

/// The kinds of platform that the embedder knows.
#[derive(Clone, Copy, Debug, PartialEq, Eq, Structural)]
pub enum Platform {
    /// A desktop that follows the XDG base directory convention.
    Unix,
    Android,
    MacOs,
    Windows,
}

/// Releases what the platform layer holds when the embedder ends. The
/// platform layer holds nothing, so there is nothing to release.
pub fn deinit() {
}

} // verus!
