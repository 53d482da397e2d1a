//! The closed set of ways a patch session can fail.
use vstd::prelude::*;

verus! {

/// Message key shown to the user for a network failure of the patcher.
pub const NETWORK_ERROR: &'static str = "patcher-network-error";

/// Message key shown to the user for a local filesystem failure of the patcher.
pub const FILE_ERROR: &'static str = "patcher-file-error";

/// Why a patch session ended in its error state.
#[derive(Clone, Copy, Debug, PartialEq, Eq, Structural)]
pub enum PatchFailure {
    /// Transport failure, a refused status, or a malformed manifest.
    Network,
    /// A directory, file, rename or marker operation on the local disk failed.
    File,
}

impl PatchFailure {
    /// The message key that the user interface shows for this failure.
    pub fn message(&self) -> (r: &'static str)
        ensures
            *self == PatchFailure::Network ==> r@ == NETWORK_ERROR@,
            *self == PatchFailure::File ==> r@ == FILE_ERROR@,
    {
        match self {
            PatchFailure::Network => NETWORK_ERROR,
            PatchFailure::File => FILE_ERROR,
        }
    }
}

} // verus!
