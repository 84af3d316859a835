//! Why a grapheme cluster could not be encoded.

use vstd::prelude::*;

verus! {

/// The ways in which construction of a cluster value fails.
#[derive(Debug, Clone, Copy, PartialEq, Eq, Structural)]
pub enum ClusterError {
    /// There was no cluster to encode: the text was empty.
    EmptyClusterInput,
    /// The cluster's encoding has `len` bytes, more than a value can hold.
    ClusterTooLong { len: usize },
}

} // verus!
