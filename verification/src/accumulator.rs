//! What the accumulator reports after it has appended a leaf.
//!
//! The accumulator is the append-only authenticated structure that holds a
//! campaign's leaves. It lives outside this library: a caller hands it the
//! encoded leaf and passes on what it answers. The answer is taken as it
//! comes; this library neither recomputes nor checks a root.

use vstd::prelude::*;

verus! {

/// The accumulator's answer to one successful append.
#[derive(Clone, Copy, Debug, PartialEq, Eq)]
pub struct MerkleTreeUpdate {
    /// The root after the append.
    pub new_merkle_root: [u8; 32],
    /// The position of the appended leaf.
    pub leaf_index: u64,
    /// When the append took place, in seconds since the Unix epoch.
    pub timestamp: i64,
}

/// The mathematical content of a [`MerkleTreeUpdate`].
pub struct AccumulatorUpdate {
    /// The root after the append, 32 bytes.
    pub new_root: Seq<u8>,
    /// The position of the appended leaf.
    pub position: u64,
    /// When the append took place.
    pub timestamp: i64,
}

impl View for MerkleTreeUpdate {
    type V = AccumulatorUpdate;

    open spec fn view(&self) -> AccumulatorUpdate {
        AccumulatorUpdate {
            new_root: self.new_merkle_root@,
            position: self.leaf_index,
            timestamp: self.timestamp,
        }
    }
}

} // verus!
