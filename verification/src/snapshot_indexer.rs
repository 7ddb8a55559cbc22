//! Snapshot indexers that read other canisters, possibly through lenses.

use vstd::prelude::*;

verus! {

/// The canisters a lens-backed snapshot indexer passes to the lens.
#[derive(Clone, Debug)]
pub struct LensTarget {
    pub identifiers: Vec<String>,
}

/// Whether each snapshot is stored with the time it was taken.
#[derive(Clone, Copy, Debug, PartialEq, Eq, Structural)]
pub struct SnapshotStorage {
    pub with_timestamp: bool,
}

impl SnapshotStorage {
    pub fn new(with_timestamp: bool) -> (res: Self)
        ensures
            res.with_timestamp == with_timestamp,
    {
        SnapshotStorage { with_timestamp }
    }
}

impl Default for SnapshotStorage {
    fn default() -> (res: Self)
        ensures
            res.with_timestamp,
    {
        Self::new(true)
    }
}

} // verus!
