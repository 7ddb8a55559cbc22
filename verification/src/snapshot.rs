//! How snapshot components store what they take.

use vstd::prelude::*;

verus! {

/// Whether each snapshot is stored with the time it was taken.
#[derive(Clone, Copy, Debug, PartialEq, Eq, Structural)]
pub struct SnapshotStorage {
    pub with_timestamp: bool,
}

impl SnapshotStorage {
    pub fn new(with_timestamp: bool) -> (res: Self)
        ensures
            res.with_timestamp == with_timestamp,
    {
        SnapshotStorage { with_timestamp }
    }
}

impl Default for SnapshotStorage {
    fn default() -> (res: Self)
        ensures
            res.with_timestamp,
    {
        Self::new(true)
    }
}

} // verus!
