//! The configuration store backed by sqlite.
use vstd::prelude::*;

verus! {

/// The configuration store of an sqlite database.
#[derive(Debug)]
pub struct ConfigSqliteStore;

impl ConfigSqliteStore {
    /// Whether the installation counts as bootstrapped, given the number
    /// the bootstrap query counted: it does unless the count is zero.
    pub fn bootstrapped_from_count(count: i32) -> (bootstrapped: bool)
        ensures
            bootstrapped == (count != 0),
    {
        if count == 0 {
            false
        } else {
            true
        }
    }
}

} // verus!
