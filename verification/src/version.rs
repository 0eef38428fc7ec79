//! The class-file version pair.

use vstd::prelude::*;

verus! {

/// A minor/major version pair, stored as read; no compatibility range is
/// enforced.
#[derive(Debug, Clone, Copy, PartialEq, Eq, Structural)]
pub struct Version {
    pub major: u16,
    pub minor: u16,
}

impl Version {
    pub fn new(major: u16, minor: u16) -> (v: Version)
        ensures
            v == (Version { major, minor }),
    {
        Version { major, minor }
    }
}

} // verus!
