//! Semantic versions for module namespaces.
//!
//! A namespace version carries major, minor and patch numbers, but only the
//! major and minor numbers are observable to the host runtime.

use vstd::prelude::*;

verus! {

/// A semantic version `{major, minor, patch}`.
#[derive(Clone, Copy, Debug, PartialEq, Eq, Structural)]
pub struct Version {
    pub major: u64,
    pub minor: u64,
    pub patch: u64,
}

impl Version {
    /// Builds the version `major.minor.patch`.
    pub fn new(major: u64, minor: u64, patch: u64) -> (v: Version)
        ensures
            v.major == major,
            v.minor == minor,
            v.patch == patch,
    {
        Version { major, minor, patch }
    }
}

} // verus!
