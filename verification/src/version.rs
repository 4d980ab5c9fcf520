//! The numeric identifier of a release.

use vstd::prelude::*;

verus! {

/// A release number: `major.minor.patch`.
///
/// Any three numbers form a version; only five `(major, minor)` pairs belong
/// to a release that has a codename. Versions are ordered by major, then
/// minor, then patch.
#[derive(Clone, Copy, Debug, PartialEq, Eq, Structural, PartialOrd, Ord, Hash)]
pub struct Version {
    pub major: u8,
    pub minor: u8,
    pub patch: u8,
}

impl Version {
    /// Builds a version from its three numbers, with no validation.
    pub fn new(major: u8, minor: u8, patch: u8) -> (version: Version)
        ensures
            version.major == major,
            version.minor == minor,
            version.patch == patch,
    {
        Version { major, minor, patch }
    }
}

} // verus!
