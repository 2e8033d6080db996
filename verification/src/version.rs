//! The guest runtime's declared binary-compatibility version.

use vstd::prelude::*;

verus! {

/// A semantic-version triple as the guest runtime reports it.
///
/// Exactly one boundary matters to this crate: versions up to and including
/// `0.0.4` select the legacy object layout, all later versions the current
/// one. The triple is immutable once obtained for a given operation.
#[derive(Clone, Copy, PartialEq, Eq, Structural, Debug)]
pub struct ApiVersion {
    pub major: u64,
    pub minor: u64,
    pub patch: u64,
}

impl ApiVersion {
    /// Lexicographic order on (major, minor, patch).
    pub open spec fn spec_le(self, other: ApiVersion) -> bool {
        self.major < other.major || (self.major == other.major && (self.minor < other.minor
            || (self.minor == other.minor && self.patch <= other.patch)))
    }

    /// Versions up to and including `0.0.4` use the legacy object layout.
    pub open spec fn spec_is_legacy(self) -> bool {
        self.spec_le(ApiVersion { major: 0, minor: 0, patch: 4 })
    }

    pub fn new(major: u64, minor: u64, patch: u64) -> (r: ApiVersion)
        ensures
            r == (ApiVersion { major, minor, patch }),
    {
        ApiVersion { major, minor, patch }
    }

    pub fn le(&self, other: &ApiVersion) -> (r: bool)
        ensures
            r == self.spec_le(*other),
    {
        self.major < other.major || (self.major == other.major && (self.minor < other.minor
            || (self.minor == other.minor && self.patch <= other.patch)))
    }

    /// Whether this version selects the legacy object layout.
    pub fn is_legacy(&self) -> (r: bool)
        ensures
            r == self.spec_is_legacy(),
    {
        self.major == 0 && self.minor == 0 && self.patch <= 4
    }
}

} // verus!
