//! Semantic versions and the update-check decision: a reported version that
//! is not newer than the running build is a no-op; a newer one leads to a
//! restart signal, preceded by a self-update only where that is permitted.

use vstd::prelude::*;

verus! {

/// A semantic version, compared lexicographically by major, minor, patch.
#[derive(Clone, Copy, PartialEq, Eq, Structural, Debug)]
pub struct Version {
    pub major: u64,
    pub minor: u64,
    pub patch: u64,
}

impl Version {
    /// Strict lexicographic order on `(major, minor, patch)`.
    pub open spec fn lt_spec(self, other: Version) -> bool {
        ||| self.major < other.major
        ||| (self.major == other.major && self.minor < other.minor)
        ||| (self.major == other.major && self.minor == other.minor && self.patch < other.patch)
    }

    /// Whether `self` is strictly newer than `other`.
    pub fn is_newer_than(&self, other: &Version) -> (r: bool)
        ensures
            r == other.lt_spec(*self),
    {
        if self.major != other.major {
            self.major > other.major
        } else if self.minor != other.minor {
            self.minor > other.minor
        } else {
            self.patch > other.patch
        }
    }
}

/// What the update check decides to do.
#[derive(Clone, Copy, PartialEq, Eq, Structural, Debug)]
pub enum UpdateAction {
    /// The reported version is not newer than the running build: no-op.
    UpToDate,
    /// Newer, and self-update is permitted: fetch the new build, then signal
    /// that a graceful restart is due.
    SelfUpdateThenRestart,
    /// Newer, but self-update is not permitted: only signal the restart.
    RestartOnly,
}

pub open spec fn update_decision_spec(
    latest: Version,
    current: Version,
    allow_self_update: bool,
) -> UpdateAction {
    if !current.lt_spec(latest) {
        UpdateAction::UpToDate
    } else if allow_self_update {
        UpdateAction::SelfUpdateThenRestart
    } else {
        UpdateAction::RestartOnly
    }
}

/// Decide what a `LatestVersion` report means for this build. Versions equal
/// to or older than the running build change nothing.
pub fn update_decision(latest: &Version, current: &Version, allow_self_update: bool) -> (r:
    UpdateAction)
    ensures
        r == update_decision_spec(*latest, *current, allow_self_update),
{
    if !latest.is_newer_than(current) {
        UpdateAction::UpToDate
    } else if allow_self_update {
        UpdateAction::SelfUpdateThenRestart
    } else {
        UpdateAction::RestartOnly
    }
}

} // verus!
