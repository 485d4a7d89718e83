use vstd::prelude::*;

verus! {

/// Why a version string could not be derived.
#[derive(Debug, Clone, Copy, PartialEq, Eq, Structural)]
pub enum VersionError {
    /// The describe text is not a `major.minor.patch` version.
    MalformedVersion,
    /// The tag carries no tagger record (a lightweight tag), so it has no date.
    MissingTaggerIdentity,
    /// The day count does not fit the two-part split encoding.
    DateOverflow { days: i64 },
    /// A component does not fit in 16 bits.
    ComponentOverflow16 { major: u64, minor: u64, patch: u64, revisions: u64 },
    /// A component does not fit in 8 bits while that width is enforced.
    ComponentOverflow8 { major: u64, minor: u64, patch: u64, revisions: u64 },
}

} // verus!
