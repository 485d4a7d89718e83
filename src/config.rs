use vstd::prelude::*;

verus! {

/// The output switches; each can be combined with the others.
#[derive(Debug, Clone, Copy, PartialEq, Eq, Structural)]
pub struct OutputConfig {
    /// Minor becomes the day count, patch becomes zero.
    pub date: bool,
    /// Minor and patch become the high and low byte of the day count.
    pub date_split: bool,
    /// Append `.revisions`.
    pub revisions: bool,
    /// Append `-revisions` (unless `revisions` is also set).
    pub revisions_prerelease: bool,
    pub drop_major: bool,
    pub drop_minor: bool,
    pub drop_patch: bool,
    /// Require every component to fit in 8 bits as well.
    pub enforce_u8: bool,
}

impl OutputConfig {
    pub open spec fn is_plain(self) -> bool {
        !self.date && !self.date_split && !self.revisions && !self.revisions_prerelease
            && !self.drop_major && !self.drop_minor && !self.drop_patch && !self.enforce_u8
    }

    /// Whether a revision count is appended to the output.
    pub open spec fn spec_showing_revisions(&self) -> bool {
        self.revisions || self.revisions_prerelease
    }

    /// A configuration with every switch off.
    pub fn new() -> (c: OutputConfig)
        ensures
            c.is_plain(),
    {
        OutputConfig {
            date: false,
            date_split: false,
            revisions: false,
            revisions_prerelease: false,
            drop_major: false,
            drop_minor: false,
            drop_patch: false,
            enforce_u8: false,
        }
    }

    #[verifier::when_used_as_spec(spec_showing_revisions)]
    pub fn showing_revisions(&self) -> (r: bool)
        ensures
            r == self.spec_showing_revisions(),
    {
        self.revisions || self.revisions_prerelease
    }
}

} // verus!
