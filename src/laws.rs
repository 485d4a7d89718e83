use vstd::prelude::*;
use crate::compose::{days_since_2000, encoded_triple, version_line, DescribeResult};
use crate::config::OutputConfig;
use crate::decimal::decimal;
use crate::describe::SemVerTriple;
use crate::error::VersionError;

verus! {

/// With every switch off, a tag with no commits after it whose components
/// fit in 16 bits gives exactly `major.minor.patch`.
pub proof fn plain_tag_gives_its_version(r: DescribeResult, c: OutputConfig)
    requires
        c.is_plain(),
        r.revisions == 0,
        r.triple.major < 65536,
        r.triple.minor < 65536,
        r.triple.patch < 65536,
        days_since_2000(r.tag_creation_epoch_seconds as int) > 0,
    ensures
        version_line(r, c) == Ok::<Seq<char>, VersionError>(
            decimal(r.triple.major as nat) + seq!['.'] + decimal(r.triple.minor as nat) + seq!['.']
                + decimal(r.triple.patch as nat),
        ),
{
    let expected = decimal(r.triple.major as nat) + seq!['.'] + decimal(r.triple.minor as nat)
        + seq!['.'] + decimal(r.triple.patch as nat);
    if let Ok(s) = version_line(r, c) {
        assert(s =~= expected);
    }
}

/// With `date`, a tag made at 2000-01-02 00:00:00 UTC has minor 1 and
/// patch 0, whatever its own minor and patch were.
pub proof fn date_of_second_day(t: SemVerTriple, c: OutputConfig)
    requires
        c.date,
    ensures
        days_since_2000(946800000) == 1,
        encoded_triple(t, days_since_2000(946800000), c) == Ok::<SemVerTriple, VersionError>(
            SemVerTriple { major: t.major, minor: 1, patch: 0 },
        ),
{
}

/// With `date_split` (and not `date`), a day count of 65536 or more fails
/// with a date overflow, whatever the other switches say.
pub proof fn split_date_overflows(r: DescribeResult, c: OutputConfig)
    requires
        c.date_split,
        !c.date,
        days_since_2000(r.tag_creation_epoch_seconds as int) >= 65536,
    ensures
        version_line(r, c) == Err::<Seq<char>, VersionError>(
            VersionError::DateOverflow {
                days: days_since_2000(r.tag_creation_epoch_seconds as int) as i64,
            },
        ),
{
}

} // verus!
