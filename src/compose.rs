use vstd::prelude::*;
use crate::config::OutputConfig;
use crate::decimal::{decimal, push_decimal};
use crate::describe::{Describe, SemVerTriple};
use crate::error::VersionError;

verus! {

/// Seconds from 1970-01-01 00:00:00 UTC to 2000-01-01 00:00:00 UTC.
pub const OFFSET_SECONDS_1970_TO_2000: i64 = 946713600;

pub const SECONDS_PER_DAY: i64 = 86400;

/// Everything the version is derived from: the tag's version, the commits
/// since the tag, and the tag's own creation time in seconds since 1970.
#[derive(Debug, Clone, Copy, PartialEq, Eq, Structural)]
pub struct DescribeResult {
    pub triple: SemVerTriple,
    pub revisions: u64,
    pub tag_creation_epoch_seconds: i64,
}

/// Whole days from 2000-01-01 to the given time, truncated toward zero.
pub open spec fn days_since_2000(seconds: int) -> int {
    let elapsed = seconds - OFFSET_SECONDS_1970_TO_2000;
    if elapsed >= 0 {
        elapsed / (SECONDS_PER_DAY as int)
    } else {
        -((-elapsed) / (SECONDS_PER_DAY as int))
    }
}

/// The triple after the date switches: `date` puts the day count in minor
/// and zero in patch; otherwise `date_split` puts its high and low byte
/// there, and fails where the count needs more than 16 bits.
pub open spec fn encoded_triple(t: SemVerTriple, days: int, c: OutputConfig) -> Result<
    SemVerTriple,
    VersionError,
> {
    if c.date {
        Ok(SemVerTriple { major: t.major, minor: days as u64, patch: 0 })
    } else if c.date_split {
        if days < 65536 {
            Ok(SemVerTriple { major: t.major, minor: (days / 256) as u64, patch: (days % 256) as u64 })
        } else {
            Err(VersionError::DateOverflow { days: days as i64 })
        }
    } else {
        Ok(t)
    }
}

/// Each component is below `limit`, and so is the revision count, or equal
/// to it, where it is shown.
pub open spec fn fits(t: SemVerTriple, revisions: u64, showing: bool, limit: int) -> bool {
    &&& t.major < limit
    &&& t.minor < limit
    &&& t.patch < limit
    &&& !(showing && revisions > limit)
}

/// The width checks: 16 bits always, 8 bits where enforced.
pub open spec fn width_error(t: SemVerTriple, revisions: u64, c: OutputConfig) -> Option<VersionError> {
    if !fits(t, revisions, c.spec_showing_revisions(), 65536) {
        Some(
            VersionError::ComponentOverflow16 {
                major: t.major,
                minor: t.minor,
                patch: t.patch,
                revisions,
            },
        )
    } else if c.enforce_u8 && !fits(t, revisions, c.spec_showing_revisions(), 256) {
        Some(
            VersionError::ComponentOverflow8 {
                major: t.major,
                minor: t.minor,
                patch: t.patch,
                revisions,
            },
        )
    } else {
        None
    }
}

pub open spec fn dot_if(b: bool) -> Seq<char> {
    if b { seq!['.'] } else { Seq::empty() }
}

/// The version text: the components that are not dropped, joined by `.`,
/// then the revision count after `.` (or after `-` where only the
/// prerelease form is asked for) where it is shown.
pub open spec fn rendered(t: SemVerTriple, revisions: u64, c: OutputConfig) -> Seq<char> {
    let with_major = if c.drop_major { Seq::empty() } else { decimal(t.major as nat) };
    let with_minor = if c.drop_minor {
        with_major
    } else {
        with_major + dot_if(!c.drop_major) + decimal(t.minor as nat)
    };
    let with_patch = if c.drop_patch {
        with_minor
    } else {
        with_minor + dot_if(!c.drop_major || !c.drop_minor) + decimal(t.patch as nat)
    };
    if c.spec_showing_revisions() {
        with_patch + (if c.revisions { seq!['.'] } else { seq!['-'] }) + decimal(revisions as nat)
    } else {
        with_patch
    }
}

/// The version line derived from `r` under `c`, or the failure.
pub open spec fn version_line(r: DescribeResult, c: OutputConfig) -> Result<Seq<char>, VersionError> {
    match encoded_triple(r.triple, days_since_2000(r.tag_creation_epoch_seconds as int), c) {
        Err(e) => Err(e),
        Ok(t) => match width_error(t, r.revisions, c) {
            Some(e) => Err(e),
            None => Ok(rendered(t, r.revisions, c)),
        },
    }
}

/// The line as a `Result` of texts, for comparison with `version_line`.
pub open spec fn line_view(r: Result<String, VersionError>) -> Result<Seq<char>, VersionError> {
    match r {
        Ok(s) => Ok(s@),
        Err(e) => Err(e),
    }
}

/// Whole days from 2000-01-01 to `seconds` (seconds since 1970), truncated
/// toward zero.
pub fn days_since_epoch(seconds: i64) -> (d: i64)
    ensures
        d == days_since_2000(seconds as int),
{
    if seconds >= OFFSET_SECONDS_1970_TO_2000 {
        let elapsed = (seconds - OFFSET_SECONDS_1970_TO_2000) as u64;
        (elapsed / (SECONDS_PER_DAY as u64)) as i64
    } else {
        let elapsed = (OFFSET_SECONDS_1970_TO_2000 as i128 - seconds as i128) as u64;
        -((elapsed / (SECONDS_PER_DAY as u64)) as i64)
    }
}

/// Applies the date switches to a tag's triple, for a positive day count.
pub fn encode_components(t: &SemVerTriple, days: i64, c: &OutputConfig) -> (r: Result<
    SemVerTriple,
    VersionError,
>)
    requires
        days > 0,
    ensures
        r == encoded_triple(*t, days as int, *c),
{
    if c.date {
        Ok(SemVerTriple { major: t.major, minor: days as u64, patch: 0 })
    } else if c.date_split {
        if days >= 65536 {
            return Err(VersionError::DateOverflow { days });
        }
        let d = days as u64;
        let high = (d & 0xff00) >> 8;
        let low = d & 0xff;
        assert(high == d / 256 && low == d % 256) by (bit_vector)
            requires
                d < 65536,
                high == (d & 0xff00) >> 8,
                low == d & 0xff,
        ;
        Ok(SemVerTriple { major: t.major, minor: high, patch: low })
    } else {
        Ok(*t)
    }
}

/// Checks that the components fit 16 bits, and 8 bits where enforced.
pub fn check_widths(t: &SemVerTriple, revisions: u64, c: &OutputConfig) -> (r: Result<
    (),
    VersionError,
>)
    ensures
        r is Ok <==> width_error(*t, revisions, *c) is None,
        r matches Err(e) ==> width_error(*t, revisions, *c) == Some(e),
{
    let showing = c.showing_revisions();
    if t.major >= 65536 || t.minor >= 65536 || t.patch >= 65536 || (showing && revisions > 65536) {
        return Err(
            VersionError::ComponentOverflow16 {
                major: t.major,
                minor: t.minor,
                patch: t.patch,
                revisions,
            },
        );
    }
    if c.enforce_u8 {
        if t.major >= 256 || t.minor >= 256 || t.patch >= 256 || (showing && revisions > 256) {
            return Err(
                VersionError::ComponentOverflow8 {
                    major: t.major,
                    minor: t.minor,
                    patch: t.patch,
                    revisions,
                },
            );
        }
    }
    Ok(())
}

/// Writes the version text of a triple and revision count.
pub fn render(t: &SemVerTriple, revisions: u64, c: &OutputConfig) -> (r: String)
    ensures
        r@ == rendered(*t, revisions, *c),
{
    proof {
        reveal_strlit(".");
        reveal_strlit("-");
    }
    let mut out = String::new();
    let mut print_dot = false;
    if !c.drop_major {
        push_decimal(&mut out, t.major);
        print_dot = true;
    }
    if !c.drop_minor {
        if print_dot {
            out.append(".");
        }
        push_decimal(&mut out, t.minor);
        print_dot = true;
    }
    if !c.drop_patch {
        if print_dot {
            out.append(".");
        }
        push_decimal(&mut out, t.patch);
    }
    if c.showing_revisions() {
        if c.revisions {
            out.append(".");
        } else {
            out.append("-");
        }
        push_decimal(&mut out, revisions);
    }
    proof {
        let with_major = if c.drop_major { Seq::empty() } else { decimal(t.major as nat) };
        let with_minor = if c.drop_minor {
            with_major
        } else {
            with_major + dot_if(!c.drop_major) + decimal(t.minor as nat)
        };
        let with_patch = if c.drop_patch {
            with_minor
        } else {
            with_minor + dot_if(!c.drop_major || !c.drop_minor) + decimal(t.patch as nat)
        };
        let full = if c.spec_showing_revisions() {
            with_patch + (if c.revisions { seq!['.'] } else { seq!['-'] }) + decimal(revisions as nat)
        } else {
            with_patch
        };
        assert(out@ =~= full);
    }
    out
}

/// Derives the version line from a describe result, for a tag created
/// after the first day of 2000.
pub fn compose_version(r: &DescribeResult, c: &OutputConfig) -> (out: Result<String, VersionError>)
    requires
        days_since_2000(r.tag_creation_epoch_seconds as int) > 0,
    ensures
        line_view(out) == version_line(*r, *c),
{
    let days = days_since_epoch(r.tag_creation_epoch_seconds);
    let t = match encode_components(&r.triple, days, c) {
        Ok(t) => t,
        Err(e) => return Err(e),
    };
    match check_widths(&t, r.revisions, c) {
        Ok(()) => Ok(render(&t, r.revisions, c)),
        Err(e) => Err(e),
    }
}

/// Derives the version line from a describe text's meaning and the tag's
/// tagger time, which a lightweight tag lacks.
pub fn derive_version(d: &Describe, tagger_seconds: Option<i64>, c: &OutputConfig) -> (out: Result<
    String,
    VersionError,
>)
    requires
        tagger_seconds matches Some(s) ==> days_since_2000(s as int) > 0,
    ensures
        tagger_seconds is None ==> out == Err::<String, VersionError>(
            VersionError::MissingTaggerIdentity,
        ),
        tagger_seconds matches Some(s) ==> line_view(out) == version_line(
            DescribeResult { triple: d.triple, revisions: d.revisions, tag_creation_epoch_seconds: s },
            *c,
        ),
{
    match tagger_seconds {
        None => Err(VersionError::MissingTaggerIdentity),
        Some(s) => {
            let r = DescribeResult {
                triple: d.triple,
                revisions: d.revisions,
                tag_creation_epoch_seconds: s,
            };
            compose_version(&r, c)
        },
    }
}

} // verus!
