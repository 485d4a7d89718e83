use vstd::prelude::*;
use crate::decimal::{count_of, decimal, parse_count, push_decimal};
use crate::error::VersionError;

verus! {

/// A semantic version's numeric part.
#[derive(Debug, Clone, Copy, PartialEq, Eq, Structural)]
pub struct SemVerTriple {
    pub major: u64,
    pub minor: u64,
    pub patch: u64,
}

/// What a describe text says: the nearest tag's version and the number of
/// commits made since that tag.
#[derive(Debug, Clone, Copy, PartialEq, Eq, Structural)]
pub struct Describe {
    pub triple: SemVerTriple,
    pub revisions: u64,
}

/// What `semver::Version::parse` makes of a text: major, minor, patch, and
/// whether a prerelease part is present; `None` where the text is no version.
pub uninterp spec fn semver_fields(text: Seq<char>) -> Option<(u64, u64, u64, bool)>;

/// Relies on `semver::Version::parse` and `semver::Prerelease::is_empty`:
/// the result depends on the text alone.
#[verifier::external_body]
fn parse_semver(text: &str) -> (r: Option<(u64, u64, u64, bool)>)
    ensures
        r == semver_fields(text@),
{
    match semver::Version::parse(text) {
        Ok(v) => Some((v.major, v.minor, v.patch, !v.pre.is_empty())),
        Err(_) => None,
    }
}

/// The text after the first `-`, if there is one.
pub open spec fn after_first_dash(s: Seq<char>) -> Option<Seq<char>>
    decreases s.len(),
{
    if s.len() == 0 {
        None
    } else if s[0] == '-' {
        Some(s.drop_first())
    } else {
        after_first_dash(s.drop_first())
    }
}

/// The text up to the first `-`, or all of it.
pub open spec fn before_dash(s: Seq<char>) -> Seq<char>
    decreases s.len(),
{
    if s.len() == 0 {
        s
    } else if s[0] == '-' {
        Seq::empty()
    } else {
        seq![s[0]] + before_dash(s.drop_first())
    }
}

/// The second of the `-`-separated pieces of a text, if it has two or more.
pub open spec fn second_piece(s: Seq<char>) -> Option<Seq<char>> {
    match after_first_dash(s) {
        Some(rest) => Some(before_dash(rest)),
        None => None,
    }
}

/// The commit count of a describe text: read from its second `-`-separated
/// piece where a prerelease part is present, and zero where there is none
/// or that piece is no count.
pub open spec fn revisions_in(text: Seq<char>, has_prerelease: bool) -> u64 {
    if !has_prerelease {
        0
    } else {
        match second_piece(text) {
            Some(piece) => match count_of(piece) {
                Some(n) => n,
                None => 0,
            },
            None => 0,
        }
    }
}

/// What a describe text means, over what semver makes of it.
pub open spec fn describe_of(text: Seq<char>) -> Result<Describe, VersionError> {
    match semver_fields(text) {
        Some((major, minor, patch, pre)) => Ok(Describe {
            triple: SemVerTriple { major, minor, patch },
            revisions: revisions_in(text, pre),
        }),
        None => Err(VersionError::MalformedVersion),
    }
}

/// The name of the reference of the tag `major.minor.patch`.
pub open spec fn tag_reference(t: SemVerTriple) -> Seq<char> {
    "refs/tags/"@ + decimal(t.major as nat) + "."@ + decimal(t.minor as nat) + "."@
        + decimal(t.patch as nat)
}

fn chars_of(s: &str) -> (r: Vec<char>)
    ensures
        r@ == s@,
{
    let n = s.unicode_len();
    let mut r: Vec<char> = Vec::new();
    let mut i: usize = 0;
    while i < n
        invariant
            n == s@.len(),
            i <= n,
            r@ == s@.subrange(0, i as int),
        decreases n - i,
    {
        r.push(s.get_char(i));
        i = i + 1;
        assert(r@ =~= s@.subrange(0, i as int));
    }
    assert(s@.subrange(0, n as int) =~= s@);
    r
}

/// The second `-`-separated piece of `s`, if it has two or more.
pub fn second_dash_piece(s: &Vec<char>) -> (r: Option<Vec<char>>)
    ensures
        match r {
            Some(p) => second_piece(s@) == Some(p@),
            None => second_piece(s@) is None,
        },
{
    let n = s.len();
    let mut i: usize = 0;
    assert(s@.subrange(0, n as int) =~= s@);
    while i < n && s[i] != '-'
        invariant
            n == s@.len(),
            i <= n,
            after_first_dash(s@) == after_first_dash(s@.subrange(i as int, n as int)),
        decreases n - i,
    {
        assert(s@.subrange(i as int, n as int).drop_first() =~= s@.subrange(i + 1, n as int));
        i = i + 1;
    }
    if i == n {
        assert(s@.subrange(n as int, n as int).len() == 0);
        return None;
    }
    assert(s@.subrange(i as int, n as int).drop_first() =~= s@.subrange(i + 1, n as int));
    let ghost rest = s@.subrange(i + 1, n as int);
    let mut piece: Vec<char> = Vec::new();
    let mut j: usize = i + 1;
    while j < n && s[j] != '-'
        invariant
            n == s@.len(),
            i < j <= n,
            rest == s@.subrange(i + 1, n as int),
            before_dash(rest) == piece@ + before_dash(s@.subrange(j as int, n as int)),
        decreases n - j,
    {
        let ghost tail = s@.subrange(j as int, n as int);
        assert(tail.drop_first() =~= s@.subrange(j + 1, n as int));
        assert(before_dash(tail) == seq![s@[j as int]] + before_dash(tail.drop_first()));
        piece.push(s[j]);
        j = j + 1;
        assert(piece@ + before_dash(s@.subrange(j as int, n as int)) =~= before_dash(rest));
    }
    assert(before_dash(s@.subrange(j as int, n as int)) =~= Seq::<char>::empty());
    assert(piece@ =~= before_dash(rest));
    Some(piece)
}

/// The commit count of a describe text, given whether semver found a
/// prerelease part in it.
pub fn revisions_from(text: &str, has_prerelease: bool) -> (r: u64)
    ensures
        r == revisions_in(text@, has_prerelease),
{
    if !has_prerelease {
        return 0;
    }
    let chars = chars_of(text);
    match second_dash_piece(&chars) {
        Some(piece) => match parse_count(&piece) {
            Some(n) => n,
            None => 0,
        },
        None => 0,
    }
}

/// Interprets a describe text `TAG[-REV-gHASH]`: the version of its tag and
/// the number of commits since that tag.
pub fn interpret_describe(text: &str) -> (r: Result<Describe, VersionError>)
    ensures
        r == describe_of(text@),
        r is Err <==> semver_fields(text@) is None,
{
    match parse_semver(text) {
        Some((major, minor, patch, pre)) => {
            let revisions = revisions_from(text, pre);
            Ok(Describe { triple: SemVerTriple { major, minor, patch }, revisions })
        },
        None => Err(VersionError::MalformedVersion),
    }
}

/// The reference name `refs/tags/MAJOR.MINOR.PATCH` of a tag.
pub fn tag_reference_name(t: &SemVerTriple) -> (r: String)
    ensures
        r@ == tag_reference(*t),
{
    let mut out = String::from_str("refs/tags/");
    push_decimal(&mut out, t.major);
    out.append(".");
    push_decimal(&mut out, t.minor);
    out.append(".");
    push_decimal(&mut out, t.patch);
    out
}

} // verus!
