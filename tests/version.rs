use date_version::compose::{
    check_widths, compose_version, days_since_epoch, derive_version, encode_components, render,
    DescribeResult,
};
use date_version::config::OutputConfig;
use date_version::decimal::{parse_count, push_decimal};
use date_version::describe::{
    interpret_describe, revisions_from, second_dash_piece, tag_reference_name, Describe,
    SemVerTriple,
};
use date_version::error::VersionError;

const DAY: i64 = 86400;
const Y2000: i64 = 946713600;

fn result(major: u64, minor: u64, patch: u64, revisions: u64, days: i64) -> DescribeResult {
    DescribeResult {
        triple: SemVerTriple { major, minor, patch },
        revisions,
        tag_creation_epoch_seconds: Y2000 + days * DAY,
    }
}

fn line(r: &DescribeResult, c: &OutputConfig) -> Result<String, VersionError> {
    compose_version(r, c)
}

fn chars(s: &str) -> Vec<char> {
    s.chars().collect()
}

#[test]
fn plain_tag_gives_major_minor_patch() {
    let c = OutputConfig::new();
    assert_eq!(line(&result(1, 2, 3, 0, 10), &c), Ok("1.2.3".to_string()));
    assert_eq!(line(&result(0, 0, 0, 0, 1), &c), Ok("0.0.0".to_string()));
    assert_eq!(line(&result(65535, 10, 907, 0, 5000), &c), Ok("65535.10.907".to_string()));
}

#[test]
fn plain_describe_text_round_trip() {
    let d = interpret_describe("12.0.7").unwrap();
    assert_eq!(d, Describe { triple: SemVerTriple { major: 12, minor: 0, patch: 7 }, revisions: 0 });
    let out = derive_version(&d, Some(Y2000 + 40 * DAY), &OutputConfig::new());
    assert_eq!(out, Ok("12.0.7".to_string()));
}

#[test]
fn drop_minor_has_no_double_separator() {
    let mut c = OutputConfig::new();
    c.drop_minor = true;
    assert_eq!(line(&result(1, 2, 3, 0, 10), &c), Ok("1.3".to_string()));
}

#[test]
fn drop_combinations_join_remaining_components() {
    let r = result(1, 2, 3, 0, 10);
    let mut c = OutputConfig::new();
    c.drop_major = true;
    assert_eq!(line(&r, &c), Ok("2.3".to_string()));
    c.drop_minor = true;
    assert_eq!(line(&r, &c), Ok("3".to_string()));
    c.drop_major = false;
    c.drop_patch = true;
    assert_eq!(line(&r, &c), Ok("1".to_string()));
    c.drop_major = true;
    assert_eq!(line(&r, &c), Ok("".to_string()));
    let mut c = OutputConfig::new();
    c.drop_patch = true;
    assert_eq!(line(&r, &c), Ok("1.2".to_string()));
}

#[test]
fn all_dropped_with_revisions_keeps_its_separator() {
    let mut c = OutputConfig::new();
    c.drop_major = true;
    c.drop_minor = true;
    c.drop_patch = true;
    c.revisions = true;
    assert_eq!(line(&result(1, 2, 3, 5, 10), &c), Ok(".5".to_string()));
}

#[test]
fn date_on_second_day_of_2000() {
    let mut c = OutputConfig::new();
    c.date = true;
    let r = DescribeResult {
        triple: SemVerTriple { major: 4, minor: 7, patch: 9 },
        revisions: 0,
        tag_creation_epoch_seconds: 946800000,
    };
    assert_eq!(line(&r, &c), Ok("4.1.0".to_string()));
    let t = SemVerTriple { major: 4, minor: 200, patch: 31 };
    assert_eq!(encode_components(&t, 1, &c), Ok(SemVerTriple { major: 4, minor: 1, patch: 0 }));
}

#[test]
fn date_split_of_300_days() {
    let mut c = OutputConfig::new();
    c.date_split = true;
    assert_eq!(line(&result(3, 9, 9, 0, 300), &c), Ok("3.1.44".to_string()));
    let t = SemVerTriple { major: 3, minor: 9, patch: 9 };
    assert_eq!(encode_components(&t, 300, &c), Ok(SemVerTriple { major: 3, minor: 1, patch: 44 }));
    assert_eq!(
        encode_components(&t, 65535, &c),
        Ok(SemVerTriple { major: 3, minor: 255, patch: 255 })
    );
}

#[test]
fn date_takes_precedence_over_date_split() {
    let mut c = OutputConfig::new();
    c.date = true;
    c.date_split = true;
    assert_eq!(line(&result(2, 5, 5, 0, 300), &c), Ok("2.300.0".to_string()));
}

#[test]
fn revisions_suffixes() {
    let d = interpret_describe("1.0.0-5-gabc1234").unwrap();
    assert_eq!(d.revisions, 5);
    assert_eq!(d.triple, SemVerTriple { major: 1, minor: 0, patch: 0 });
    let when = Some(Y2000 + 100 * DAY);
    let mut c = OutputConfig::new();
    c.revisions = true;
    assert_eq!(derive_version(&d, when, &c), Ok("1.0.0.5".to_string()));
    let mut c = OutputConfig::new();
    c.revisions_prerelease = true;
    assert_eq!(derive_version(&d, when, &c), Ok("1.0.0-5".to_string()));
    c.revisions = true;
    assert_eq!(derive_version(&d, when, &c), Ok("1.0.0.5".to_string()));
}

#[test]
fn enforce_u8_rejects_wide_minor() {
    let r = result(1, 300, 0, 0, 10);
    let c = OutputConfig::new();
    assert_eq!(line(&r, &c), Ok("1.300.0".to_string()));
    let mut c = OutputConfig::new();
    c.enforce_u8 = true;
    assert_eq!(
        line(&r, &c),
        Err(VersionError::ComponentOverflow8 { major: 1, minor: 300, patch: 0, revisions: 0 })
    );
}

#[test]
fn lightweight_tag_with_date_fails() {
    let d = Describe { triple: SemVerTriple { major: 1, minor: 2, patch: 3 }, revisions: 0 };
    let mut c = OutputConfig::new();
    c.date = true;
    assert_eq!(derive_version(&d, None, &c), Err(VersionError::MissingTaggerIdentity));
    assert_eq!(
        derive_version(&d, None, &OutputConfig::new()),
        Err(VersionError::MissingTaggerIdentity)
    );
}

#[test]
fn date_split_overflow_with_and_without_u8() {
    let r = result(1, 0, 0, 0, 65536);
    let mut c = OutputConfig::new();
    c.date_split = true;
    assert_eq!(line(&r, &c), Err(VersionError::DateOverflow { days: 65536 }));
    c.enforce_u8 = true;
    assert_eq!(line(&r, &c), Err(VersionError::DateOverflow { days: 65536 }));
    let r = result(1, 0, 0, 0, 70000);
    assert_eq!(line(&r, &c), Err(VersionError::DateOverflow { days: 70000 }));
}

#[test]
fn sixteen_bit_bounds() {
    let c = OutputConfig::new();
    assert_eq!(
        line(&result(65536, 0, 0, 0, 10), &c),
        Err(VersionError::ComponentOverflow16 { major: 65536, minor: 0, patch: 0, revisions: 0 })
    );
    assert_eq!(
        line(&result(0, 0, 65536, 0, 10), &c),
        Err(VersionError::ComponentOverflow16 { major: 0, minor: 0, patch: 65536, revisions: 0 })
    );
    let mut c = OutputConfig::new();
    c.date = true;
    assert_eq!(
        line(&result(1, 0, 0, 0, 65536), &c),
        Err(VersionError::ComponentOverflow16 { major: 1, minor: 65536, patch: 0, revisions: 0 })
    );
}

#[test]
fn revision_bounds_allow_the_limit_itself() {
    let mut c = OutputConfig::new();
    c.revisions = true;
    assert_eq!(line(&result(1, 2, 3, 65536, 10), &c), Ok("1.2.3.65536".to_string()));
    assert_eq!(
        line(&result(1, 2, 3, 65537, 10), &c),
        Err(VersionError::ComponentOverflow16 { major: 1, minor: 2, patch: 3, revisions: 65537 })
    );
    c.enforce_u8 = true;
    assert_eq!(line(&result(1, 2, 3, 256, 10), &c), Ok("1.2.3.256".to_string()));
    assert_eq!(
        line(&result(1, 2, 3, 257, 10), &c),
        Err(VersionError::ComponentOverflow8 { major: 1, minor: 2, patch: 3, revisions: 257 })
    );
    assert_eq!(
        line(&result(255, 255, 256, 0, 10), &c),
        Err(VersionError::ComponentOverflow8 { major: 255, minor: 255, patch: 256, revisions: 0 })
    );
}

#[test]
fn hidden_revisions_are_not_checked() {
    let c = OutputConfig::new();
    assert_eq!(check_widths(&SemVerTriple { major: 1, minor: 2, patch: 3 }, 1_000_000, &c), Ok(()));
    assert_eq!(line(&result(1, 2, 3, 1_000_000, 10), &c), Ok("1.2.3".to_string()));
}

#[test]
fn malformed_describe_text() {
    assert_eq!(interpret_describe("v1.2.3"), Err(VersionError::MalformedVersion));
    assert_eq!(interpret_describe("1.2"), Err(VersionError::MalformedVersion));
    assert_eq!(interpret_describe(""), Err(VersionError::MalformedVersion));
}

#[test]
fn unreadable_revision_piece_gives_zero() {
    let d = interpret_describe("1.2.3-rc1-4-gabc").unwrap();
    assert_eq!(d.revisions, 0);
    assert_eq!(d.triple, SemVerTriple { major: 1, minor: 2, patch: 3 });
    let d = interpret_describe("2.0.1-rc1").unwrap();
    assert_eq!(d.revisions, 0);
    assert_eq!(revisions_from("1.0.0-17-gdead", false), 0);
    assert_eq!(revisions_from("1.0.0-17-gdead", true), 17);
    assert_eq!(revisions_from("1.0.0", true), 0);
}

#[test]
fn second_piece_of_text() {
    assert_eq!(second_dash_piece(&chars("a-bc-d")), Some(chars("bc")));
    assert_eq!(second_dash_piece(&chars("a-bc")), Some(chars("bc")));
    assert_eq!(second_dash_piece(&chars("a--b")), Some(chars("")));
    assert_eq!(second_dash_piece(&chars("abc")), None);
}

#[test]
fn count_parsing() {
    assert_eq!(parse_count(&chars("0")), Some(0));
    assert_eq!(parse_count(&chars("+12")), Some(12));
    assert_eq!(parse_count(&chars("18446744073709551615")), Some(u64::MAX));
    assert_eq!(parse_count(&chars("18446744073709551616")), None);
    assert_eq!(parse_count(&chars("")), None);
    assert_eq!(parse_count(&chars("+")), None);
    assert_eq!(parse_count(&chars("-3")), None);
    assert_eq!(parse_count(&chars("4a")), None);
}

#[test]
fn decimal_text() {
    let mut s = String::from("v");
    push_decimal(&mut s, 0);
    push_decimal(&mut s, 1234567890);
    assert_eq!(s, "v01234567890");
    let mut s = String::new();
    push_decimal(&mut s, u64::MAX);
    assert_eq!(s, "18446744073709551615");
}

#[test]
fn reference_name_of_tag() {
    let t = SemVerTriple { major: 1, minor: 20, patch: 300 };
    assert_eq!(tag_reference_name(&t), "refs/tags/1.20.300");
}

#[test]
fn days_since_2000_truncates_toward_zero() {
    assert_eq!(days_since_epoch(Y2000), 0);
    assert_eq!(days_since_epoch(Y2000 + DAY - 1), 0);
    assert_eq!(days_since_epoch(Y2000 + DAY), 1);
    assert_eq!(days_since_epoch(946800000), 1);
    assert_eq!(days_since_epoch(Y2000 - 1), 0);
    assert_eq!(days_since_epoch(Y2000 - DAY - 1), -1);
    assert_eq!(days_since_epoch(i64::MAX), (i64::MAX - Y2000) / DAY);
    assert_eq!(days_since_epoch(i64::MIN), -((Y2000 as i128 - i64::MIN as i128) / 86400) as i64);
}

#[test]
fn render_directly() {
    let t = SemVerTriple { major: 7, minor: 0, patch: 12 };
    let mut c = OutputConfig::new();
    c.revisions_prerelease = true;
    assert_eq!(render(&t, 3, &c), "7.0.12-3");
    c.drop_major = true;
    assert_eq!(render(&t, 3, &c), "0.12-3");
}
