//! Tests for decimal parsing and rendering, the calendar placeholder,
//! and the URL normalisation law on a concrete path.

use you_core::name;
use you_core::num::{fmt_milli, fmt_u32, fmt_u64, parse_u32, parse_u64};
use you_core::{TrackerClient, TrackerConfig};

#[test]
fn returns_crate_name() {
    assert_eq!(name(), "calendar_lib");
}

#[test]
fn parse_u32_accepts_plain_numerals() {
    assert_eq!(parse_u32("0"), Some(0));
    assert_eq!(parse_u32("100"), Some(100));
    assert_eq!(parse_u32("4294967295"), Some(u32::MAX));
}

#[test]
fn parse_u32_accepts_a_leading_plus() {
    assert_eq!(parse_u32("+100"), Some(100));
    assert_eq!(parse_u32("+"), None);
    assert_eq!(parse_u32("++1"), None);
    assert_eq!(parse_u64("+60"), Some(60));
}

#[test]
fn parse_u32_rejects_everything_else() {
    assert_eq!(parse_u32(""), None);
    assert_eq!(parse_u32("abc"), None);
    assert_eq!(parse_u32("12a"), None);
    assert_eq!(parse_u32("-1"), None);
    assert_eq!(parse_u32(" 7"), None);
    assert_eq!(parse_u32("4294967296"), None);
}

#[test]
fn parse_u64_handles_large_values() {
    assert_eq!(parse_u64("18446744073709551615"), Some(u64::MAX));
    assert_eq!(parse_u64("18446744073709551616"), None);
}

#[test]
fn numbers_render_in_decimal() {
    assert_eq!(fmt_u32(0), "0");
    assert_eq!(fmt_u32(105), "105");
    assert_eq!(fmt_u64(u64::MAX), "18446744073709551615");
}

#[test]
fn thousandths_render_with_trimmed_fraction() {
    assert_eq!(fmt_milli(700), "0.7");
    assert_eq!(fmt_milli(1000), "1");
    assert_eq!(fmt_milli(1250), "1.25");
    assert_eq!(fmt_milli(5), "0.005");
    assert_eq!(fmt_milli(0), "0");
    assert_eq!(fmt_milli(-500), "-0.5");
    assert_eq!(fmt_milli(-2000), "-2");
}

#[test]
fn url_building_ignores_extra_leading_slashes() {
    let client = TrackerClient::new(TrackerConfig::new("t".to_string()));
    assert_eq!(client.build_url("//a/b"), client.build_url("a/b"));
    assert_eq!(client.build_url(""), "https://st-api.yandex-team.ru/v3/");
}
