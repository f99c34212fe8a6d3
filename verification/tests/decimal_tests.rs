use fm_synth::decimal::{parse_i32, parse_u64};

fn std_u64(s: &str) -> Option<u64> {
    s.parse::<u64>().ok()
}

fn std_i32(s: &str) -> Option<i32> {
    s.parse::<i32>().ok()
}

const SAMPLES: [&str; 40] = [
    "",
    "0",
    "7",
    "42",
    "007",
    "+",
    "-",
    "+0",
    "-0",
    "+5",
    "-5",
    "++5",
    "--5",
    "+-5",
    "-+5",
    "5+",
    "5-",
    " 5",
    "5 ",
    "1_000",
    "0x10",
    "12a",
    "a12",
    "1.5",
    "2147483647",
    "2147483648",
    "-2147483648",
    "-2147483649",
    "+2147483647",
    "4294967296",
    "18446744073709551615",
    "18446744073709551616",
    "+18446744073709551615",
    "99999999999999999999999999",
    "000000000000000000000000000000000000001",
    "-000000000000000000000000000002147483648",
    "\u{663}",
    "1\n",
    "\t1",
    "/:",
];

#[test]
fn unsigned_literals_in_range() {
    assert_eq!(parse_u64(b"0"), Some(0));
    assert_eq!(parse_u64(b"100"), Some(100));
    assert_eq!(parse_u64(b"+100"), Some(100));
    assert_eq!(parse_u64(b"000100"), Some(100));
    assert_eq!(parse_u64(b"18446744073709551615"), Some(u64::MAX));
}

#[test]
fn unsigned_literals_rejected() {
    assert_eq!(parse_u64(b""), None);
    assert_eq!(parse_u64(b"+"), None);
    assert_eq!(parse_u64(b"-0"), None);
    assert_eq!(parse_u64(b"-1"), None);
    assert_eq!(parse_u64(b"1 "), None);
    assert_eq!(parse_u64(b"12x"), None);
    assert_eq!(parse_u64(b"18446744073709551616"), None);
    assert_eq!(parse_u64(b"184467440737095516150"), None);
}

#[test]
fn signed_literals_in_range() {
    assert_eq!(parse_i32(b"0"), Some(0));
    assert_eq!(parse_i32(b"-0"), Some(0));
    assert_eq!(parse_i32(b"3"), Some(3));
    assert_eq!(parse_i32(b"+3"), Some(3));
    assert_eq!(parse_i32(b"-3"), Some(-3));
    assert_eq!(parse_i32(b"2147483647"), Some(i32::MAX));
    assert_eq!(parse_i32(b"-2147483648"), Some(i32::MIN));
}

#[test]
fn signed_literals_rejected() {
    assert_eq!(parse_i32(b""), None);
    assert_eq!(parse_i32(b"-"), None);
    assert_eq!(parse_i32(b"+"), None);
    assert_eq!(parse_i32(b"--1"), None);
    assert_eq!(parse_i32(b"+-1"), None);
    assert_eq!(parse_i32(b"2147483648"), None);
    assert_eq!(parse_i32(b"-2147483649"), None);
    assert_eq!(parse_i32(b"1e3"), None);
}

#[test]
fn unsigned_agrees_with_the_standard_parser() {
    for s in SAMPLES {
        assert_eq!(parse_u64(s.as_bytes()), std_u64(s), "{:?}", s);
    }
}

#[test]
fn signed_agrees_with_the_standard_parser() {
    for s in SAMPLES {
        assert_eq!(parse_i32(s.as_bytes()), std_i32(s), "{:?}", s);
    }
}

#[test]
fn every_small_number_round_trips() {
    for n in 0..3000u64 {
        assert_eq!(parse_u64(format!("{}", n).as_bytes()), Some(n));
    }
    for n in -1500..1500i32 {
        assert_eq!(parse_i32(format!("{}", n).as_bytes()), Some(n));
    }
}
