use n2k_codegen::numbers::{is_unit_resolution, parse_u64, u64_to_string};

#[test]
fn parse_u64_reads_plain_numerals() {
    assert_eq!(parse_u64("0"), Some(0));
    assert_eq!(parse_u64("17"), Some(17));
    assert_eq!(parse_u64("60928"), Some(60928));
    assert_eq!(parse_u64("007"), Some(7));
}

#[test]
fn parse_u64_rejects_what_is_not_a_numeral() {
    assert_eq!(parse_u64(""), None);
    assert_eq!(parse_u64("1x"), None);
    assert_eq!(parse_u64("-1"), None);
    assert_eq!(parse_u64("1.0"), None);
}

#[test]
fn parse_u64_is_exact_at_the_machine_limit() {
    assert_eq!(parse_u64("18446744073709551615"), Some(u64::MAX));
    assert_eq!(parse_u64("18446744073709551616"), None);
}

#[test]
fn u64_to_string_formats_decimals() {
    assert_eq!(u64_to_string(0), "0");
    assert_eq!(u64_to_string(8), "8");
    assert_eq!(u64_to_string(60928), "60928");
    assert_eq!(u64_to_string(u64::MAX), "18446744073709551615");
}

#[test]
fn format_then_parse_round_trips() {
    for n in [0u64, 1, 9, 10, 255, 59904, u64::MAX] {
        assert_eq!(parse_u64(&u64_to_string(n)), Some(n));
    }
}

#[test]
fn unit_resolution_accepts_the_forms_of_one() {
    assert!(is_unit_resolution("1"));
    assert!(is_unit_resolution("1.0"));
    assert!(is_unit_resolution("1.000"));
    assert!(is_unit_resolution("01"));
    assert!(is_unit_resolution("1."));
}

#[test]
fn unit_resolution_rejects_everything_else() {
    assert!(!is_unit_resolution(""));
    assert!(!is_unit_resolution("0.1"));
    assert!(!is_unit_resolution("2"));
    assert!(!is_unit_resolution("1.01"));
    assert!(!is_unit_resolution("0"));
    assert!(!is_unit_resolution("x"));
    assert!(!is_unit_resolution("1.0.0"));
}
