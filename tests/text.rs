use tap_bpm::text::{bpm_text, parse_bpm};

#[test]
fn parses_plain_numbers() {
    assert_eq!(parse_bpm("128"), Some(128));
    assert_eq!(parse_bpm("0"), Some(0));
    assert_eq!(parse_bpm("007"), Some(7));
    assert_eq!(parse_bpm("+90"), Some(90));
    assert_eq!(parse_bpm("4294967295"), Some(u32::MAX));
}

#[test]
fn refuses_what_is_not_a_number() {
    assert_eq!(parse_bpm(""), None);
    assert_eq!(parse_bpm("+"), None);
    assert_eq!(parse_bpm("-1"), None);
    assert_eq!(parse_bpm("12a"), None);
    assert_eq!(parse_bpm("128.5"), None);
    assert_eq!(parse_bpm(" 128"), None);
    assert_eq!(parse_bpm("4294967296"), None);
    assert_eq!(parse_bpm("99999999999999999999"), None);
}

#[test]
fn writes_decimal_text() {
    assert_eq!(bpm_text(128), "128");
    assert_eq!(bpm_text(0), "0");
    assert_eq!(bpm_text(10), "10");
    assert_eq!(bpm_text(u32::MAX), "4294967295");
}

#[test]
fn written_text_reads_back() {
    for bpm in [0u32, 1, 9, 10, 99, 128, 1000, 65535, u32::MAX] {
        assert_eq!(parse_bpm(&bpm_text(bpm)), Some(bpm));
    }
}
