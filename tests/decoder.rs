use daikin_exporter::decode::{decode, hex_encode, percent_decode, DecodeError};
use daikin_exporter::info::{parse_pairs, ProtocolError};
use daikin_exporter::number::parse_i64;

#[test]
fn percent_decode_gives_device_name() {
    assert_eq!(percent_decode("%44%65%76").unwrap(), "Dev");
}

#[test]
fn percent_decode_drops_text_before_first_percent() {
    assert_eq!(percent_decode("xx%41%42").unwrap(), "AB");
    assert_eq!(percent_decode("").unwrap(), "");
    assert_eq!(percent_decode("abc").unwrap(), "");
}

#[test]
fn percent_decode_lower_case_digits() {
    assert_eq!(percent_decode("%6c%69").unwrap(), "li");
}

#[test]
fn percent_decode_multibyte_utf8() {
    assert_eq!(percent_decode("%C3%A9").unwrap(), "\u{e9}");
}

#[test]
fn percent_decode_rejects_bad_pieces() {
    assert_eq!(percent_decode("%4").unwrap_err(), DecodeError::InvalidHex);
    assert_eq!(percent_decode("%414").unwrap_err(), DecodeError::InvalidHex);
    assert_eq!(percent_decode("%G1").unwrap_err(), DecodeError::InvalidHex);
    assert_eq!(percent_decode("%41%").unwrap_err(), DecodeError::InvalidHex);
}

#[test]
fn percent_decode_rejects_invalid_utf8() {
    assert_eq!(percent_decode("%FF").unwrap_err(), DecodeError::InvalidUtf8);
}

#[test]
fn hex_decode_gives_text() {
    assert_eq!(decode("4142").unwrap(), "AB");
    assert_eq!(decode("").unwrap(), "");
    assert_eq!(decode("3235").unwrap(), "25");
}

#[test]
fn hex_decode_rejects_odd_length() {
    assert_eq!(decode("414").unwrap_err(), DecodeError::InvalidHex);
}

#[test]
fn hex_decode_rejects_non_digits() {
    assert_eq!(decode("4Z").unwrap_err(), DecodeError::InvalidHex);
    assert_eq!(decode("+A").unwrap_err(), DecodeError::InvalidHex);
}

#[test]
fn hex_decode_rejects_invalid_utf8() {
    assert_eq!(decode("C328").unwrap_err(), DecodeError::InvalidUtf8);
}

#[test]
fn hex_encode_writes_upper_case_pairs() {
    assert_eq!(hex_encode("AB"), "4142");
    assert_eq!(hex_encode(""), "");
    assert_eq!(hex_encode("\u{e9}"), "C3A9");
    assert_eq!(hex_encode("\n"), "0A");
}

#[test]
fn hex_round_trip_on_digits() {
    for s in ["4142", "", "3235", "C3A9", "7A7B7C"] {
        let text = decode(s).unwrap();
        assert_eq!(hex_encode(&text), s);
    }
}

#[test]
fn parse_pairs_reads_entries() {
    let info = parse_pairs("stemp=25,shum=50,mode=3,f_rate=A,f_dir=1").unwrap();
    assert_eq!(info.get("stemp").unwrap(), "25");
    assert_eq!(info.get("shum").unwrap(), "50");
    assert_eq!(info.get("mode").unwrap(), "3");
    assert_eq!(info.get("f_rate").unwrap(), "A");
    assert_eq!(info.get("f_dir").unwrap(), "1");
    assert!(info.get("htemp").is_none());
}

#[test]
fn parse_pairs_cuts_at_first_equals() {
    let info = parse_pairs("a=b=c,d=").unwrap();
    assert_eq!(info.get("a").unwrap(), "b=c");
    assert_eq!(info.get("d").unwrap(), "");
}

#[test]
fn parse_pairs_later_entry_wins() {
    let info = parse_pairs("k=1,k=2").unwrap();
    assert_eq!(info.get("k").unwrap(), "2");
}

#[test]
fn parse_pairs_rejects_entry_without_equals() {
    assert_eq!(parse_pairs("a=1,b").err(), Some(ProtocolError::MissingEquals));
    assert_eq!(parse_pairs("").err(), Some(ProtocolError::MissingEquals));
    assert_eq!(parse_pairs("a=1,").err(), Some(ProtocolError::MissingEquals));
}

#[test]
fn parse_i64_reads_integers() {
    assert_eq!(parse_i64("25"), Some(25));
    assert_eq!(parse_i64("-5"), Some(-5));
    assert_eq!(parse_i64("+7"), Some(7));
    assert_eq!(parse_i64("007"), Some(7));
    assert_eq!(parse_i64("9223372036854775807"), Some(i64::MAX));
    assert_eq!(parse_i64("-9223372036854775808"), Some(i64::MIN));
}

#[test]
fn parse_i64_rejects_non_integers() {
    assert_eq!(parse_i64(""), None);
    assert_eq!(parse_i64("-"), None);
    assert_eq!(parse_i64("+"), None);
    assert_eq!(parse_i64("2.5"), None);
    assert_eq!(parse_i64("--"), None);
    assert_eq!(parse_i64("9223372036854775808"), None);
    assert_eq!(parse_i64("-9223372036854775809"), None);
    assert_eq!(parse_i64("99999999999999999999999"), None);
}

#[test]
fn parse_i64_agrees_with_std() {
    for s in ["0", "-0", "+0", "12", "-12", "x", "1x", " 1", "18446744073709551616"] {
        assert_eq!(parse_i64(s), s.parse::<i64>().ok());
    }
}
