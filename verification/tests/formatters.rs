use efw2::num::format_number_field;
use efw2::text::format_text_field;
use efw2::error::Efw2Error;

#[test]
fn text_pads_right() {
    let v = format_text_field("ABC", 5).unwrap();
    assert_eq!(v.as_slice(), b"ABC  ".as_slice());
}

#[test]
fn text_transliterates_and_uppercases() {
    let v = format_text_field("Caf\u{e9}", 5).unwrap();
    assert_eq!(v.as_slice(), b"CAFE ".as_slice());
    let w = format_text_field("\u{c6}neid", 7).unwrap();
    assert_eq!(w.as_slice(), b"AENEID ".as_slice());
}

#[test]
fn text_uppercase_ascii_is_identity() {
    let v = format_text_field("W2 CO", 6).unwrap();
    assert_eq!(v.as_slice(), b"W2 CO ".as_slice());
    let exact = format_text_field("XYZ", 3).unwrap();
    assert_eq!(exact.as_slice(), b"XYZ".as_slice());
}

#[test]
fn text_empty_value_is_blank() {
    let v = format_text_field("", 4).unwrap();
    assert_eq!(v.as_slice(), b"    ".as_slice());
}

#[test]
fn text_too_long_fails() {
    match format_text_field("TOOLONG", 3) {
        Err(Efw2Error::FieldTooLongError { value, width }) => {
            assert_eq!(value, "TOOLONG");
            assert_eq!(width, 3);
        },
        other => panic!("expected FieldTooLongError, got {:?}", other),
    }
}

#[test]
fn text_too_long_after_expansion_fails() {
    // One character that transliterates to two: it is the normalized
    // length that must fit, not the input length.
    match format_text_field("\u{c6}", 1) {
        Err(Efw2Error::FieldTooLongError { value, width }) => {
            assert_eq!(value, "\u{c6}");
            assert_eq!(width, 1);
        },
        other => panic!("expected FieldTooLongError, got {:?}", other),
    }
}

#[test]
fn number_zero_padded() {
    let v = format_number_field(123456, 11).unwrap();
    assert_eq!(v.as_slice(), b"00000123456".as_slice());
}

#[test]
fn number_zero() {
    let v = format_number_field(0, 7).unwrap();
    assert_eq!(v.as_slice(), b"0000000".as_slice());
}

#[test]
fn number_exact_width() {
    let v = format_number_field(99999999999, 11).unwrap();
    assert_eq!(v.as_slice(), b"99999999999".as_slice());
}

#[test]
fn number_too_wide_fails() {
    match format_number_field(100000000000, 11) {
        Err(Efw2Error::FieldTooLongError { value, width }) => {
            assert_eq!(value, "100000000000");
            assert_eq!(width, 11);
        },
        other => panic!("expected FieldTooLongError, got {:?}", other),
    }
}
