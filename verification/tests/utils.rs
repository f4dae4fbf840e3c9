use greptime_ingester::error::RustError;
use greptime_ingester::utils::{convert_c_string, convert_c_string_with_default, ensure_not_null};

#[test]
fn test_convert_c_string() {
    let c_string: &[u8] = b"hello";

    let result = convert_c_string(Some(c_string));

    assert!(result.is_ok());
    assert_eq!(result.unwrap(), "hello");
}

#[test]
fn test_convert_c_string_null_pointer() {
    let result = convert_c_string(None);

    assert!(result.is_err());
}

#[test]
fn test_convert_c_string_invalid_utf8() {
    // An invalid UTF-8 C string
    let bytes = vec![0xff, 0xff, 0xff];

    let result = convert_c_string(Some(&bytes));

    assert!(result.is_err());
}

#[test]
fn null_pointer_error_names_c_str() {
    match convert_c_string(None) {
        Err(RustError::NullPointer { detail }) => assert_eq!(detail, "c_str"),
        other => panic!("unexpected {:?}", other),
    }
}

#[test]
fn invalid_utf8_error_names_c_str() {
    match convert_c_string(Some(&[0x66, 0x6f, 0x80])) {
        Err(RustError::ConvertUtf8 { detail, .. }) => assert_eq!(detail, "c_str"),
        other => panic!("unexpected {:?}", other),
    }
}

#[test]
fn multibyte_utf8_is_decoded() {
    let bytes = "héllo wörld ✓ 🦀".as_bytes();
    assert_eq!(convert_c_string(Some(bytes)).unwrap(), "héllo wörld ✓ 🦀");
}

#[test]
fn empty_c_string_is_empty_string() {
    assert_eq!(convert_c_string(Some(&[])).unwrap(), "");
}

#[test]
fn overlong_and_surrogate_encodings_are_rejected() {
    // overlong encoding of '/'
    assert!(convert_c_string(Some(&[0xc0, 0xaf])).is_err());
    // encoded surrogate U+D800
    assert!(convert_c_string(Some(&[0xed, 0xa0, 0x80])).is_err());
    // beyond U+10FFFF
    assert!(convert_c_string(Some(&[0xf4, 0x90, 0x80, 0x80])).is_err());
    // truncated sequence
    assert!(convert_c_string(Some(&[0xe2, 0x9c])).is_err());
}

#[test]
fn default_replaces_only_null() {
    assert_eq!(
        convert_c_string_with_default(None, "public".to_string()).unwrap(),
        "public"
    );
    assert_eq!(
        convert_c_string_with_default(Some(b"mydb"), "public".to_string()).unwrap(),
        "mydb"
    );
    match convert_c_string_with_default(Some(&[0xff]), "public".to_string()) {
        Err(RustError::ConvertUtf8 { detail, .. }) => assert_eq!(detail, "c_str"),
        other => panic!("unexpected {:?}", other),
    }
}

#[test]
fn ensure_not_null_reports_the_pointer() {
    assert!(ensure_not_null(true, "row_batch_ptr").is_ok());
    match ensure_not_null(false, "row_batch_ptr") {
        Err(RustError::NullPointer { detail }) => assert_eq!(detail, "row_batch_ptr"),
        other => panic!("unexpected {:?}", other),
    }
}

fn utf8_cause(bytes: &[u8]) -> (usize, Option<usize>) {
    match convert_c_string(Some(bytes)) {
        Err(RustError::ConvertUtf8 { valid_up_to, error_len, .. }) => (valid_up_to, error_len),
        other => panic!("unexpected {:?}", other),
    }
}

#[test]
fn utf8_error_reports_where_and_how() {
    assert_eq!(utf8_cause(&[0xff, 0xff, 0xff]), (0, Some(1)));
    assert_eq!(utf8_cause(&[0x66, 0x6f, 0x80]), (2, Some(1)));
    assert_eq!(utf8_cause(&[0x61, 0xe2, 0x9c]), (1, None));
    assert_eq!(utf8_cause(&[0x61, 0x62, 0xed, 0xa0, 0x80]), (2, Some(1)));
    let std_err = std::str::from_utf8(&[0x61, 0xe2, 0x9c, 0x61]).unwrap_err();
    assert_eq!(
        utf8_cause(&[0x61, 0xe2, 0x9c, 0x61]),
        (std_err.valid_up_to(), std_err.error_len())
    );
}
