use koutendb::error::{check_abi_version, check_c_string, classify_abi_error, missing_as_none, Error, ErrorKind, KOUTEN_ABI_VERSION};

#[test]
fn error_getters_return_what_was_set() {
    let e = Error::new(ErrorKind::Utf8, "bad text".to_string());
    assert_eq!(e.kind(), ErrorKind::Utf8);
    assert_eq!(e.message(), "bad text");
    assert_eq!(e.to_string(), "bad text");
}

#[test]
fn classify_ignores_ascii_case() {
    assert_eq!(classify_abi_error("Key Not Found: 1:2:3"), ErrorKind::NotFound);
    assert_eq!(classify_abi_error("record not found"), ErrorKind::NotFound);
    assert_eq!(classify_abi_error("NOT FOUND"), ErrorKind::NotFound);
    assert_eq!(classify_abi_error("notfound"), ErrorKind::Abi);
    assert_eq!(classify_abi_error("disk full"), ErrorKind::Abi);
    assert_eq!(classify_abi_error(""), ErrorKind::Abi);
}

#[test]
fn last_error_without_text_is_a_generic_abi_error() {
    let e = Error::from_last_message(None);
    assert_eq!(e.kind(), ErrorKind::Abi);
    assert_eq!(e.message(), "KoutenDB C ABI error");
    let e = Error::from_last_message(Some(""));
    assert_eq!(e.kind(), ErrorKind::Abi);
    assert_eq!(e.message(), "KoutenDB C ABI error");
    let e = Error::from_last_message(Some("Key not found"));
    assert_eq!(e.kind(), ErrorKind::NotFound);
    assert_eq!(e.message(), "Key not found");
    let e = Error::from_last_message(Some("ring busy"));
    assert_eq!(e.kind(), ErrorKind::Abi);
    assert_eq!(e.message(), "ring busy");
}

#[test]
fn missing_keys_read_as_no_value() {
    let r: Result<Option<u8>, Error> = missing_as_none(Error::new(ErrorKind::NotFound, "key not found".to_string()));
    assert_eq!(r, Ok(None));
    let r: Result<Option<u8>, Error> = missing_as_none(Error::new(ErrorKind::Abi, "id not found".to_string()));
    assert_eq!(r, Ok(None));
    let err = Error::new(ErrorKind::NotFound, "Not Found".to_string());
    let r: Result<Option<u8>, Error> = missing_as_none(err.clone());
    assert_eq!(r, Err(err));
    assert!(Error::new(ErrorKind::Abi, "x not found y".to_string()).reports_missing());
    assert!(!Error::new(ErrorKind::Abi, "timeout".to_string()).reports_missing());
}

#[test]
fn abi_version_must_match() {
    assert_eq!(KOUTEN_ABI_VERSION, 2);
    assert!(check_abi_version(2).is_ok());
    let e = check_abi_version(3).unwrap_err();
    assert_eq!(e.kind(), ErrorKind::AbiVersionMismatch);
    assert_eq!(e.message(), "KoutenDB ABI version mismatch: expected 2, got 3");
    let e = check_abi_version(-2147483648).unwrap_err();
    assert_eq!(e.message(), "KoutenDB ABI version mismatch: expected 2, got -2147483648");
}

#[test]
fn c_strings_refuse_nul_bytes() {
    assert!(check_c_string("docs/rust").is_ok());
    assert!(check_c_string("").is_ok());
    let e = check_c_string("bad\0ring").unwrap_err();
    assert_eq!(e.kind(), ErrorKind::NulByte);
    assert!(e.to_string().contains("nul byte"));
    assert_eq!(e.message(), "nul byte found in provided data at position: 3");
    let e = check_c_string("é\0\0").unwrap_err();
    assert_eq!(e.message(), "nul byte found in provided data at position: 2");
}

#[test]
fn errors_include_c_abi_message() {
    // `put` hands the ring name to C only once the library accepts it.
    let err = check_c_string("bad\0ring").unwrap_err();
    assert_eq!(err.kind(), ErrorKind::NulByte);
    assert!(err.to_string().contains("nul byte"));
}
