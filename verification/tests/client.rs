use greptime_ingester::client::{check_insert_pointers, ClientOptions};
use greptime_ingester::error::{status_of, RustError, StatusCode};

#[test]
fn options_resolve_to_settings() {
    let opts = ClientOptions {
        endpoint: Some(b"127.0.0.1:4001".to_vec()),
        db_name: Some(b"public".to_vec()),
        secure: true,
    };
    let s = opts.resolve().unwrap();
    assert_eq!(s.endpoint, "127.0.0.1:4001");
    assert_eq!(s.db_name, "public");
    assert!(s.secure);
}

#[test]
fn endpoint_error_comes_first() {
    let opts = ClientOptions {
        endpoint: None,
        db_name: Some(vec![0xff]),
        secure: false,
    };
    match opts.resolve() {
        Err(RustError::NullPointer { detail }) => assert_eq!(detail, "c_str"),
        _ => panic!("expected the endpoint's error"),
    }
}

#[test]
fn db_name_error_is_reported() {
    let opts = ClientOptions {
        endpoint: Some(b"localhost:4001".to_vec()),
        db_name: Some(vec![0xff]),
        secure: false,
    };
    match opts.resolve() {
        Err(RustError::ConvertUtf8 { detail, .. }) => assert_eq!(detail, "c_str"),
        _ => panic!("expected the database name's error"),
    }
}

#[test]
fn status_reports_outcome() {
    let ok: Result<(), RustError> = Ok(());
    let err: Result<(), RustError> = Err(RustError::Client);
    assert_eq!(status_of(&ok), StatusCode::Success);
    assert_eq!(status_of(&err), StatusCode::Error);
    assert_eq!(StatusCode::Success.code(), 0);
    assert_eq!(StatusCode::Error.code(), 1);
}

#[test]
fn error_messages() {
    let e = RustError::NullPointer { detail: "c_str".to_string() };
    assert_eq!(e.message(), "Raw Pointer is null, detail: c_str");
    let e = RustError::ConvertUtf8 {
        detail: "c_str".to_string(),
        valid_up_to: 0,
        error_len: Some(1),
    };
    assert_eq!(e.message(), "Failed to convert UTF-8, detail: c_str");
    assert_eq!(RustError::Client.message(), "Client error");
    assert_eq!(RustError::TaskJoin.message(), "Join task");
}

#[test]
fn insert_pointer_checks_in_order() {
    assert!(check_insert_pointers(true, true).is_ok());
    match check_insert_pointers(false, false) {
        Err(RustError::NullPointer { detail }) => assert_eq!(detail, "row_batch_ptr"),
        _ => panic!("expected the batch pointer's error"),
    }
    match check_insert_pointers(true, false) {
        Err(RustError::NullPointer { detail }) => assert_eq!(detail, "client_ptr"),
        _ => panic!("expected the client pointer's error"),
    }
}
