use hook_inject::{
    map_native_error, native_reply, runtime_unavailable, ErrorKind, Reply,
    NATIVE_ERROR_INVALID_ARGUMENT, NATIVE_ERROR_NOT_SUPPORTED, NATIVE_ERROR_PERMISSION_DENIED,
    NATIVE_ERROR_PROCESS_NOT_FOUND, NATIVE_ERROR_RUNTIME,
};

#[test]
fn native_error_codes_map_to_taxonomy() {
    let e = map_native_error(NATIVE_ERROR_INVALID_ARGUMENT, "bad".to_string(), None);
    assert_eq!(e.kind(), ErrorKind::InvalidInput);
    assert_eq!(e.to_string(), "bad");
    let e = map_native_error(NATIVE_ERROR_NOT_SUPPORTED, "no".to_string(), Some(3));
    assert!(e.is_not_supported());
    let e = map_native_error(NATIVE_ERROR_PERMISSION_DENIED, "denied".to_string(), None);
    assert!(e.is_permission_denied());
    let e = map_native_error(NATIVE_ERROR_RUNTIME, "boom".to_string(), None);
    assert!(e.is_runtime_error());
    let e = map_native_error(99, "odd".to_string(), None);
    assert!(e.is_runtime_error());
    assert_eq!(e.to_string(), "odd");
    let e = map_native_error(0, "none".to_string(), None);
    assert!(e.is_runtime_error());
}

#[test]
fn process_not_found_needs_a_pid() {
    let e = map_native_error(NATIVE_ERROR_PROCESS_NOT_FOUND, "gone".to_string(), Some(4321));
    assert!(e.is_process_not_found());
    assert_eq!(e.to_string(), "process not found: 4321");
    let e = map_native_error(NATIVE_ERROR_PROCESS_NOT_FOUND, "gone".to_string(), Some(-17));
    assert_eq!(e.to_string(), "process not found: -17");
    let e = map_native_error(NATIVE_ERROR_PROCESS_NOT_FOUND, "gone".to_string(), None);
    assert!(e.is_runtime_error());
    assert_eq!(e.to_string(), "gone");
}

#[test]
fn native_status_decides_success() {
    match native_reply(1, 10, 20, 0, None) {
        Reply::Success { pid, id } => assert_eq!((pid, id), (10, 20)),
        other => panic!("unexpected {other:?}"),
    }
    match native_reply(0, 10, 20, 3, Some("nope".to_string())) {
        Reply::Failure { kind, message } => assert_eq!((kind, message.as_str()), (3, "nope")),
        other => panic!("unexpected {other:?}"),
    }
    match native_reply(-1, 0, 0, 5, None) {
        Reply::Failure { kind, message } => assert_eq!((kind, message.as_str()), (5, "unknown error")),
        other => panic!("unexpected {other:?}"),
    }
}

#[test]
fn engine_initialisation_failure_is_runtime_unavailable() {
    let e = runtime_unavailable(Some("no engine".to_string()));
    assert!(e.is_runtime_unavailable());
    assert_eq!(e.to_string(), "no engine");
    let e = runtime_unavailable(None);
    assert_eq!(e.to_string(), "unknown error");
    let copy = e.clone();
    assert_eq!(copy.kind(), ErrorKind::RuntimeUnavailable);
    assert_eq!(copy.message(), "unknown error");
}
