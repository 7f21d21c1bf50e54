use hook_inject::{ErrorKind, ProbeOutcome, Process};

#[test]
fn from_pid_rejects_nonpositive() {
    let err = Process::from_pid(0).unwrap_err();
    assert!(err.to_string().contains("pid must be > 0"));
}

#[test]
fn from_pid_rejects_negative_pids() {
    for pid in [-1, -42, i32::MIN] {
        let err = Process::from_pid(pid).unwrap_err();
        assert_eq!(err.kind(), ErrorKind::InvalidInput);
        assert!(err.is_invalid_input());
    }
}

#[test]
fn probe_of_existing_process_gives_handle() {
    let probe = Process::from_pid(1234).expect("positive pid");
    assert_eq!(probe.pid(), 1234);
    let process = probe.conclude(ProbeOutcome::Exists).expect("exists");
    assert_eq!(process.pid(), 1234);
}

#[test]
fn probe_of_missing_process_is_not_found() {
    let probe = Process::from_pid(42).expect("positive pid");
    let err = probe.conclude(ProbeOutcome::Missing).unwrap_err();
    assert!(err.is_process_not_found());
    assert_eq!(err.to_string(), "process not found: 42");
}

#[test]
fn denied_probe_is_permission_denied_not_missing() {
    let probe = Process::from_pid(1).expect("positive pid");
    let err = probe.conclude(ProbeOutcome::Denied).unwrap_err();
    assert!(err.is_permission_denied());
    assert!(!err.is_process_not_found());
}

#[test]
fn failed_probe_is_io_error() {
    let probe = Process::from_pid(7).expect("positive pid");
    let err = probe.conclude(ProbeOutcome::Failed("probe broke".to_string())).unwrap_err();
    assert_eq!(err.kind(), ErrorKind::Io);
    assert_eq!(err.message(), "probe broke");
}

#[test]
fn unchecked_constructor_keeps_pid() {
    let process = Process::from_pid_unchecked(-3);
    assert_eq!(process.pid(), -3);
}
