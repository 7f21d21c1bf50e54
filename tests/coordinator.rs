use hook_inject::{
    inject_process, inject_program, launch_inject, spawn, uninject, EngineCall, ErrorKind, Library,
    Outcome, Phase, Process, Program, Reply, Stdio, Step, SuspendedProgram,
};

fn ok(pid: i32, id: u32) -> Reply {
    Reply::Success { pid, id }
}

fn fail(kind: i32, message: &str) -> Reply {
    Reply::Failure { kind, message: message.to_string() }
}

/// Feeds the replies in turn and records the calls that were made.
fn drive(mut step: Step, replies: Vec<Reply>) -> (Vec<EngineCall>, Step) {
    let mut calls = Vec::new();
    for reply in replies {
        match step {
            Step::Call(call, phase) => {
                calls.push(call);
                step = phase.advance(reply);
            }
            Step::Done(_) => break,
        }
    }
    (calls, step)
}

fn suspended(pid: i32, stdio: Stdio) -> SuspendedProgram {
    let program = Program::new("/bin/target").stdio(stdio);
    match drive(spawn(&program), vec![ok(pid, 0)]) {
        (_, Step::Done(Ok(Outcome::Suspended(s)))) => s,
        other => panic!("unexpected {other:?}"),
    }
}

#[test]
fn spawn_asks_for_suspended_spawn() {
    let mut program = Program::new("/bin/target");
    program.arg("1");
    match spawn(&program) {
        Step::Call(EngineCall::Spawn { launch }, Phase::Spawning { stdio, then_inject: None }) => {
            assert_eq!(launch.argv, vec!["/bin/target", "1"]);
            assert_eq!(stdio, Stdio::Inherit);
        }
        other => panic!("unexpected {other:?}"),
    }
    let s = suspended(77, Stdio::Null);
    assert_eq!(s.process().pid(), 77);
}

#[test]
fn spawn_with_nul_fails_without_a_call() {
    match spawn(&Program::new("\0")) {
        Step::Done(Err(e)) => assert_eq!(e.kind(), ErrorKind::InvalidInput),
        other => panic!("unexpected {other:?}"),
    }
}

#[test]
fn blob_on_launch_path_fails_without_a_call() {
    let lib = Library::from_bytes(vec![1, 2, 3]).unwrap();
    match launch_inject(&Program::new("/bin/target"), lib) {
        Step::Done(Err(e)) => {
            assert_eq!(e.kind(), ErrorKind::InvalidInput);
            assert_eq!(e.to_string(), "library must be a file path for launch");
        }
        other => panic!("unexpected {other:?}"),
    }
}

#[test]
fn file_library_launches_in_one_call() {
    let lib = Library::from_path("/lib/agent.so".to_string(), true).unwrap().with_data("d").unwrap();
    let program = Program::new("/bin/target").stdio(Stdio::Null);
    let (calls, end) = drive(inject_program(&program, lib), vec![ok(55, 9)]);
    assert_eq!(calls.len(), 1);
    match &calls[0] {
        EngineCall::InjectLaunch { launch, library_path, entrypoint, data } => {
            assert_eq!(launch.stdio, 1);
            assert_eq!(library_path, "/lib/agent.so");
            assert_eq!(entrypoint, "frida_agent_main");
            assert_eq!(data, "d");
        }
        other => panic!("unexpected {other:?}"),
    }
    match end {
        Step::Done(Ok(Outcome::InjectedProgram(p))) => {
            assert_eq!(p.process().pid(), 55);
            assert_eq!(p.child().pid(), 55);
            assert_eq!(p.child().stdio(), Stdio::Null);
            match p.uninject() {
                Step::Call(EngineCall::Demonitor { id }, Phase::Uninjecting) => assert_eq!(id, 9),
                other => panic!("unexpected {other:?}"),
            }
        }
        other => panic!("unexpected {other:?}"),
    }
}

#[test]
fn blob_launch_spawns_injects_then_resumes() {
    let lib = Library::from_bytes(vec![7, 7]).unwrap();
    let (calls, end) =
        drive(inject_program(&Program::new("/bin/target"), lib), vec![ok(31, 0), ok(0, 4), ok(0, 0)]);
    assert_eq!(calls.len(), 3);
    assert!(matches!(calls[0], EngineCall::Spawn { .. }));
    match &calls[1] {
        EngineCall::InjectBlob { pid, blob, .. } => {
            assert_eq!(*pid, 31);
            assert_eq!(blob, &vec![7, 7]);
        }
        other => panic!("unexpected {other:?}"),
    }
    assert!(matches!(calls[2], EngineCall::Resume { pid: 31 }));
    assert!(matches!(end, Step::Done(Ok(Outcome::InjectedProgram(_)))));
}

#[test]
fn inject_process_by_path_and_by_blob() {
    let process = Process::from_pid_unchecked(1234);
    let lib = Library::from_path("/lib/a.so".to_string(), true).unwrap();
    let (calls, end) = drive(inject_process(process, lib), vec![ok(0, 12)]);
    assert!(matches!(calls[0], EngineCall::InjectPath { pid: 1234, .. }));
    match end {
        Step::Done(Ok(Outcome::InjectedProcess(i))) => assert_eq!(i.process().pid(), 1234),
        other => panic!("unexpected {other:?}"),
    }
    let lib = Library::from_bytes(vec![1]).unwrap();
    let (calls, end) = drive(lib.inject_into_process(process), vec![fail(3, "denied")]);
    assert!(matches!(calls[0], EngineCall::InjectBlob { pid: 1234, .. }));
    match end {
        Step::Done(Err(e)) => assert!(e.is_permission_denied()),
        other => panic!("unexpected {other:?}"),
    }
}

#[test]
fn uninject_zero_makes_no_call() {
    assert!(matches!(uninject(0), Step::Done(Ok(Outcome::Uninjected))));
    let (calls, end) = drive(uninject(8), vec![ok(0, 0)]);
    assert!(matches!(calls[..], [EngineCall::Demonitor { id: 8 }]));
    assert!(matches!(end, Step::Done(Ok(Outcome::Uninjected))));
}

#[test]
fn failed_resume_after_inject_is_cleaned_up_once() {
    let s = suspended(88, Stdio::Inherit);
    let lib = Library::from_bytes(vec![5]).unwrap();
    let (calls, end) = drive(
        s.inject(lib),
        vec![ok(0, 6), fail(4, "resume failed"), fail(5, "cleanup failed"), ok(0, 0)],
    );
    assert_eq!(calls.len(), 3);
    assert!(matches!(calls[0], EngineCall::InjectBlob { pid: 88, .. }));
    assert!(matches!(calls[1], EngineCall::Resume { pid: 88 }));
    assert!(matches!(calls[2], EngineCall::Demonitor { id: 6 }));
    let demonitors = calls.iter().filter(|c| matches!(c, EngineCall::Demonitor { .. })).count();
    assert_eq!(demonitors, 1);
    match end {
        Step::Done(Err(e)) => {
            assert!(e.is_process_not_found());
            assert_eq!(e.to_string(), "process not found: 88");
        }
        other => panic!("unexpected {other:?}"),
    }
}

#[test]
fn failed_resume_with_zero_id_needs_no_cleanup_call() {
    let s = suspended(89, Stdio::Inherit);
    let lib = Library::from_bytes(vec![5]).unwrap();
    let (calls, end) = drive(s.inject(lib), vec![ok(0, 0), fail(2, "unsupported"), ok(0, 0)]);
    assert_eq!(calls.len(), 2);
    match end {
        Step::Done(Err(e)) => assert!(e.is_not_supported()),
        other => panic!("unexpected {other:?}"),
    }
}

#[test]
fn failed_inject_never_resumes() {
    let s = suspended(90, Stdio::Inherit);
    let lib = Library::from_bytes(vec![5]).unwrap();
    let (calls, end) = drive(s.inject(lib), vec![fail(1, "bad argument"), ok(0, 0)]);
    assert_eq!(calls.len(), 1);
    match end {
        Step::Done(Err(e)) => {
            assert_eq!(e.kind(), ErrorKind::InvalidInput);
            assert_eq!(e.to_string(), "bad argument");
        }
        other => panic!("unexpected {other:?}"),
    }
}

#[test]
fn resume_without_injection_gives_child() {
    let s = suspended(91, Stdio::Pipe);
    let (calls, end) = drive(s.resume(), vec![ok(0, 0)]);
    assert!(matches!(calls[..], [EngineCall::Resume { pid: 91 }]));
    match end {
        Step::Done(Ok(Outcome::Resumed(child))) => {
            assert_eq!(child.pid(), 91);
            assert_eq!(child.stdio(), Stdio::Pipe);
        }
        other => panic!("unexpected {other:?}"),
    }
    let s = suspended(92, Stdio::Pipe);
    let (_, end) = drive(s.resume(), vec![fail(4, "gone")]);
    match end {
        Step::Done(Err(e)) => assert_eq!(e.to_string(), "process not found: 92"),
        other => panic!("unexpected {other:?}"),
    }
}
