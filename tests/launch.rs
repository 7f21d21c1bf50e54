use hook_inject::{stdio_code, ErrorKind, LaunchParams, Program, Stdio};

#[test]
fn launch_params_start_argv_with_program() {
    let mut program = Program::new("/usr/bin/true");
    program.arg("--version");
    program.arg("-x");
    let launch = LaunchParams::from_program(&program).unwrap();
    assert_eq!(launch.program, "/usr/bin/true");
    assert_eq!(launch.argv, vec!["/usr/bin/true", "--version", "-x"]);
    assert!(launch.envp.is_empty());
    assert_eq!(launch.cwd, None);
    assert_eq!(launch.stdio, 0);
}

#[test]
fn launch_params_join_env_and_skip_removals() {
    let mut program = Program::new("/bin/sh");
    program.env("A", "1");
    program.env_remove("B");
    program.env("C", "x=y");
    program.env("A", "2");
    program.current_dir("/work");
    let program = program.stdio(Stdio::Null);
    let launch = LaunchParams::from_program(&program).unwrap();
    assert_eq!(launch.envp, vec!["A=2", "C=x=y"]);
    assert_eq!(launch.cwd.as_deref(), Some("/work"));
    assert_eq!(launch.stdio, 1);
}

#[test]
fn program_env_replaces_value_in_place() {
    let mut program = Program::new("p");
    program.env("K", "1");
    program.env("L", "2");
    program.env("K", "3");
    let envs = program.get_envs();
    assert_eq!(envs.len(), 2);
    assert_eq!(envs[0], ("K".to_string(), Some("3".to_string())));
    assert_eq!(envs[1], ("L".to_string(), Some("2".to_string())));
    program.env_remove("L");
    assert_eq!(program.get_envs()[1], ("L".to_string(), None));
}

#[test]
fn launch_params_reject_nul_in_each_field() {
    let program = Program::new("a\0b");
    let err = LaunchParams::from_program(&program).unwrap_err();
    assert_eq!(err.kind(), ErrorKind::InvalidInput);
    assert_eq!(err.to_string(), "program contains NUL");

    let mut program = Program::new("p");
    program.arg("ok");
    program.arg("b\0d");
    assert_eq!(LaunchParams::from_program(&program).unwrap_err().to_string(), "arg contains NUL");

    let mut program = Program::new("p");
    program.env("K", "v\0");
    assert_eq!(LaunchParams::from_program(&program).unwrap_err().to_string(), "env contains NUL");

    let mut program = Program::new("p");
    program.current_dir("/a\0");
    assert_eq!(LaunchParams::from_program(&program).unwrap_err().to_string(), "cwd contains NUL");
}

#[test]
fn removed_env_with_nul_is_not_checked() {
    let mut program = Program::new("p");
    program.env_remove("K\0");
    let launch = LaunchParams::from_program(&program).unwrap();
    assert!(launch.envp.is_empty());
}

#[test]
fn first_invalid_field_decides_the_error() {
    let mut program = Program::new("p\0");
    program.arg("\0");
    program.current_dir("\0");
    assert_eq!(LaunchParams::from_program(&program).unwrap_err().to_string(), "program contains NUL");
}

#[test]
fn stdio_codes() {
    assert_eq!(stdio_code(Stdio::Inherit), 0);
    assert_eq!(stdio_code(Stdio::Null), 1);
    assert_eq!(stdio_code(Stdio::Pipe), 2);
    let program = Program::new("p").stdio(Stdio::Pipe);
    assert_eq!(program.stdio_value(), Stdio::Pipe);
    assert_eq!(LaunchParams::from_program(&program).unwrap().stdio, 2);
}
