use rtest::compiler::{CompilationResult, Compiler, LaunchOutcome};

fn fpc() -> Compiler {
    Compiler {
        build: "fpc".to_string(),
        build_args: vec!["-So".to_string(), "-XS".to_string()],
        build_arg_working_dir: "-FE".to_string(),
    }
}

#[test]
fn command_args_in_fixed_order() {
    let c = fpc();
    let args = c.command_args("solution.pas", "/tmp/work");
    assert_eq!(
        args,
        vec![
            "-So".to_string(),
            "-XS".to_string(),
            "-FE/tmp/work".to_string(),
            "solution.pas".to_string(),
        ]
    );
}

#[test]
fn command_args_with_no_fixed_args() {
    let c = Compiler {
        build: "cc".to_string(),
        build_args: vec![],
        build_arg_working_dir: "-o".to_string(),
    };
    let args = c.command_args("/src/main.c", "/w");
    assert_eq!(args, vec!["-o/w".to_string(), "/src/main.c".to_string()]);
}

#[test]
fn compile_success_names_artifact() {
    let c = fpc();
    let launch = LaunchOutcome::Completed {
        succeeded: true,
        exit_code: Some(0),
        stdout: Vec::new(),
        stderr: Vec::new(),
    };
    match c.compile("/abs/solution.pas", "/tmp/work", launch) {
        CompilationResult::Success { artifact } => {
            assert_eq!(artifact, "/tmp/work/solution");
        }
        _ => panic!("expected a success outcome"),
    }
}

#[test]
fn compile_error_keeps_output_verbatim() {
    let c = fpc();
    let launch = LaunchOutcome::Completed {
        succeeded: false,
        exit_code: Some(2),
        stdout: b"line 3: syntax error".to_vec(),
        stderr: b"fatal: cannot continue".to_vec(),
    };
    match c.compile("solution.pas", "/tmp/work", launch) {
        CompilationResult::CompileError { exit_code, stdout, stderr } => {
            assert_eq!(exit_code, Some(2));
            assert_eq!(stdout, b"line 3: syntax error".to_vec());
            assert_eq!(stderr, b"fatal: cannot continue".to_vec());
        }
        _ => panic!("expected a compile-error outcome"),
    }
}

#[test]
fn compile_launch_failure_is_not_a_rejection() {
    let c = fpc();
    let launch = LaunchOutcome::NotStarted { cause: "no such executable: fpc".to_string() };
    match c.compile("solution.pas", "/tmp/work", launch) {
        CompilationResult::LaunchFailure { cause } => {
            assert_eq!(cause, "no such executable: fpc");
        }
        _ => panic!("expected a launch failure"),
    }
}

#[test]
fn compile_error_tolerates_non_utf8_output_and_no_exit_code() {
    let c = fpc();
    let launch = LaunchOutcome::Completed {
        succeeded: false,
        exit_code: None,
        stdout: vec![0xff, 0xfe, 0x00],
        stderr: vec![0x80],
    };
    match c.compile("solution.pas", "/w", launch) {
        CompilationResult::CompileError { exit_code, stdout, stderr } => {
            assert_eq!(exit_code, None);
            assert_eq!(stdout, vec![0xff, 0xfe, 0x00]);
            assert_eq!(stderr, vec![0x80]);
        }
        _ => panic!("expected a compile-error outcome"),
    }
}
