use minibox::errors::RunError;
use minibox::runner::{command_dest_path, output_streams, parse_args, ProcessResult};

#[test]
fn child_exit_code_is_propagated_verbatim() {
    for code in [0i32, 1, 42, 255] {
        let result = ProcessResult { stdout: vec![], stderr: vec![], status: Some(code) };
        assert_eq!(result.exit_code(), code);
    }
}

#[test]
fn signal_termination_falls_back_to_exit_code_1() {
    let result = ProcessResult { stdout: vec![], stderr: vec![], status: None };
    assert_eq!(result.exit_code(), 1);
}

#[test]
fn every_internal_failure_exits_with_code_1() {
    let errors = vec![
        RunError::Auth { detail: String::from("d") },
        RunError::Manifest { detail: String::from("d") },
        RunError::LayerFetch { digest: String::from("sha256:a"), detail: String::from("d") },
        RunError::Extract { digest: String::from("sha256:a"), detail: String::from("d") },
        RunError::Isolation { detail: String::from("d") },
        RunError::Launch {
            command: String::from("/bin/sh"),
            args: vec![String::from("-c")],
            detail: String::from("d"),
        },
        RunError::OutputDecode { detail: String::from("d") },
    ];
    for e in errors {
        assert_eq!(e.exit_code(), 1);
    }
}

#[test]
fn error_messages_name_the_failure() {
    let e = RunError::Auth { detail: String::from("no token") };
    assert_eq!(e.message(), "auth error: no token");
    let e = RunError::Extract {
        digest: String::from("sha256:abc"),
        detail: String::from("bad gzip"),
    };
    assert_eq!(e.message(), "extract error for layer sha256:abc: bad gzip");
    let e = RunError::Launch {
        command: String::from("/bin/echo"),
        args: vec![],
        detail: String::from("missing"),
    };
    assert_eq!(e.message(), "launch error running '/bin/echo': missing");
    let e = RunError::Launch {
        command: String::from("/bin/echo"),
        args: vec![String::from("hey"), String::from("there")],
        detail: String::from("missing"),
    };
    assert_eq!(e.message(), "launch error running '/bin/echo' 'hey' 'there': missing");
    let e = RunError::Manifest { detail: String::from("no layers") };
    assert_eq!(e.message(), "manifest error: no layers");
    let e = RunError::LayerFetch {
        digest: String::from("sha256:abc"),
        detail: String::from("404"),
    };
    assert_eq!(e.message(), "fetch error for layer sha256:abc: 404");
    let e = RunError::Isolation { detail: String::from("chroot refused") };
    assert_eq!(e.message(), "isolation error: chroot refused");
    let e = RunError::OutputDecode { detail: String::from("stderr") };
    assert_eq!(e.message(), "output decode error: stderr");
}

#[test]
fn valid_utf8_output_is_forwarded_byte_for_byte() {
    let stdout = b"hello from the container\n".to_vec();
    let stderr = b"warning: something\n".to_vec();
    let result = ProcessResult {
        stdout: stdout.clone(),
        stderr: stderr.clone(),
        status: Some(0),
    };
    let (out, err) = output_streams(result).unwrap();
    assert_eq!(out, stdout);
    assert_eq!(err, stderr);
}

#[test]
fn non_utf8_stdout_is_a_decode_failure() {
    let result = ProcessResult {
        stdout: vec![0xff, 0xfe, 0x00],
        stderr: vec![],
        status: Some(0),
    };
    match output_streams(result) {
        Err(RunError::OutputDecode { .. }) => {},
        _ => panic!("expected a decode error"),
    }
}

#[test]
fn non_utf8_stderr_is_a_decode_failure() {
    let result = ProcessResult {
        stdout: b"fine".to_vec(),
        stderr: vec![0xc3, 0x28],
        status: Some(0),
    };
    match output_streams(result) {
        Err(RunError::OutputDecode { .. }) => {},
        _ => panic!("expected a decode error"),
    }
}

#[test]
fn positional_arguments_are_extracted() {
    let args = vec![
        String::from("tool"),
        String::from("run"),
        String::from("alpine"),
        String::from("/bin/echo"),
        String::from("hey"),
        String::from("there"),
    ];
    let invocation = parse_args(&args);
    assert_eq!(invocation.image, "alpine");
    assert_eq!(invocation.command, "/bin/echo");
    assert_eq!(invocation.command_args, vec![String::from("hey"), String::from("there")]);
}

#[test]
fn command_path_is_joined_under_the_root() {
    assert_eq!(command_dest_path("/tmp/root", "/bin/echo"), "/tmp/root/bin/echo");
    assert_eq!(command_dest_path("/tmp/root", "bin/echo"), "/tmp/root/bin/echo");
}
