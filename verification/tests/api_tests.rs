use sandbox_exec::api::{
    accept_with_retries, api_command_line, api_exchange_output, api_exit_code, api_merge_output,
    api_mode, api_spawn_failure_output, failures_of_exit_code, handshake_message,
    handshake_read_continues, payload_outcome, status_factor, AcceptEvent, ApiFailures,
    ApiHandshakeOutcome, ApiMode, Handshake, HandshakeStep, PayloadOutcome,
    API_HANDSHAKE_FAILURE, API_PAYLOAD_FAILURE, API_SPAWN_FAILURE, HANDSHAKE_TRIES,
};
use sandbox_exec::error::{CodexErr, IoFailure, IoFailureKind};
use sandbox_exec::exec::{ExitOutcome, RawExecToolCallOutput};

fn strings(list: &[&str]) -> Vec<String> {
    list.iter().map(|s| s.to_string()).collect()
}

fn failures(handshake: bool, payload: bool, spawn: bool) -> ApiFailures {
    ApiFailures { handshake, payload, spawn }
}

#[test]
fn status_factor_is_the_product_of_the_failures() {
    assert_eq!(API_HANDSHAKE_FAILURE, 2);
    assert_eq!(API_PAYLOAD_FAILURE, 3);
    assert_eq!(API_SPAWN_FAILURE, 5);
    for h in [false, true] {
        for p in [false, true] {
            for s in [false, true] {
                let expected = (if h { 2 } else { 1 }) * (if p { 3 } else { 1 }) * (if s { 5 } else { 1 });
                assert_eq!(status_factor(failures(h, p, s)), expected);
                let code = api_exit_code(failures(h, p, s));
                assert_eq!(code, if expected == 1 { 0 } else { expected });
                assert_eq!(failures_of_exit_code(code), Some(failures(h, p, s)));
            }
        }
    }
}

#[test]
fn handshake_only_failure_is_code_two() {
    assert_eq!(api_exit_code(failures(true, false, false)), 2);
}

#[test]
fn handshake_and_payload_failure_is_code_six() {
    assert_eq!(api_exit_code(failures(true, true, false)), 6);
    assert_eq!(failures_of_exit_code(6), Some(failures(true, true, false)));
}

#[test]
fn other_codes_decode_to_nothing() {
    for code in [1, 4, 7, 8, 9, 12, 20, 31, 60, -1, -2, 64, 137, 192] {
        assert_eq!(failures_of_exit_code(code), None);
    }
}

#[test]
fn test_spawn_command_under_api_no_handshake() {
    // The command is not an interpreter, so no process is spawned.
    let command = vec!["nonexistent".to_string()];
    assert_eq!(api_mode(&command), ApiMode::Exchange);
    let command_line = api_command_line(&command);

    let events = vec![AcceptEvent::TimedOut, AcceptEvent::TimedOut, AcceptEvent::TimedOut];
    let handshake = accept_with_retries(HANDSHAKE_TRIES, events).expect("spawn under api failed");
    assert!(!handshake.connected);

    let output = api_exchange_output(handshake, PayloadOutcome::NotSent, &command_line, None);

    assert_eq!(output.exit_status, ExitOutcome::Exited(API_HANDSHAKE_FAILURE));
    let stdout = String::from_utf8_lossy(&output.stdout);
    assert!(stdout.contains("No response on the API"));
    assert_eq!(stdout, "No response on the API\nnonexistent");
    assert!(output.stderr.is_empty());
}

#[test]
fn test_spawn_command_under_api() {
    let command =
        vec!["sh".to_string(), "-c".to_string(), "echo Hello, World!".to_string()];
    assert_eq!(api_mode(&command), ApiMode::Spawn);

    let events = vec![AcceptEvent::TimedOut, AcceptEvent::TimedOut, AcceptEvent::TimedOut];
    let handshake = accept_with_retries(HANDSHAKE_TRIES, events).unwrap();

    let child = RawExecToolCallOutput {
        exit_status: ExitOutcome::Exited(0),
        stdout: b"Hello, World!\n".to_vec(),
        stderr: Vec::new(),
        translation_result: None,
    };
    let output = api_merge_output(&handshake.message, child, None);
    assert_eq!(output.exit_status, ExitOutcome::Exited(API_HANDSHAKE_FAILURE));
    let stdout = String::from_utf8_lossy(&output.stdout);
    assert!(stdout.contains("Hello, World!"), "Unexpected output: {}", stdout);
    assert_eq!(stdout, "No response on the API\nHello, World!\n");
}

#[test]
fn interpreters_are_known_by_file_name() {
    for program in ["sh", "/bin/bash", "/usr/local/bin/ZSH", "CMD", "powershell", "pwsh", "python", "/usr/bin/python3", "node", "perl"] {
        assert_eq!(api_mode(&vec![program.to_string()]), ApiMode::Spawn, "{}", program);
    }
    for program in ["", "ls", "sh/", "bash.exe", "python2", "/bin/sh/x", "C:\\tools\\sh"] {
        assert_eq!(api_mode(&vec![program.to_string()]), ApiMode::Exchange, "{}", program);
    }
    assert_eq!(api_mode(&vec![]), ApiMode::Exchange);
}

#[test]
fn command_line_is_joined_with_spaces() {
    assert_eq!(api_command_line(&strings(&["git", "status", "--short"])), "git status --short");
    assert_eq!(api_command_line(&strings(&["one"])), "one");
    assert_eq!(api_command_line(&vec![]), "");
    assert_eq!(api_command_line(&strings(&["a", "", "b"])), "a  b");
}

#[test]
fn exchange_reports_the_answer() {
    let handshake = ApiHandshakeOutcome { message: "ready".to_string(), connected: true };
    let out = api_exchange_output(
        handshake,
        PayloadOutcome::Received("done".to_string()),
        "do it",
        None,
    );
    assert_eq!(out.exit_status, ExitOutcome::Exited(0));
    assert_eq!(out.stdout, b"ready\ndone".to_vec());
    assert!(out.stderr.is_empty());
}

#[test]
fn exchange_falls_back_to_the_command_line() {
    let handshake = ApiHandshakeOutcome { message: "ready".to_string(), connected: true };
    let out = api_exchange_output(
        handshake.clone(),
        PayloadOutcome::Received(String::new()),
        "do it",
        None,
    );
    assert_eq!(out.exit_status, ExitOutcome::Exited(0));
    assert_eq!(out.stdout, b"ready\ndo it".to_vec());

    let out = api_exchange_output(handshake, PayloadOutcome::Failed, "do it", None);
    assert_eq!(out.exit_status, ExitOutcome::Exited(API_PAYLOAD_FAILURE));
    assert_eq!(out.stdout, b"ready\ndo it".to_vec());
}

#[test]
fn exchange_with_both_failures_is_code_six() {
    let handshake =
        ApiHandshakeOutcome { message: "No response on the API".to_string(), connected: false };
    let out = api_exchange_output(handshake, PayloadOutcome::Failed, "x", None);
    assert_eq!(out.exit_status, ExitOutcome::Exited(6));
}

#[test]
fn payload_outcome_decodes_the_answer() {
    assert_eq!(
        payload_outcome(Ok(b"caf\xc3\xa9".to_vec())),
        PayloadOutcome::Received("caf\u{e9}".to_string())
    );
    assert_eq!(
        payload_outcome(Ok(vec![b'a', 0xff, b'b'])),
        PayloadOutcome::Received("a\u{fffd}b".to_string())
    );
    assert_eq!(
        payload_outcome(Err(IoFailure { kind: IoFailureKind::Other, message: "reset".to_string() })),
        PayloadOutcome::Failed
    );
}

#[test]
fn spawn_failure_is_code_five() {
    let out = api_spawn_failure_output("nope --flag", None);
    assert_eq!(out.exit_status, ExitOutcome::Exited(API_SPAWN_FAILURE));
    assert!(out.stdout.is_empty());
    assert_eq!(out.stderr, b"Program not found: nope --flag".to_vec());
}

#[test]
fn merge_keeps_the_exit_of_an_answered_handshake() {
    let child = RawExecToolCallOutput {
        exit_status: ExitOutcome::Exited(3),
        stdout: b"out".to_vec(),
        stderr: b"err".to_vec(),
        translation_result: None,
    };
    let out = api_merge_output("hello there", child, None);
    assert_eq!(out.exit_status, ExitOutcome::Exited(3));
    assert_eq!(out.stdout, b"hello there\nout".to_vec());
    assert_eq!(out.stderr, b"err".to_vec());

    let child = RawExecToolCallOutput {
        exit_status: ExitOutcome::TimedOut,
        stdout: b"out".to_vec(),
        stderr: Vec::new(),
        translation_result: None,
    };
    let out = api_merge_output("", child, None);
    assert_eq!(out.exit_status, ExitOutcome::TimedOut);
    assert_eq!(out.stdout, b"out".to_vec());
}

#[test]
fn handshake_message_is_one_line() {
    assert_eq!(handshake_message(false, "a\nb\n"), "a b ");
    assert_eq!(handshake_message(false, "plain"), "plain");
    assert_eq!(handshake_message(true, ""), "No handshake could be completed");
}

#[test]
fn handshake_takes_the_first_connection() {
    let events = vec![
        AcceptEvent::TimedOut,
        AcceptEvent::Connected(b"hello\nworld".to_vec()),
        AcceptEvent::TimedOut,
    ];
    let outcome = accept_with_retries(3, events).unwrap();
    assert_eq!(outcome, ApiHandshakeOutcome { message: "hello world".to_string(), connected: true });

    let outcome = accept_with_retries(3, vec![AcceptEvent::Connected(vec![])]).unwrap();
    assert_eq!(
        outcome,
        ApiHandshakeOutcome {
            message: "No handshake could be completed".to_string(),
            connected: true
        }
    );
}

#[test]
fn handshake_stops_after_its_tries() {
    let events = vec![
        AcceptEvent::TimedOut,
        AcceptEvent::TimedOut,
        AcceptEvent::Connected(b"late".to_vec()),
    ];
    let outcome = accept_with_retries(2, events).unwrap();
    assert_eq!(
        outcome,
        ApiHandshakeOutcome { message: "No response on the API".to_string(), connected: false }
    );
    let outcome = accept_with_retries(0, vec![AcceptEvent::Connected(b"x".to_vec())]).unwrap();
    assert!(!outcome.connected);
}

#[test]
fn handshake_fails_with_the_listener() {
    let failure = IoFailure { kind: IoFailureKind::Other, message: "listener closed".to_string() };
    let events = vec![AcceptEvent::TimedOut, AcceptEvent::Failed(failure.clone())];
    assert_eq!(accept_with_retries(3, events), Err(CodexErr::Io(failure)));
}

#[test]
fn handshake_steps_count_attempts() {
    let (state, step) = Handshake::begin(2);
    assert_eq!(step, HandshakeStep::Accept);
    assert_eq!(state.attempts, 1);
    let (state, step) = state.step(AcceptEvent::TimedOut);
    assert_eq!(step, HandshakeStep::Accept);
    assert_eq!(state.attempts, 2);
    let (state, step) = state.step(AcceptEvent::TimedOut);
    assert_eq!(state.attempts, 2);
    assert_eq!(
        step,
        HandshakeStep::Done(ApiHandshakeOutcome {
            message: "No response on the API".to_string(),
            connected: false
        })
    );
}

#[test]
fn first_read_ends_on_a_short_read() {
    assert!(handshake_read_continues(1024, 1024));
    assert!(!handshake_read_continues(1023, 1024));
    assert!(!handshake_read_continues(0, 1024));
}
