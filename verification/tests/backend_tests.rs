use sandbox_exec::backend::{
    create_linux_sandbox_command_args, create_seatbelt_command_args,
    plan_command_under_linux_sandbox, plan_command_under_seatbelt, plan_command_under_win64_cmd,
    plan_command_under_win64_ps, plan_unsandboxed_command,
};
use sandbox_exec::error::{CodexErr, IoFailure, IoFailureKind};
use sandbox_exec::exec::{Platform, StdioPolicy, CODEX_SANDBOX_NETWORK_DISABLED_ENV_VAR};
use sandbox_exec::launcher::{build_launch_spec, stdio_wiring, StdioWiring, StreamWiring};
use sandbox_exec::protocol::{SandboxPolicy, WritableRoot};

fn strings(list: &[&str]) -> Vec<String> {
    list.iter().map(|s| s.to_string()).collect()
}

fn policy(read: bool, write: bool, roots: Vec<WritableRoot>, network: bool) -> SandboxPolicy {
    SandboxPolicy {
        full_disk_read: read,
        full_disk_write: write,
        writable_roots: roots,
        full_network: network,
        unrestricted: false,
    }
}

#[test]
fn linux_args_for_full_access() {
    let args = create_linux_sandbox_command_args(
        strings(&["ls", "-l"]),
        &policy(true, true, vec![WritableRoot::Cwd], true),
        "/work",
    );
    assert_eq!(
        args,
        strings(&[
            "-s",
            "disk-full-read-access",
            "-s",
            "disk-full-write-access",
            "-s",
            "network-full-access",
            "--",
            "ls",
            "-l"
        ])
    );
}

#[test]
fn linux_args_for_writable_roots() {
    let roots = vec![
        WritableRoot::Folder("/tmp".to_string()),
        WritableRoot::Cwd,
        WritableRoot::Folder("/work".to_string()),
    ];
    let args =
        create_linux_sandbox_command_args(strings(&["-x"]), &policy(true, false, roots, false), "/work");
    assert_eq!(
        args,
        strings(&[
            "-s",
            "disk-full-read-access",
            "-s",
            "disk-write-folder=/tmp",
            "-s",
            "disk-write-cwd",
            "-s",
            "disk-write-cwd",
            "--",
            "-x"
        ])
    );
}

#[test]
fn linux_args_for_nothing_granted() {
    let args = create_linux_sandbox_command_args(
        strings(&["true"]),
        &policy(false, false, vec![], false),
        "/work",
    );
    assert_eq!(args, strings(&["--", "true"]));
}

#[test]
fn seatbelt_args_with_two_roots() {
    let roots = vec![WritableRoot::Cwd, WritableRoot::Folder("/tmp".to_string())];
    let args = create_seatbelt_command_args(
        strings(&["echo", "hi"]),
        &policy(true, false, roots, false),
        "/work",
        "(version 1)",
    );
    let profile = "(version 1)\n; allow read-only file operations\n(allow file-read*)\n(allow file-write*\n(subpath (param \"WRITABLE_ROOT_0\")) (subpath (param \"WRITABLE_ROOT_1\"))\n)\n";
    assert_eq!(
        args,
        strings(&[
            "-p",
            profile,
            "-DWRITABLE_ROOT_0=/work",
            "-DWRITABLE_ROOT_1=/tmp",
            "--",
            "echo",
            "hi"
        ])
    );
}

#[test]
fn seatbelt_args_with_zero_roots_grant_no_write() {
    let args = create_seatbelt_command_args(
        strings(&["touch", "x"]),
        &policy(true, false, vec![], false),
        "/work",
        "BASE",
    );
    assert_eq!(
        args,
        strings(&[
            "-p",
            "BASE\n; allow read-only file operations\n(allow file-read*)\n\n",
            "--",
            "touch",
            "x"
        ])
    );
    assert!(!args[1].contains("file-write"));
}

#[test]
fn seatbelt_args_for_full_access() {
    let args = create_seatbelt_command_args(
        strings(&["x"]),
        &policy(false, true, vec![WritableRoot::Cwd], true),
        "/work",
        "BASE",
    );
    assert_eq!(
        args,
        strings(&[
            "-p",
            "BASE\n\n(allow file-write* (regex #\"^/\"))\n(allow network-outbound)\n(allow network-inbound)\n(allow system-socket)",
            "--",
            "x"
        ])
    );
}

#[test]
fn seatbelt_parameters_are_numbered_in_decimal() {
    let roots: Vec<WritableRoot> =
        (0..12).map(|i| WritableRoot::Folder(format!("/r{}", i))).collect();
    let args = create_seatbelt_command_args(
        strings(&["x"]),
        &policy(false, false, roots, false),
        "/work",
        "",
    );
    assert_eq!(args[2], "-DWRITABLE_ROOT_0=/r0");
    assert_eq!(args[11], "-DWRITABLE_ROOT_9=/r9");
    assert_eq!(args[12], "-DWRITABLE_ROOT_10=/r10");
    assert_eq!(args[13], "-DWRITABLE_ROOT_11=/r11");
    assert_eq!(args[14], "--");
    assert!(args[1].contains("(subpath (param \"WRITABLE_ROOT_10\")) (subpath (param \"WRITABLE_ROOT_11\"))\n)"));
}

#[test]
fn launch_spec_wires_capture() {
    assert_eq!(
        stdio_wiring(StdioPolicy::RedirectForShellTool),
        StdioWiring {
            stdin: StreamWiring::Null,
            stdout: StreamWiring::Piped,
            stderr: StreamWiring::Piped
        }
    );
    assert_eq!(
        stdio_wiring(StdioPolicy::Inherit),
        StdioWiring {
            stdin: StreamWiring::Inherit,
            stdout: StreamWiring::Inherit,
            stderr: StreamWiring::Inherit
        }
    );
}

#[test]
fn launch_spec_marks_denied_network() {
    let env = vec![("PATH".to_string(), "/bin".to_string())];
    let spec = build_launch_spec(
        "/bin/ls".to_string(),
        strings(&["-l"]),
        None,
        "/work".to_string(),
        &policy(true, false, vec![], false),
        StdioPolicy::RedirectForShellTool,
        env.clone(),
    );
    assert_eq!(spec.program, "/bin/ls");
    assert_eq!(spec.arg0, "/bin/ls");
    assert_eq!(spec.args, strings(&["-l"]));
    assert_eq!(spec.cwd, "/work");
    assert!(spec.clear_env);
    assert!(spec.kill_on_drop);
    assert_eq!(
        spec.env,
        vec![
            ("PATH".to_string(), "/bin".to_string()),
            (CODEX_SANDBOX_NETWORK_DISABLED_ENV_VAR.to_string(), "1".to_string())
        ]
    );

    let spec = build_launch_spec(
        "/bin/ls".to_string(),
        vec![],
        Some("listing"),
        "/work".to_string(),
        &policy(true, false, vec![], true),
        StdioPolicy::Inherit,
        env.clone(),
    );
    assert_eq!(spec.arg0, "listing");
    assert_eq!(spec.env, env);
}

#[test]
fn network_marker_overrides_the_callers_value() {
    let env = vec![(CODEX_SANDBOX_NETWORK_DISABLED_ENV_VAR.to_string(), "0".to_string())];
    let spec = build_launch_spec(
        "p".to_string(),
        vec![],
        None,
        "/".to_string(),
        &policy(true, false, vec![], false),
        StdioPolicy::Inherit,
        env,
    );
    // Entries are applied in order, so the last one for a name counts.
    let last = spec
        .env
        .iter()
        .rev()
        .find(|(k, _)| k == CODEX_SANDBOX_NETWORK_DISABLED_ENV_VAR)
        .unwrap();
    assert_eq!(last.1, "1");
}

#[test]
fn seatbelt_plan_pins_the_tool_path() {
    let spec = plan_command_under_seatbelt(
        strings(&["ls"]),
        &policy(true, false, vec![], false),
        "/work".to_string(),
        StdioPolicy::RedirectForShellTool,
        vec![],
        "BASE",
    );
    assert_eq!(spec.program, "/usr/bin/sandbox-exec");
    assert_eq!(spec.arg0, "/usr/bin/sandbox-exec");
    assert_eq!(spec.args[0], "-p");
    assert_eq!(spec.args[spec.args.len() - 2], "--");
    assert_eq!(spec.args[spec.args.len() - 1], "ls");
}

#[test]
fn linux_plan_names_the_helper() {
    let spec = plan_command_under_linux_sandbox(
        "/opt/helper",
        strings(&["ls"]),
        &policy(false, false, vec![], true),
        "/work".to_string(),
        StdioPolicy::RedirectForShellTool,
        vec![],
    );
    assert_eq!(spec.program, "/opt/helper");
    assert_eq!(spec.arg0, "codex-linux-sandbox");
    assert_eq!(spec.args, strings(&["-s", "network-full-access", "--", "ls"]));
    assert!(spec.env.is_empty());
}

#[test]
fn windows_backends_are_unsupported_elsewhere() {
    for platform in [Platform::Linux, Platform::Macos, Platform::Other] {
        let r = plan_command_under_win64_cmd(
            strings(&["dir"]),
            &policy(true, false, vec![], true),
            "C:\\work".to_string(),
            StdioPolicy::RedirectForShellTool,
            vec![],
            platform,
            "C:/tools/scripts/win64_cmd_restricted.bat",
        );
        assert_eq!(r, Err(CodexErr::UnsupportedPlatform));
        let r = plan_command_under_win64_ps(
            strings(&["dir"]),
            &policy(true, false, vec![], true),
            "C:\\work".to_string(),
            StdioPolicy::RedirectForShellTool,
            vec![],
            platform,
            "C:/tools/scripts/win64_ps_restricted.ps1",
        );
        assert_eq!(r, Err(CodexErr::UnsupportedPlatform));
    }
}

#[test]
fn windows_backends_run_the_restricted_script() {
    let spec = plan_command_under_win64_cmd(
        strings(&["dir", "/b"]),
        &policy(true, false, vec![], true),
        "C:\\work".to_string(),
        StdioPolicy::RedirectForShellTool,
        vec![],
        Platform::Windows,
        "C:/tools/scripts/win64_cmd_restricted.bat",
    )
    .unwrap();
    assert_eq!(spec.program, "cmd.exe");
    assert_eq!(
        spec.args,
        strings(&["/C", "C:\\tools\\scripts\\win64_cmd_restricted.bat", "dir", "/b"])
    );
    let spec = plan_command_under_win64_ps(
        strings(&["Get-ChildItem"]),
        &policy(true, false, vec![], true),
        "C:\\work".to_string(),
        StdioPolicy::Inherit,
        vec![],
        Platform::Windows,
        "C:/tools/src/scripts/win64_ps_restricted.ps1",
    )
    .unwrap();
    assert_eq!(spec.program, "powershell.exe");
    assert_eq!(
        spec.args,
        strings(&["-File", "C:\\tools\\src\\scripts\\win64_ps_restricted.ps1", "Get-ChildItem"])
    );
}

#[test]
fn unsandboxed_plan_splits_program_and_arguments() {
    let spec = plan_unsandboxed_command(
        strings(&["sh", "-c", "echo hi"]),
        &policy(true, false, vec![], true),
        "/work".to_string(),
        StdioPolicy::RedirectForShellTool,
        vec![],
    )
    .unwrap();
    assert_eq!(spec.program, "sh");
    assert_eq!(spec.arg0, "sh");
    assert_eq!(spec.args, strings(&["-c", "echo hi"]));

    let r = plan_unsandboxed_command(
        vec![],
        &policy(true, false, vec![], true),
        "/work".to_string(),
        StdioPolicy::RedirectForShellTool,
        vec![],
    );
    assert_eq!(
        r,
        Err(CodexErr::Io(IoFailure {
            kind: IoFailureKind::InvalidInput,
            message: "command args are empty".to_string()
        }))
    );
}

#[test]
fn linux_args_compare_roots_as_paths() {
    let roots = vec![
        WritableRoot::Folder("/work/".to_string()),
        WritableRoot::Folder("//work/./".to_string()),
        WritableRoot::Folder("/work/../work".to_string()),
        WritableRoot::Folder("work".to_string()),
    ];
    let args =
        create_linux_sandbox_command_args(strings(&["x"]), &policy(false, false, roots, false), "/work");
    assert_eq!(
        args,
        strings(&[
            "-s",
            "disk-write-cwd",
            "-s",
            "disk-write-cwd",
            "-s",
            "disk-write-folder=/work/../work",
            "-s",
            "disk-write-folder=work",
            "--",
            "x"
        ])
    );
}
