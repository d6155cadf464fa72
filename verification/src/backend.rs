//! The sandbox backends: how a command and a policy become the invocation
//! of the macOS sandbox tool, of the Linux sandbox helper, or of a
//! restricted Windows shell script.

use vstd::prelude::*;
use vstd::string::*;
use crate::error::{CodexErr, CodexErrView};
use crate::exec::{Platform, StdioPolicy};
use crate::launcher::{build_launch_spec, env_map, launch_spec, LaunchSpec, LaunchSpecView};
use crate::paths::{is_same_path, same_path};
use crate::protocol::{resolved_roots, SandboxPolicy};
use crate::text::{
    decimal, join, join_strings, lemma_texts_add, lemma_texts_push, texts, usize_to_decimal,
};
use crate::error::{IoFailure, IoFailureKind, IoFailureView};
use crate::translation::{path_for, normalize_path};

verus! {

/// The sandbox tool of macOS, named by its full path so that nothing found
/// on `PATH` can take its place.
pub const MACOS_PATH_TO_SEATBELT_EXECUTABLE: &'static str = "/usr/bin/sandbox-exec";

/// What the Linux sandbox helper sees as its own name.
pub const LINUX_SANDBOX_ARG0: &'static str = "codex-linux-sandbox";

/// The helper flags that grant writing to `roots`: a root that names the
/// working directory by the flag of the working directory, every other
/// folder by name.
pub open spec fn linux_write_flags(roots: Seq<Seq<char>>, cwd: Seq<char>) -> Seq<Seq<char>>
    decreases roots.len(),
{
    if roots.len() == 0 {
        Seq::empty()
    } else {
        linux_write_flags(roots.drop_last(), cwd) + if same_path(roots.last(), cwd) {
            seq!["-s"@, "disk-write-cwd"@]
        } else {
            seq!["-s"@, "disk-write-folder="@ + roots.last()]
        }
    }
}

/// The arguments of the Linux sandbox helper: one `-s <permission>` pair
/// for each permission the policy grants, then `--`, then the command.
pub open spec fn linux_sandbox_args(
    command: Seq<Seq<char>>,
    full_disk_read: bool,
    full_disk_write: bool,
    roots: Seq<Seq<char>>,
    full_network: bool,
    cwd: Seq<char>,
) -> Seq<Seq<char>> {
    (if full_disk_read {
        seq!["-s"@, "disk-full-read-access"@]
    } else {
        Seq::empty()
    }) + (if full_disk_write {
        seq!["-s"@, "disk-full-write-access"@]
    } else {
        linux_write_flags(roots, cwd)
    }) + (if full_network {
        seq!["-s"@, "network-full-access"@]
    } else {
        Seq::empty()
    }) + seq!["--"@] + command
}

/// Converts the sandbox policy into the arguments of the Linux sandbox
/// helper. The separator keeps command arguments that start with `-` from
/// being read as options of the helper.
pub fn create_linux_sandbox_command_args(
    command: Vec<String>,
    sandbox_policy: &SandboxPolicy,
    cwd: &str,
) -> (r: Vec<String>)
    ensures
        texts(r@) == linux_sandbox_args(
            texts(command@),
            sandbox_policy.full_disk_read,
            sandbox_policy.full_disk_write,
            resolved_roots(sandbox_policy.writable_roots@, cwd@),
            sandbox_policy.full_network,
            cwd@,
        ),
{
    let mut linux_cmd: Vec<String> = Vec::new();
    if sandbox_policy.has_full_disk_read_access() {
        push_text(&mut linux_cmd, "-s".to_owned());
        push_text(&mut linux_cmd, "disk-full-read-access".to_owned());
    }
    let ghost head = texts(linux_cmd@);
    assert(head == if sandbox_policy.full_disk_read {
        seq!["-s"@, "disk-full-read-access"@]
    } else {
        Seq::<Seq<char>>::empty()
    });
    if sandbox_policy.has_full_disk_write_access() {
        push_text(&mut linux_cmd, "-s".to_owned());
        push_text(&mut linux_cmd, "disk-full-write-access".to_owned());
        assert(texts(linux_cmd@) == head + seq!["-s"@, "disk-full-write-access"@]);
    } else {
        let roots = sandbox_policy.get_writable_roots_with_cwd(cwd);
        let mut i: usize = 0;
        while i < roots.len()
            invariant
                i <= roots.len(),
                texts(linux_cmd@) == head + linux_write_flags(texts(roots@).take(i as int), cwd@),
            decreases roots.len() - i,
        {
            proof {
                let all = texts(roots@);
                assert(all.take(i as int + 1).drop_last() == all.take(i as int));
                assert(all.take(i as int + 1).last() == roots@[i as int]@);
            }
            let ghost before = texts(linux_cmd@);
            push_text(&mut linux_cmd, "-s".to_owned());
            if is_same_path(roots[i].as_str(), cwd) {
                push_text(&mut linux_cmd, "disk-write-cwd".to_owned());
                assert(texts(linux_cmd@) == before + seq!["-s"@, "disk-write-cwd"@]);
            } else {
                let mut flag = "disk-write-folder=".to_owned();
                flag.append(roots[i].as_str());
                push_text(&mut linux_cmd, flag);
                assert(texts(linux_cmd@) == before + seq![
                    "-s"@,
                    "disk-write-folder="@ + roots@[i as int]@,
                ]);
            }
            i = i + 1;
        }
        proof {
            assert(texts(roots@).take(roots.len() as int) == texts(roots@));
        }
    }
    let ghost middle = texts(linux_cmd@);
    if sandbox_policy.has_full_network_access() {
        push_text(&mut linux_cmd, "-s".to_owned());
        push_text(&mut linux_cmd, "network-full-access".to_owned());
        assert(texts(linux_cmd@) == middle + seq!["-s"@, "network-full-access"@]);
    } else {
        assert(texts(linux_cmd@) == middle + Seq::<Seq<char>>::empty());
    }
    let ghost tail = texts(linux_cmd@);
    push_text(&mut linux_cmd, "--".to_owned());
    assert(texts(linux_cmd@) == tail + seq!["--"@]);
    let ghost sofar = linux_cmd@;
    let ghost given = command@;
    let mut command = command;
    linux_cmd.append(&mut command);
    proof {
        lemma_texts_add(sofar, given);
    }
    linux_cmd
}

/// Appends one string to a list.
fn push_text(list: &mut Vec<String>, s: String)
    ensures
        texts(final(list)@) == texts(old(list)@).push(s@),
{
    proof {
        lemma_texts_push(list@, s);
    }
    list.push(s);
}

/// The name of the profile parameter of the writable root number `index`.
pub open spec fn writable_root_param(index: nat) -> Seq<char> {
    "WRITABLE_ROOT_"@ + decimal(index)
}

/// The profile clause that admits the writable root number `index`.
pub open spec fn subpath_clause(index: nat) -> Seq<char> {
    "(subpath (param \""@ + writable_root_param(index) + "\"))"@
}

/// The tool argument that binds the parameter of the writable root number
/// `index` to its path.
pub open spec fn root_define(index: nat, root: Seq<char>) -> Seq<char> {
    "-D"@ + writable_root_param(index) + "="@ + root
}

/// The clauses for the first `n` writable roots.
pub open spec fn subpath_clauses(n: nat) -> Seq<Seq<char>> {
    Seq::new(n, |i: int| subpath_clause(i as nat))
}

/// The tool arguments that bind the parameters of `roots`.
pub open spec fn root_defines(roots: Seq<Seq<char>>) -> Seq<Seq<char>> {
    Seq::new(roots.len(), |i: int| root_define(i as nat, roots[i]))
}

/// The part of the profile that decides on reading.
pub open spec fn seatbelt_read_policy(full_disk_read: bool) -> Seq<char> {
    if full_disk_read {
        "; allow read-only file operations\n(allow file-read*)"@
    } else {
        Seq::empty()
    }
}

/// The part of the profile that decides on writing: everything, or one
/// clause per writable root, or nothing where there are no roots.
pub open spec fn seatbelt_write_policy(full_disk_write: bool, roots: Seq<Seq<char>>) -> Seq<char> {
    if full_disk_write {
        "(allow file-write* (regex #\"^/\"))"@
    } else if roots.len() == 0 {
        Seq::empty()
    } else {
        "(allow file-write*\n"@ + join(subpath_clauses(roots.len()), " "@) + "\n)"@
    }
}

/// The part of the profile that decides on the network.
pub open spec fn seatbelt_network_policy(full_network: bool) -> Seq<char> {
    if full_network {
        "(allow network-outbound)\n(allow network-inbound)\n(allow system-socket)"@
    } else {
        Seq::empty()
    }
}

/// The whole profile: the base policy and the three parts, one per line.
pub open spec fn seatbelt_profile(
    base_policy: Seq<char>,
    full_disk_read: bool,
    full_disk_write: bool,
    roots: Seq<Seq<char>>,
    full_network: bool,
) -> Seq<char> {
    base_policy + "\n"@ + seatbelt_read_policy(full_disk_read) + "\n"@ + seatbelt_write_policy(
        full_disk_write,
        roots,
    ) + "\n"@ + seatbelt_network_policy(full_network)
}

/// The arguments of the macOS sandbox tool: `-p`, the profile, one define
/// per writable root (none under full write access), `--`, the command.
pub open spec fn seatbelt_args(
    command: Seq<Seq<char>>,
    base_policy: Seq<char>,
    full_disk_read: bool,
    full_disk_write: bool,
    roots: Seq<Seq<char>>,
    full_network: bool,
) -> Seq<Seq<char>> {
    seq![
        "-p"@,
        seatbelt_profile(base_policy, full_disk_read, full_disk_write, roots, full_network),
    ] + (if full_disk_write {
        Seq::empty()
    } else {
        root_defines(roots)
    }) + seq!["--"@] + command
}

/// Builds the arguments of the macOS sandbox tool from the base policy text
/// and the sandbox policy.
pub fn create_seatbelt_command_args(
    command: Vec<String>,
    sandbox_policy: &SandboxPolicy,
    cwd: &str,
    base_policy: &str,
) -> (r: Vec<String>)
    ensures
        texts(r@) == seatbelt_args(
            texts(command@),
            base_policy@,
            sandbox_policy.full_disk_read,
            sandbox_policy.full_disk_write,
            resolved_roots(sandbox_policy.writable_roots@, cwd@),
            sandbox_policy.full_network,
        ),
{
    let ghost roots_spec = resolved_roots(sandbox_policy.writable_roots@, cwd@);
    let mut file_write_policy = String::new();
    let mut extra_cli_args: Vec<String> = Vec::new();
    if sandbox_policy.has_full_disk_write_access() {
        file_write_policy = "(allow file-write* (regex #\"^/\"))".to_owned();
    } else {
        let writable_roots = sandbox_policy.get_writable_roots_with_cwd(cwd);
        let mut policies: Vec<String> = Vec::new();
        let mut index: usize = 0;
        while index < writable_roots.len()
            invariant
                index <= writable_roots.len(),
                texts(writable_roots@) == roots_spec,
                texts(policies@) == subpath_clauses(index as nat),
                texts(extra_cli_args@) == root_defines(roots_spec.take(index as int)),
            decreases writable_roots.len() - index,
        {
            let number = usize_to_decimal(index);
            let mut param_name = "WRITABLE_ROOT_".to_owned();
            param_name.append(number.as_str());
            let mut policy = "(subpath (param \"".to_owned();
            policy.append(param_name.as_str());
            policy.append("\"))");
            let mut cli_arg = "-D".to_owned();
            cli_arg.append(param_name.as_str());
            cli_arg.append("=");
            cli_arg.append(writable_roots[index].as_str());
            proof {
                assert(roots_spec[index as int] == writable_roots@[index as int]@);
                assert(subpath_clauses(index as nat).push(policy@) =~= subpath_clauses(
                    (index + 1) as nat,
                ));
                assert(root_defines(roots_spec.take(index as int)).push(cli_arg@) =~= root_defines(
                    roots_spec.take(index as int + 1),
                ));
            }
            push_text(&mut policies, policy);
            push_text(&mut extra_cli_args, cli_arg);
            index = index + 1;
        }
        proof {
            assert(roots_spec.take(writable_roots.len() as int) == roots_spec);
        }
        if policies.len() > 0 {
            file_write_policy = "(allow file-write*\n".to_owned();
            let clauses = join_strings(&policies, " ");
            file_write_policy.append(clauses.as_str());
            file_write_policy.append("\n)");
        }
    }
    assert(file_write_policy@ == seatbelt_write_policy(sandbox_policy.full_disk_write, roots_spec));
    let mut full_policy = base_policy.to_owned();
    full_policy.append("\n");
    if sandbox_policy.has_full_disk_read_access() {
        full_policy.append("; allow read-only file operations\n(allow file-read*)");
    }
    assert(full_policy@ == base_policy@ + "\n"@ + seatbelt_read_policy(
        sandbox_policy.full_disk_read,
    ));
    full_policy.append("\n");
    full_policy.append(file_write_policy.as_str());
    full_policy.append("\n");
    let ghost before_network = full_policy@;
    if sandbox_policy.has_full_network_access() {
        full_policy.append(
            "(allow network-outbound)\n(allow network-inbound)\n(allow system-socket)",
        );
    }
    assert(full_policy@ == before_network + seatbelt_network_policy(sandbox_policy.full_network));
    let mut seatbelt_args: Vec<String> = Vec::new();
    push_text(&mut seatbelt_args, "-p".to_owned());
    push_text(&mut seatbelt_args, full_policy);
    let ghost head = seatbelt_args@;
    assert(texts(head) == seq![
        "-p"@,
        seatbelt_profile(
            base_policy@,
            sandbox_policy.full_disk_read,
            sandbox_policy.full_disk_write,
            roots_spec,
            sandbox_policy.full_network,
        ),
    ]);
    let ghost defines = extra_cli_args@;
    seatbelt_args.append(&mut extra_cli_args);
    proof {
        lemma_texts_add(head, defines);
        assert(texts(defines) == if sandbox_policy.full_disk_write {
            Seq::<Seq<char>>::empty()
        } else {
            root_defines(roots_spec)
        });
    }
    push_text(&mut seatbelt_args, "--".to_owned());
    let ghost sofar = seatbelt_args@;
    assert(texts(sofar) == texts(head) + texts(defines) + seq!["--"@]);
    let ghost given = command@;
    let mut command = command;
    seatbelt_args.append(&mut command);
    proof {
        lemma_texts_add(sofar, given);
    }
    seatbelt_args
}


/// The shell of the Windows command sandbox.
pub const WIN64_CMD_PROGRAM: &'static str = "cmd.exe";

/// The shell of the Windows PowerShell sandbox.
pub const WIN64_PS_PROGRAM: &'static str = "powershell.exe";

/// Describes the child that runs a command under the macOS sandbox tool.
pub fn plan_command_under_seatbelt(
    command: Vec<String>,
    sandbox_policy: &SandboxPolicy,
    cwd: String,
    stdio_policy: StdioPolicy,
    env: Vec<(String, String)>,
    base_policy: &str,
) -> (r: LaunchSpec)
    ensures
        r@ == launch_spec(
            MACOS_PATH_TO_SEATBELT_EXECUTABLE@,
            seatbelt_args(
                texts(command@),
                base_policy@,
                sandbox_policy.full_disk_read,
                sandbox_policy.full_disk_write,
                resolved_roots(sandbox_policy.writable_roots@, cwd@),
                sandbox_policy.full_network,
            ),
            None,
            cwd@,
            sandbox_policy.full_network,
            stdio_policy,
            env_map(env@),
        ),
{
    let args = create_seatbelt_command_args(command, sandbox_policy, cwd.as_str(), base_policy);
    build_launch_spec(
        MACOS_PATH_TO_SEATBELT_EXECUTABLE.to_owned(),
        args,
        None,
        cwd,
        sandbox_policy,
        stdio_policy,
        env,
    )
}

/// Describes the child that runs a command under the Linux sandbox helper
/// found at `codex_linux_sandbox_exe`.
pub fn plan_command_under_linux_sandbox(
    codex_linux_sandbox_exe: &str,
    command: Vec<String>,
    sandbox_policy: &SandboxPolicy,
    cwd: String,
    stdio_policy: StdioPolicy,
    env: Vec<(String, String)>,
) -> (r: LaunchSpec)
    ensures
        r@ == launch_spec(
            codex_linux_sandbox_exe@,
            linux_sandbox_args(
                texts(command@),
                sandbox_policy.full_disk_read,
                sandbox_policy.full_disk_write,
                resolved_roots(sandbox_policy.writable_roots@, cwd@),
                sandbox_policy.full_network,
                cwd@,
            ),
            Some(LINUX_SANDBOX_ARG0@),
            cwd@,
            sandbox_policy.full_network,
            stdio_policy,
            env_map(env@),
        ),
{
    let args = create_linux_sandbox_command_args(command, sandbox_policy, cwd.as_str());
    build_launch_spec(
        codex_linux_sandbox_exe.to_owned(),
        args,
        Some(LINUX_SANDBOX_ARG0),
        cwd,
        sandbox_policy,
        stdio_policy,
        env,
    )
}

/// The views of a planning result.
pub open spec fn plan_view(r: Result<LaunchSpec, CodexErr>) -> Result<LaunchSpecView, CodexErrView> {
    match r {
        Ok(spec) => Ok(spec@),
        Err(e) => Err(e@),
    }
}

/// The arguments of a restricted Windows shell: the switch that makes the
/// shell run a script, the script in Windows notation, and the command.
pub open spec fn win64_args(
    switch: Seq<char>,
    script: Seq<char>,
    command: Seq<Seq<char>>,
) -> Seq<Seq<char>> {
    seq![switch, path_for(script, Platform::Windows)] + command
}

/// Describes the child of a restricted Windows shell.
fn plan_windows_shell(
    program: &str,
    switch: &str,
    script: &str,
    command: Vec<String>,
    sandbox_policy: &SandboxPolicy,
    cwd: String,
    stdio_policy: StdioPolicy,
    env: Vec<(String, String)>,
    platform: Platform,
) -> (r: Result<LaunchSpec, CodexErr>)
    ensures
        plan_view(r) == if platform == Platform::Windows {
            Ok::<LaunchSpecView, CodexErrView>(
                launch_spec(
                    program@,
                    win64_args(switch@, script@, texts(command@)),
                    None,
                    cwd@,
                    sandbox_policy.full_network,
                    stdio_policy,
                    env_map(env@),
                ),
            )
        } else {
            Err::<LaunchSpecView, CodexErrView>(CodexErrView::UnsupportedPlatform)
        },
{
    match platform {
        Platform::Windows => {},
        _ => {
            return Err(CodexErr::UnsupportedPlatform);
        },
    }
    let mut args: Vec<String> = Vec::new();
    push_text(&mut args, switch.to_owned());
    push_text(&mut args, normalize_path(script, Platform::Windows));
    let ghost head = args@;
    let ghost given = command@;
    let mut command = command;
    args.append(&mut command);
    proof {
        lemma_texts_add(head, given);
        assert(texts(head) == seq![switch@, path_for(script@, Platform::Windows)]);
    }
    Ok(build_launch_spec(program.to_owned(), args, None, cwd, sandbox_policy, stdio_policy, env))
}

/// Describes the child that runs a command under the restricted script of
/// the Windows command shell: `cmd.exe /C <script> <command...>`. Anywhere
/// but on Windows the backend is unsupported.
pub fn plan_command_under_win64_cmd(
    command: Vec<String>,
    sandbox_policy: &SandboxPolicy,
    cwd: String,
    stdio_policy: StdioPolicy,
    env: Vec<(String, String)>,
    platform: Platform,
    script: &str,
) -> (r: Result<LaunchSpec, CodexErr>)
    ensures
        plan_view(r) == if platform == Platform::Windows {
            Ok::<LaunchSpecView, CodexErrView>(
                launch_spec(
                    WIN64_CMD_PROGRAM@,
                    win64_args("/C"@, script@, texts(command@)),
                    None,
                    cwd@,
                    sandbox_policy.full_network,
                    stdio_policy,
                    env_map(env@),
                ),
            )
        } else {
            Err::<LaunchSpecView, CodexErrView>(CodexErrView::UnsupportedPlatform)
        },
{
    plan_windows_shell(
        WIN64_CMD_PROGRAM,
        "/C",
        script,
        command,
        sandbox_policy,
        cwd,
        stdio_policy,
        env,
        platform,
    )
}

/// Describes the child that runs a command under the restricted script of
/// PowerShell: `powershell.exe -File <script> <command...>`. Anywhere but
/// on Windows the backend is unsupported.
pub fn plan_command_under_win64_ps(
    command: Vec<String>,
    sandbox_policy: &SandboxPolicy,
    cwd: String,
    stdio_policy: StdioPolicy,
    env: Vec<(String, String)>,
    platform: Platform,
    script: &str,
) -> (r: Result<LaunchSpec, CodexErr>)
    ensures
        plan_view(r) == if platform == Platform::Windows {
            Ok::<LaunchSpecView, CodexErrView>(
                launch_spec(
                    WIN64_PS_PROGRAM@,
                    win64_args("-File"@, script@, texts(command@)),
                    None,
                    cwd@,
                    sandbox_policy.full_network,
                    stdio_policy,
                    env_map(env@),
                ),
            )
        } else {
            Err::<LaunchSpecView, CodexErrView>(CodexErrView::UnsupportedPlatform)
        },
{
    plan_windows_shell(
        WIN64_PS_PROGRAM,
        "-File",
        script,
        command,
        sandbox_policy,
        cwd,
        stdio_policy,
        env,
        platform,
    )
}

/// Describes the child that runs a command without a sandbox: the first
/// word is the program, the others are its arguments. An empty command is
/// refused as invalid input.
pub fn plan_unsandboxed_command(
    command: Vec<String>,
    sandbox_policy: &SandboxPolicy,
    cwd: String,
    stdio_policy: StdioPolicy,
    env: Vec<(String, String)>,
) -> (r: Result<LaunchSpec, CodexErr>)
    ensures
        plan_view(r) == if command@.len() == 0 {
            Err::<LaunchSpecView, CodexErrView>(
                CodexErrView::Io(
                    IoFailureView {
                        kind: IoFailureKind::InvalidInput,
                        message: "command args are empty"@,
                    },
                ),
            )
        } else {
            Ok::<LaunchSpecView, CodexErrView>(
                launch_spec(
                    command@[0]@,
                    texts(command@).skip(1),
                    None,
                    cwd@,
                    sandbox_policy.full_network,
                    stdio_policy,
                    env_map(env@),
                ),
            )
        },
{
    if command.len() == 0 {
        return Err(
            CodexErr::Io(
                IoFailure {
                    kind: IoFailureKind::InvalidInput,
                    message: "command args are empty".to_owned(),
                },
            ),
        );
    }
    let mut command = command;
    let ghost given = command@;
    let program = command.remove(0);
    proof {
        assert(texts(command@) =~= texts(given).skip(1));
    }
    Ok(build_launch_spec(program, command, None, cwd, sandbox_policy, stdio_policy, env))
}

} // verus!
