//! The data of one tool call and the pure decisions around it: which backend
//! runs the command, how an exit is classified, and how text is decoded.

use vstd::prelude::*;
use vstd::string::*;
use crate::error::{CodexErr, CodexErrView, SandboxErr, SandboxErrView};
use crate::text::{
    after_last, ascii_lower, ascii_lowercase, contains_text, push_char, str_contains, str_eq,
    to_ascii_lower,
};
use vstd::utf8::{decode_utf8, valid_utf8};
use crate::translation::{CommandTranslationResult, CommandTranslationResultView, opt_translation};
use std::time::Duration;

verus! {

/// Most bytes kept of each output stream.
pub const MAX_STREAM_OUTPUT: usize = 10 * 1024;

/// Most newlines kept of each output stream.
pub const MAX_STREAM_OUTPUT_LINES: usize = 256;

/// The time limit of a command that names none, in milliseconds.
pub const DEFAULT_TIMEOUT_MS: u64 = 10_000;

/// The number of the signal that kills a command on cancellation.
pub const SIGKILL_CODE: i32 = 9;

/// The number that marks a timeout in exit statuses.
pub const TIMEOUT_CODE: i32 = 64;

/// Set to `"1"` in the child's environment whenever the policy denies
/// network access.
pub const CODEX_SANDBOX_NETWORK_DISABLED_ENV_VAR: &'static str = "CODEX_SANDBOX_NETWORK_DISABLED";

/// The sandbox state in which no real sandbox is in force.
pub const CODEX_BLACK_BOX_SANDBOX_STATE: i32 = 0;

/// The sandbox state that routes commands through the loopback exchange.
pub const CODEX_API_SANDBOX_STATE: i32 = 1;

/// The sandbox state of the Windows command shell.
pub const CODEX_WINDOWS_CMD_SANDBOX_STATE: i32 = 2;

/// The sandbox state of Windows PowerShell.
pub const CODEX_WINDOWS_PS_SANDBOX_STATE: i32 = 3;

/// The sandbox state of a Linux shell (also under Windows).
pub const CODEX_LINUX_SHELL_SANDBOX_STATE: i32 = 4;

/// The sandbox state of macOS.
pub const CODEX_MACOS_SANDBOX_STATE: i32 = 5;

/// One command to run.
#[derive(Clone, Debug, PartialEq, Eq)]
pub struct ExecParams {
    /// The program and its arguments; never empty.
    pub command: Vec<String>,
    /// The working directory.
    pub cwd: String,
    /// The time limit in milliseconds; [`DEFAULT_TIMEOUT_MS`] when absent.
    pub timeout_ms: Option<u64>,
    /// The environment of the child: the variables that these entries
    /// define, a later entry for a name replacing an earlier one.
    pub env: Vec<(String, String)>,
}

/// The strategies that constrain what a spawned process may access.
#[derive(Clone, Copy, Debug, PartialEq, Eq, Structural)]
pub enum SandboxType {
    /// The command runs without any sandbox.
    Unsandboxed,
    /// No process is created; the call is answered in-process.
    BlackBox,
    /// Only available on macOS.
    MacosSeatbelt,
    /// Only available on Linux.
    LinuxSeccomp,
    /// Windows command shell sandbox.
    Win64Cmd,
    /// Windows PowerShell sandbox.
    Win64Ps,
    /// Loopback exchange, the same on every platform.
    Api,
}

/// How the standard streams of a child are wired.
#[derive(Clone, Copy, Debug, PartialEq, Eq, Structural)]
pub enum StdioPolicy {
    /// No stdin; stdout and stderr captured.
    RedirectForShellTool,
    /// All three streams passed through from the parent.
    Inherit,
}

/// How a command ended: exactly one of four ways.
#[derive(Clone, Copy, Debug, PartialEq, Eq, Structural)]
pub enum ExitOutcome {
    /// The process exited by itself with this code.
    Exited(i32),
    /// The operating system ended the process with this signal.
    Signaled(i32),
    /// The time limit passed and the engine killed the process.
    TimedOut,
    /// The caller cancelled and the engine killed the process.
    Killed,
}

/// What a backend hands back before classification.
#[derive(Clone, Debug, PartialEq, Eq)]
pub struct RawExecToolCallOutput {
    pub exit_status: ExitOutcome,
    pub stdout: Vec<u8>,
    pub stderr: Vec<u8>,
    pub translation_result: Option<CommandTranslationResult>,
}

/// The mathematical content of a [`RawExecToolCallOutput`].
pub struct RawExecToolCallOutputView {
    pub exit_status: ExitOutcome,
    pub stdout: Seq<u8>,
    pub stderr: Seq<u8>,
    pub translation_result: Option<CommandTranslationResultView>,
}

impl View for RawExecToolCallOutput {
    type V = RawExecToolCallOutputView;

    open spec fn view(&self) -> RawExecToolCallOutputView {
        RawExecToolCallOutputView {
            exit_status: self.exit_status,
            stdout: self.stdout@,
            stderr: self.stderr@,
            translation_result: opt_translation(self.translation_result),
        }
    }
}

/// The result of a tool call that ran to a normal exit.
#[derive(Debug)]
pub struct ExecToolCallOutput {
    pub exit_code: i32,
    pub stdout: String,
    pub stderr: String,
    pub duration: Duration,
    pub translation_result: Option<CommandTranslationResult>,
}

/// The mathematical content of an [`ExecToolCallOutput`].
pub struct ExecToolCallOutputView {
    pub exit_code: i32,
    pub stdout: Seq<char>,
    pub stderr: Seq<char>,
    pub duration: Duration,
    pub translation_result: Option<CommandTranslationResultView>,
}

impl View for ExecToolCallOutput {
    type V = ExecToolCallOutputView;

    open spec fn view(&self) -> ExecToolCallOutputView {
        ExecToolCallOutputView {
            exit_code: self.exit_code,
            stdout: self.stdout@,
            stderr: self.stderr@,
            duration: self.duration,
            translation_result: opt_translation(self.translation_result),
        }
    }
}


/// The operating system the engine runs on.
#[derive(Clone, Copy, Debug, PartialEq, Eq, Structural)]
pub enum Platform {
    Windows,
    Linux,
    Macos,
    Other,
}

/// The process-wide facts that decide which sandbox is in force, gathered
/// once by the caller and handed to every decision that depends on them.
#[derive(Clone, Debug, PartialEq, Eq)]
pub struct SandboxEnvironment {
    /// The override that routes commands through the loopback exchange.
    pub api_sandbox_enabled: bool,
    /// The override that answers every command in-process.
    pub black_box_sandbox_enabled: bool,
    /// The operating system.
    pub platform: Platform,
    /// The value of `COMSPEC`, empty when unset.
    pub comspec: String,
    /// The value of `SHELL`, empty when unset.
    pub shell: String,
}

/// The name of the Windows shell that the two variables point to.
pub open spec fn windows_shell_name(comspec: Seq<char>, shell: Seq<char>) -> Seq<char> {
    if contains_text(comspec, "powershell"@) {
        "powershell"@
    } else if contains_text(comspec, "cmd"@) {
        "cmd"@
    } else if contains_text(shell, "bash"@) {
        "bash for windows"@
    } else if contains_text(shell, "wsl"@) {
        "wsl"@
    } else {
        "unknown shell"@
    }
}

/// Names the Windows shell in use from the values of `COMSPEC` and `SHELL`.
pub fn detect_windows_shell(comspec: &str, shell: &str) -> (r: String)
    ensures
        r@ == windows_shell_name(comspec@, shell@),
{
    if str_contains(comspec, "powershell") {
        "powershell".to_owned()
    } else if str_contains(comspec, "cmd") {
        "cmd".to_owned()
    } else if str_contains(shell, "bash") {
        "bash for windows".to_owned()
    } else if str_contains(shell, "wsl") {
        "wsl".to_owned()
    } else {
        "unknown shell".to_owned()
    }
}

/// The sandbox state of an environment: the loopback override first, then
/// the in-process override, then what the platform offers.
pub open spec fn sandbox_state(
    api: bool,
    black_box: bool,
    platform: Platform,
    comspec: Seq<char>,
    shell: Seq<char>,
) -> i32 {
    if api {
        CODEX_API_SANDBOX_STATE
    } else if black_box {
        CODEX_BLACK_BOX_SANDBOX_STATE
    } else {
        match platform {
            Platform::Windows => {
                if contains_text(comspec, "powershell"@) {
                    CODEX_WINDOWS_PS_SANDBOX_STATE
                } else if contains_text(comspec, "cmd"@) {
                    CODEX_WINDOWS_CMD_SANDBOX_STATE
                } else if contains_text(shell, "bash"@) || contains_text(shell, "wsl"@) {
                    CODEX_LINUX_SHELL_SANDBOX_STATE
                } else {
                    CODEX_BLACK_BOX_SANDBOX_STATE
                }
            },
            Platform::Linux => CODEX_LINUX_SHELL_SANDBOX_STATE,
            Platform::Macos => CODEX_MACOS_SANDBOX_STATE,
            Platform::Other => CODEX_BLACK_BOX_SANDBOX_STATE,
        }
    }
}

impl SandboxEnvironment {
    /// The sandbox state of this environment.
    pub open spec fn state(&self) -> i32 {
        sandbox_state(
            self.api_sandbox_enabled,
            self.black_box_sandbox_enabled,
            self.platform,
            self.comspec@,
            self.shell@,
        )
    }
}

/// Determines the active sandbox state.
pub fn determine_sandbox_state(env: &SandboxEnvironment) -> (r: i32)
    ensures
        r == env.state(),
        0 <= r <= 5,
{
    if env.api_sandbox_enabled {
        CODEX_API_SANDBOX_STATE
    } else if env.black_box_sandbox_enabled {
        CODEX_BLACK_BOX_SANDBOX_STATE
    } else {
        match env.platform {
            Platform::Windows => {
                let name = detect_windows_shell(env.comspec.as_str(), env.shell.as_str());
                proof {
                    lemma_shell_names_differ();
                }
                if str_eq(name.as_str(), "cmd") {
                    CODEX_WINDOWS_CMD_SANDBOX_STATE
                } else if str_eq(name.as_str(), "powershell") {
                    CODEX_WINDOWS_PS_SANDBOX_STATE
                } else if str_eq(name.as_str(), "wsl") || str_eq(name.as_str(), "bash for windows") {
                    CODEX_LINUX_SHELL_SANDBOX_STATE
                } else {
                    CODEX_BLACK_BOX_SANDBOX_STATE
                }
            },
            Platform::Linux => CODEX_LINUX_SHELL_SANDBOX_STATE,
            Platform::Macos => CODEX_MACOS_SANDBOX_STATE,
            Platform::Other => CODEX_BLACK_BOX_SANDBOX_STATE,
        }
    }
}

/// The five shell names are pairwise different.
proof fn lemma_shell_names_differ()
    ensures
        "powershell"@ != "cmd"@,
        "powershell"@ != "bash for windows"@,
        "powershell"@ != "wsl"@,
        "powershell"@ != "unknown shell"@,
        "cmd"@ != "bash for windows"@,
        "cmd"@ != "wsl"@,
        "cmd"@ != "unknown shell"@,
        "bash for windows"@ != "wsl"@,
        "bash for windows"@ != "unknown shell"@,
        "wsl"@ != "unknown shell"@,
{
    reveal_strlit("powershell");
    reveal_strlit("cmd");
    reveal_strlit("bash for windows");
    reveal_strlit("wsl");
    reveal_strlit("unknown shell");
    assert("powershell"@.len() == 10);
    assert("cmd"@.len() == 3);
    assert("bash for windows"@.len() == 16);
    assert("wsl"@.len() == 3);
    assert("unknown shell"@.len() == 13);
    assert("cmd"@[0] == 'c');
    assert("wsl"@[0] == 'w');
}

/// Whether a lower-case program name is one of the known interpreters.
pub open spec fn is_interpreter_name(name: Seq<char>) -> bool {
    ||| name == "sh"@
    ||| name == "bash"@
    ||| name == "zsh"@
    ||| name == "cmd"@
    ||| name == "powershell"@
    ||| name == "pwsh"@
    ||| name == "python"@
    ||| name == "python3"@
    ||| name == "node"@
    ||| name == "perl"@
}

/// The lower-case file name of a program path: what follows its last `/`.
pub open spec fn program_name(program: Seq<char>) -> Seq<char> {
    ascii_lowercase(after_last(program, '/'))
}

/// Whether the program is a shell or script interpreter, judged by the
/// file name of its path without regard to case.
pub fn is_interpreter(program: &str) -> (r: bool)
    ensures
        r == is_interpreter_name(program_name(program@)),
{
    let mut name = String::new();
    for c in it: program.chars()
        invariant
            it.seq() == program@,
            name@ == program_name(program@.take(it.index())),
    {
        proof {
            let i = it.index();
            let before = program@.take(i);
            let now = program@.take(i + 1);
            assert(now.drop_last() == before);
            assert(now.last() == c);
            if c != '/' {
                assert(ascii_lowercase(after_last(before, '/').push(c)) =~= ascii_lowercase(
                    after_last(before, '/'),
                ).push(ascii_lower(c)));
            } else {
                assert(ascii_lowercase(Seq::<char>::empty()) =~= Seq::<char>::empty());
            }
        }
        if c == '/' {
            name = String::new();
        } else {
            push_char(&mut name, to_ascii_lower(c));
        }
    }
    proof {
        assert(program@.take(program@.len() as int) == program@);
        assert(ascii_lowercase(Seq::<char>::empty()) =~= Seq::<char>::empty());
    }
    let n = name.as_str();
    str_eq(n, "sh") || str_eq(n, "bash") || str_eq(n, "zsh") || str_eq(n, "cmd") || str_eq(
        n,
        "powershell",
    ) || str_eq(n, "pwsh") || str_eq(n, "python") || str_eq(n, "python3") || str_eq(n, "node")
        || str_eq(n, "perl")
}

/// The text that a lossy UTF-8 decoding of `bytes` yields.
pub uninterp spec fn utf8_lossy(bytes: Seq<u8>) -> Seq<char>;

/// Decodes bytes as UTF-8, replacing what is not.
///
/// Trusted: wraps `String::from_utf8_lossy`. Its result depends on the bytes
/// alone, and its documentation states that valid UTF-8 is decoded as it
/// stands (every invalid sequence becomes U+FFFD, which is left to the name).
#[verifier::external_body]
pub(crate) fn decode_lossy(bytes: &[u8]) -> (r: String)
    ensures
        r@ == utf8_lossy(bytes@),
        valid_utf8(bytes@) ==> r@ == decode_utf8(bytes@),
{
    String::from_utf8_lossy(bytes).into_owned()
}

/// The exit code that stands for an outcome where only a number can be
/// handed on: the code of an exit as it is, and 128 plus the number of the
/// signal, of the timeout mark or of the kill signal for the others (the
/// largest code at most).
pub open spec fn exit_code_of(outcome: ExitOutcome) -> int {
    match outcome {
        ExitOutcome::Exited(code) => code as int,
        ExitOutcome::Signaled(n) => if 128 + n <= i32::MAX {
            128 + n
        } else {
            i32::MAX as int
        },
        ExitOutcome::TimedOut => 128 + TIMEOUT_CODE,
        ExitOutcome::Killed => 128 + SIGKILL_CODE,
    }
}

/// The exit code that stands for an outcome.
pub fn synthetic_exit_code(outcome: ExitOutcome) -> (r: i32)
    ensures
        r == exit_code_of(outcome),
        outcome is TimedOut ==> r == 192,
        outcome is Killed ==> r == 137,
{
    match outcome {
        ExitOutcome::Exited(code) => code,
        ExitOutcome::Signaled(n) => if n <= i32::MAX - 128 {
            128 + n
        } else {
            i32::MAX
        },
        ExitOutcome::TimedOut => 128 + TIMEOUT_CODE,
        ExitOutcome::Killed => 128 + SIGKILL_CODE,
    }
}

/// Whether a backend confines the command, so that a failure may be the
/// sandbox's doing.
pub open spec fn is_real_sandbox(sandbox_type: SandboxType) -> bool {
    sandbox_type != SandboxType::Unsandboxed && sandbox_type != SandboxType::BlackBox
}

/// How an ended command is reported, given its decoded output.
///
/// A timeout, a kill and a signal are fatal, each reported as what it is.
/// A non-zero exit under a real sandbox is a possible denial; under no
/// sandbox, or answered in-process, it is an ordinary result.
pub open spec fn classification(
    exit_status: ExitOutcome,
    stdout: Seq<char>,
    stderr: Seq<char>,
    sandbox_type: SandboxType,
    duration: Duration,
    translation_result: Option<CommandTranslationResultView>,
) -> Result<ExecToolCallOutputView, CodexErrView> {
    match exit_status {
        ExitOutcome::TimedOut => Err(CodexErrView::Sandbox(SandboxErrView::Timeout)),
        ExitOutcome::Killed => Err(CodexErrView::Sandbox(SandboxErrView::Killed)),
        ExitOutcome::Signaled(n) => Err(CodexErrView::Sandbox(SandboxErrView::Signal(n))),
        ExitOutcome::Exited(code) => {
            if code != 0 && is_real_sandbox(sandbox_type) {
                Err(CodexErrView::Sandbox(SandboxErrView::Denied(code, stdout, stderr)))
            } else {
                Ok(
                    ExecToolCallOutputView {
                        exit_code: code,
                        stdout,
                        stderr,
                        duration,
                        translation_result,
                    },
                )
            }
        },
    }
}

/// The views of a classification result.
pub open spec fn result_view(r: Result<ExecToolCallOutput, CodexErr>) -> Result<
    ExecToolCallOutputView,
    CodexErrView,
> {
    match r {
        Ok(out) => Ok(out@),
        Err(e) => Err(e@),
    }
}

/// Classifies an ended command whose output is already decoded.
pub fn classify_exit(
    exit_status: ExitOutcome,
    stdout: String,
    stderr: String,
    sandbox_type: SandboxType,
    duration: Duration,
    translation_result: Option<CommandTranslationResult>,
) -> (r: Result<ExecToolCallOutput, CodexErr>)
    ensures
        result_view(r) == classification(
            exit_status,
            stdout@,
            stderr@,
            sandbox_type,
            duration,
            opt_translation(translation_result),
        ),
{
    match exit_status {
        ExitOutcome::TimedOut => Err(CodexErr::Sandbox(SandboxErr::Timeout)),
        ExitOutcome::Killed => Err(CodexErr::Sandbox(SandboxErr::Killed)),
        ExitOutcome::Signaled(n) => Err(CodexErr::Sandbox(SandboxErr::Signal(n))),
        ExitOutcome::Exited(code) => {
            let unconfined = match sandbox_type {
                SandboxType::Unsandboxed => true,
                SandboxType::BlackBox => true,
                _ => false,
            };
            if code != 0 && !unconfined {
                Err(CodexErr::Sandbox(SandboxErr::Denied(code, stdout, stderr)))
            } else {
                Ok(
                    ExecToolCallOutput {
                        exit_code: code,
                        stdout,
                        stderr,
                        duration,
                        translation_result,
                    },
                )
            }
        },
    }
}

/// Decodes the captured streams and classifies the ended command.
pub fn classify_raw_output(
    raw: RawExecToolCallOutput,
    sandbox_type: SandboxType,
    duration: Duration,
) -> (r: Result<ExecToolCallOutput, CodexErr>)
    ensures
        result_view(r) == classification(
            raw.exit_status,
            utf8_lossy(raw.stdout@),
            utf8_lossy(raw.stderr@),
            sandbox_type,
            duration,
            opt_translation(raw.translation_result),
        ),
{
    let stdout = decode_lossy(raw.stdout.as_slice());
    let stderr = decode_lossy(raw.stderr.as_slice());
    classify_exit(raw.exit_status, stdout, stderr, sandbox_type, duration, raw.translation_result)
}

/// A timeout, a kill and a signal are errors under every backend and
/// whatever was captured; none of them is reported as a denial or a result.
pub proof fn lemma_markers_are_fatal(
    exit_status: ExitOutcome,
    stdout: Seq<char>,
    stderr: Seq<char>,
    sandbox_type: SandboxType,
    duration: Duration,
    translation_result: Option<CommandTranslationResultView>,
)
    requires
        !(exit_status is Exited),
    ensures
        classification(exit_status, stdout, stderr, sandbox_type, duration, translation_result)
            matches Err(CodexErrView::Sandbox(e)) && !(e is Denied),
        exit_status is TimedOut ==> classification(
            exit_status,
            stdout,
            stderr,
            sandbox_type,
            duration,
            translation_result,
        ) == Err::<ExecToolCallOutputView, CodexErrView>(
            CodexErrView::Sandbox(SandboxErrView::Timeout),
        ),
{
}

/// The report tells how the command ended: two different endings never
/// get the same report, so an exit code, a signal, a timeout and a
/// cancellation stay apart for the caller.
pub proof fn lemma_outcomes_stay_apart(
    a: ExitOutcome,
    b: ExitOutcome,
    stdout: Seq<char>,
    stderr: Seq<char>,
    sandbox_type: SandboxType,
    duration: Duration,
    translation_result: Option<CommandTranslationResultView>,
)
    requires
        a != b,
    ensures
        classification(a, stdout, stderr, sandbox_type, duration, translation_result)
            != classification(b, stdout, stderr, sandbox_type, duration, translation_result),
{
}

/// Without a real sandbox nothing is ever reported as a denial.
pub proof fn lemma_no_denial_without_sandbox(
    exit_status: ExitOutcome,
    stdout: Seq<char>,
    stderr: Seq<char>,
    sandbox_type: SandboxType,
    duration: Duration,
    translation_result: Option<CommandTranslationResultView>,
)
    requires
        !is_real_sandbox(sandbox_type),
    ensures
        !(classification(exit_status, stdout, stderr, sandbox_type, duration, translation_result)
            matches Err(CodexErrView::Sandbox(SandboxErrView::Denied(_, _, _)))),
{
}

} // verus!
