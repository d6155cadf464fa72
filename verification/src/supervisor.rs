//! The supervision of one tool call: which backend runs it, what is to be
//! started, and how the race between exit, time limit and cancellation ends.
//!
//! The supervisor never waits or reads itself. It says what is to be done
//! next and is told what came of it; whoever drives it performs the action.

use vstd::prelude::*;
use vstd::string::*;
use crate::api::{api_command_line, api_mode, leading_token, ApiMode};
use crate::backend::{
    linux_sandbox_args, plan_command_under_linux_sandbox, plan_command_under_seatbelt,
    plan_command_under_win64_cmd, plan_command_under_win64_ps, plan_unsandboxed_command,
    seatbelt_args, win64_args, LINUX_SANDBOX_ARG0, MACOS_PATH_TO_SEATBELT_EXECUTABLE,
    WIN64_CMD_PROGRAM, WIN64_PS_PROGRAM,
};
use crate::black_box::{
    black_box_plan, plan_command_under_black_box, raw_result_view, BlackBoxPlan, BlackBoxPlanView,
};
use crate::collector::{capped, count_newlines, read_capped, concat_chunks};
use crate::error::{
    CodexErr, CodexErrView, IoFailure, IoFailureKind, IoFailureView, SandboxErrView,
};
use crate::exec::{
    classification, is_interpreter_name, program_name, ExecParams, ExecToolCallOutputView,
    ExitOutcome, Platform, RawExecToolCallOutput, RawExecToolCallOutputView, SandboxEnvironment,
    SandboxType, StdioPolicy, DEFAULT_TIMEOUT_MS, MAX_STREAM_OUTPUT, MAX_STREAM_OUTPUT_LINES,
};
use crate::internal_commands::{internal_command_names, is_internal_command, InternalCommand};
use crate::launcher::{env_map, launch_spec, LaunchSpec, LaunchSpecView};
use crate::protocol::{resolved_roots, SandboxPolicy};
use crate::text::{join, texts};
use crate::translation::{
    opt_text, opt_translation, CommandTranslationResult, CommandTranslationResultView,
};
use std::time::Duration;

verus! {

/// The backend that runs a command: the in-process one if its override is
/// on or the first word of the command is built in, and the requested one
/// otherwise.
pub open spec fn effective_backend(
    command: Seq<Seq<char>>,
    requested: SandboxType,
    black_box_override: bool,
) -> SandboxType {
    if black_box_override || internal_command_names().contains(leading_token(command)) {
        SandboxType::BlackBox
    } else {
        requested
    }
}

/// Resolves the backend that runs a command.
pub fn resolve_backend(command: &Vec<String>, requested: SandboxType, env: &SandboxEnvironment) -> (r:
    SandboxType)
    ensures
        r == effective_backend(texts(command@), requested, env.black_box_sandbox_enabled),
{
    proof {
        reveal_strlit("");
        assert(""@ == Seq::<char>::empty());
        if command@.len() > 0 {
            assert(texts(command@)[0] == command@[0]@);
        }
    }
    let built_in = if command.len() > 0 {
        is_internal_command(command[0].as_str())
    } else {
        is_internal_command("")
    };
    if built_in || env.black_box_sandbox_enabled {
        SandboxType::BlackBox
    } else {
        requested
    }
}

/// The time limit of a call in milliseconds.
pub open spec fn effective_timeout(timeout_ms: Option<u64>) -> u64 {
    match timeout_ms {
        Some(ms) => ms,
        None => DEFAULT_TIMEOUT_MS,
    }
}

/// The texts that the backends are built from and that the engine does not
/// make up itself.
#[derive(Clone, Debug, PartialEq, Eq)]
pub struct BackendAssets {
    /// The base policy of the macOS sandbox profile.
    pub seatbelt_base_policy: String,
    /// The path of the restricted script of the Windows command shell.
    pub win64_cmd_script: String,
    /// The path of the restricted script of PowerShell.
    pub win64_ps_script: String,
}

/// What is to be done for a call.
#[derive(Debug)]
pub enum ExecPlan {
    /// Nothing: this is the result.
    Synthetic(RawExecToolCallOutput),
    /// Ask the handler of a built-in command.
    Internal {
        command: InternalCommand,
        args: Vec<String>,
        cwd: String,
        translation_result: Option<CommandTranslationResult>,
    },
    /// Start this child and supervise it under the time limit.
    Launch {
        spec: LaunchSpec,
        timeout_ms: u64,
        translation_result: Option<CommandTranslationResult>,
    },
    /// Exchange the command line with the loopback peer; nothing is run.
    ApiExchange { command_line: String, translation_result: Option<CommandTranslationResult> },
    /// Start this child and run the loopback handshake beside it.
    ApiSpawn {
        spec: LaunchSpec,
        command_line: String,
        timeout_ms: u64,
        translation_result: Option<CommandTranslationResult>,
    },
}

/// The mathematical content of an [`ExecPlan`].
pub enum ExecPlanView {
    Synthetic(RawExecToolCallOutputView),
    Internal {
        command: InternalCommand,
        args: Seq<Seq<char>>,
        cwd: Seq<char>,
        translation_result: Option<CommandTranslationResultView>,
    },
    Launch {
        spec: LaunchSpecView,
        timeout_ms: u64,
        translation_result: Option<CommandTranslationResultView>,
    },
    ApiExchange { command_line: Seq<char>, translation_result: Option<CommandTranslationResultView> },
    ApiSpawn {
        spec: LaunchSpecView,
        command_line: Seq<char>,
        timeout_ms: u64,
        translation_result: Option<CommandTranslationResultView>,
    },
}

impl View for ExecPlan {
    type V = ExecPlanView;

    open spec fn view(&self) -> ExecPlanView {
        match self {
            ExecPlan::Synthetic(raw) => ExecPlanView::Synthetic(raw@),
            ExecPlan::Internal { command, args, cwd, translation_result } => ExecPlanView::Internal {
                command: *command,
                args: texts(args@),
                cwd: cwd@,
                translation_result: opt_translation(*translation_result),
            },
            ExecPlan::Launch { spec, timeout_ms, translation_result } => ExecPlanView::Launch {
                spec: spec@,
                timeout_ms: *timeout_ms,
                translation_result: opt_translation(*translation_result),
            },
            ExecPlan::ApiExchange { command_line, translation_result } => ExecPlanView::ApiExchange {
                command_line: command_line@,
                translation_result: opt_translation(*translation_result),
            },
            ExecPlan::ApiSpawn {
                spec,
                command_line,
                timeout_ms,
                translation_result,
            } => ExecPlanView::ApiSpawn {
                spec: spec@,
                command_line: command_line@,
                timeout_ms: *timeout_ms,
                translation_result: opt_translation(*translation_result),
            },
        }
    }
}

/// The views of a planning result.
pub open spec fn exec_plan_view(r: Result<ExecPlan, CodexErr>) -> Result<ExecPlanView, CodexErrView> {
    match r {
        Ok(plan) => Ok(plan@),
        Err(e) => Err(e@),
    }
}

/// The child that runs a command as it stands: the first word is the
/// program, the rest are its arguments.
pub open spec fn plain_launch(
    command: Seq<Seq<char>>,
    cwd: Seq<char>,
    full_network: bool,
    env: Map<Seq<char>, Seq<char>>,
) -> LaunchSpecView {
    launch_spec(
        command[0],
        command.skip(1),
        None,
        cwd,
        full_network,
        StdioPolicy::RedirectForShellTool,
        env,
    )
}

/// What is to be done for a non-empty command under a backend.
pub open spec fn exec_plan(
    command: Seq<Seq<char>>,
    cwd: Seq<char>,
    timeout_ms: Option<u64>,
    env: Map<Seq<char>, Seq<char>>,
    sandbox_type: SandboxType,
    policy: SandboxPolicy,
    linux_sandbox_exe: Option<Seq<char>>,
    platform: Platform,
    assets: BackendAssets,
    translation_result: Option<CommandTranslationResultView>,
) -> Result<ExecPlanView, CodexErrView> {
    let timeout = effective_timeout(timeout_ms);
    let roots = resolved_roots(policy.writable_roots@, cwd);
    match sandbox_type {
        SandboxType::Unsandboxed => Ok(
            ExecPlanView::Launch {
                spec: plain_launch(command, cwd, policy.full_network, env),
                timeout_ms: timeout,
                translation_result,
            },
        ),
        SandboxType::BlackBox => Ok(
            match black_box_plan(command, translation_result) {
                BlackBoxPlanView::Synthetic(raw) => ExecPlanView::Synthetic(raw),
                BlackBoxPlanView::Internal { command, args } => ExecPlanView::Internal {
                    command,
                    args,
                    cwd,
                    translation_result,
                },
            },
        ),
        SandboxType::MacosSeatbelt => if platform == Platform::Windows {
            Err(CodexErrView::UnsupportedPlatform)
        } else {
            Ok(
                ExecPlanView::Launch {
                    spec: launch_spec(
                        MACOS_PATH_TO_SEATBELT_EXECUTABLE@,
                        seatbelt_args(
                            command,
                            assets.seatbelt_base_policy@,
                            policy.full_disk_read,
                            policy.full_disk_write,
                            roots,
                            policy.full_network,
                        ),
                        None,
                        cwd,
                        policy.full_network,
                        StdioPolicy::RedirectForShellTool,
                        env,
                    ),
                    timeout_ms: timeout,
                    translation_result,
                },
            )
        },
        SandboxType::LinuxSeccomp => match linux_sandbox_exe {
            None => Err(CodexErrView::LandlockSandboxExecutableNotProvided),
            Some(exe) => Ok(
                ExecPlanView::Launch {
                    spec: launch_spec(
                        exe,
                        linux_sandbox_args(
                            command,
                            policy.full_disk_read,
                            policy.full_disk_write,
                            roots,
                            policy.full_network,
                            cwd,
                        ),
                        Some(LINUX_SANDBOX_ARG0@),
                        cwd,
                        policy.full_network,
                        StdioPolicy::RedirectForShellTool,
                        env,
                    ),
                    timeout_ms: timeout,
                    translation_result,
                },
            ),
        },
        SandboxType::Win64Cmd => if platform == Platform::Windows {
            Ok(
                ExecPlanView::Launch {
                    spec: launch_spec(
                        WIN64_CMD_PROGRAM@,
                        win64_args("/C"@, assets.win64_cmd_script@, command),
                        None,
                        cwd,
                        policy.full_network,
                        StdioPolicy::RedirectForShellTool,
                        env,
                    ),
                    timeout_ms: timeout,
                    translation_result,
                },
            )
        } else {
            Err(CodexErrView::UnsupportedPlatform)
        },
        SandboxType::Win64Ps => if platform == Platform::Windows {
            Ok(
                ExecPlanView::Launch {
                    spec: launch_spec(
                        WIN64_PS_PROGRAM@,
                        win64_args("-File"@, assets.win64_ps_script@, command),
                        None,
                        cwd,
                        policy.full_network,
                        StdioPolicy::RedirectForShellTool,
                        env,
                    ),
                    timeout_ms: timeout,
                    translation_result,
                },
            )
        } else {
            Err(CodexErrView::UnsupportedPlatform)
        },
        SandboxType::Api => if is_interpreter_name(program_name(command[0])) {
            Ok(
                ExecPlanView::ApiSpawn {
                    spec: plain_launch(command, cwd, policy.full_network, env),
                    command_line: join(command, " "@),
                    timeout_ms: timeout,
                    translation_result,
                },
            )
        } else {
            Ok(ExecPlanView::ApiExchange { command_line: join(command, " "@), translation_result })
        },
    }
}

/// Says what is to be done for a command under the given backend: the
/// result itself where no process is involved, the child to start where one
/// is, or why the backend cannot be had. Children have their output
/// captured; the time limit is the one of the call or the default.
pub fn plan_exec_tool_call(
    params: ExecParams,
    sandbox_type: SandboxType,
    sandbox_policy: &SandboxPolicy,
    codex_linux_sandbox_exe: &Option<String>,
    platform: Platform,
    assets: &BackendAssets,
    translation_result: Option<CommandTranslationResult>,
) -> (r: Result<ExecPlan, CodexErr>)
    requires
        params.command@.len() > 0,
    ensures
        exec_plan_view(r) == exec_plan(
            texts(params.command@),
            params.cwd@,
            params.timeout_ms,
            env_map(params.env@),
            sandbox_type,
            *sandbox_policy,
            opt_text(*codex_linux_sandbox_exe),
            platform,
            *assets,
            opt_translation(translation_result),
        ),
{
    let timeout_ms = match params.timeout_ms {
        Some(ms) => ms,
        None => DEFAULT_TIMEOUT_MS,
    };
    let ExecParams { command, cwd, timeout_ms: _, env } = params;
    let stdio = StdioPolicy::RedirectForShellTool;
    proof {
        assert(texts(command@)[0] == command@[0]@);
    }
    match sandbox_type {
        SandboxType::Unsandboxed => {
            match plan_unsandboxed_command(command, sandbox_policy, cwd, stdio, env) {
                Ok(spec) => Ok(ExecPlan::Launch { spec, timeout_ms, translation_result }),
                Err(e) => Err(e),
            }
        },
        SandboxType::BlackBox => {
            match plan_command_under_black_box(command, None) {
                BlackBoxPlan::Synthetic(raw) => Ok(
                    ExecPlan::Synthetic(
                        RawExecToolCallOutput {
                            exit_status: raw.exit_status,
                            stdout: raw.stdout,
                            stderr: raw.stderr,
                            translation_result,
                        },
                    ),
                ),
                BlackBoxPlan::Internal { command, args } => Ok(
                    ExecPlan::Internal { command, args, cwd, translation_result },
                ),
            }
        },
        SandboxType::MacosSeatbelt => {
            match platform {
                Platform::Windows => Err(CodexErr::UnsupportedPlatform),
                _ => {
                    let spec = plan_command_under_seatbelt(
                        command,
                        sandbox_policy,
                        cwd,
                        stdio,
                        env,
                        assets.seatbelt_base_policy.as_str(),
                    );
                    Ok(ExecPlan::Launch { spec, timeout_ms, translation_result })
                },
            }
        },
        SandboxType::LinuxSeccomp => {
            match codex_linux_sandbox_exe {
                None => Err(CodexErr::LandlockSandboxExecutableNotProvided),
                Some(exe) => {
                    let spec = plan_command_under_linux_sandbox(
                        exe.as_str(),
                        command,
                        sandbox_policy,
                        cwd,
                        stdio,
                        env,
                    );
                    Ok(ExecPlan::Launch { spec, timeout_ms, translation_result })
                },
            }
        },
        SandboxType::Win64Cmd => {
            match plan_command_under_win64_cmd(
                command,
                sandbox_policy,
                cwd,
                stdio,
                env,
                platform,
                assets.win64_cmd_script.as_str(),
            ) {
                Ok(spec) => Ok(ExecPlan::Launch { spec, timeout_ms, translation_result }),
                Err(e) => Err(e),
            }
        },
        SandboxType::Win64Ps => {
            match plan_command_under_win64_ps(
                command,
                sandbox_policy,
                cwd,
                stdio,
                env,
                platform,
                assets.win64_ps_script.as_str(),
            ) {
                Ok(spec) => Ok(ExecPlan::Launch { spec, timeout_ms, translation_result }),
                Err(e) => Err(e),
            }
        },
        SandboxType::Api => {
            let command_line = api_command_line(&command);
            match api_mode(&command) {
                ApiMode::Exchange => Ok(ExecPlan::ApiExchange { command_line, translation_result }),
                ApiMode::Spawn => {
                    match plan_unsandboxed_command(command, sandbox_policy, cwd, stdio, env) {
                        Ok(spec) => Ok(
                            ExecPlan::ApiSpawn { spec, command_line, timeout_ms, translation_result },
                        ),
                        Err(e) => Err(e),
                    }
                },
            }
        },
    }
}


/// Where the supervision of a child stands.
#[derive(Clone, Copy, Debug, PartialEq, Eq, Structural)]
pub enum SupervisorPhase {
    /// The child runs; exit, time limit and cancellation race.
    Racing,
    /// The race was lost by the child; a kill was asked for, and this is
    /// how the call will be said to have ended.
    Killing(ExitOutcome),
    /// The child is gone or going; its output is being collected.
    Draining(ExitOutcome),
    /// The result was handed out.
    Done,
}

/// The supervision of one child.
#[derive(Debug)]
pub struct ChildSupervisor {
    pub phase: SupervisorPhase,
    pub translation_result: Option<CommandTranslationResult>,
}

/// What the driver reports to the supervisor.
#[derive(Clone, Debug, PartialEq, Eq)]
pub enum ChildEvent {
    /// The child ended by itself: its exit code, or the signal that ended
    /// it, as the operating system reports them.
    ProcessExited { code: Option<i32>, signal: Option<i32> },
    /// Waiting for the child failed.
    WaitFailed(IoFailure),
    /// The time limit passed before the child ended.
    TimeoutElapsed,
    /// The caller cancelled before the child ended.
    Cancelled,
    /// The kill request was issued.
    KillIssued,
    /// The kill request failed.
    KillFailed(IoFailure),
    /// Both streams were read to their end; these are their bytes.
    Drained { stdout: Vec<u8>, stderr: Vec<u8> },
    /// Reading a stream failed.
    DrainFailed(IoFailure),
}

/// The mathematical content of a [`ChildEvent`].
pub enum ChildEventView {
    ProcessExited { code: Option<i32>, signal: Option<i32> },
    WaitFailed(IoFailureView),
    TimeoutElapsed,
    Cancelled,
    KillIssued,
    KillFailed(IoFailureView),
    Drained { stdout: Seq<u8>, stderr: Seq<u8> },
    DrainFailed(IoFailureView),
}

impl View for ChildEvent {
    type V = ChildEventView;

    open spec fn view(&self) -> ChildEventView {
        match self {
            ChildEvent::ProcessExited { code, signal } => ChildEventView::ProcessExited {
                code: *code,
                signal: *signal,
            },
            ChildEvent::WaitFailed(e) => ChildEventView::WaitFailed(e@),
            ChildEvent::TimeoutElapsed => ChildEventView::TimeoutElapsed,
            ChildEvent::Cancelled => ChildEventView::Cancelled,
            ChildEvent::KillIssued => ChildEventView::KillIssued,
            ChildEvent::KillFailed(e) => ChildEventView::KillFailed(e@),
            ChildEvent::Drained { stdout, stderr } => ChildEventView::Drained {
                stdout: stdout@,
                stderr: stderr@,
            },
            ChildEvent::DrainFailed(e) => ChildEventView::DrainFailed(e@),
        }
    }
}

/// What the driver is to do next.
#[derive(Debug)]
pub enum ChildAction {
    /// Wait until the child ends, the time limit in milliseconds passes or
    /// the caller cancels, whichever comes first, while both output streams
    /// are being read.
    Race { timeout_ms: u64 },
    /// Ask the operating system to kill the child.
    Kill,
    /// Read both output streams to their end.
    Drain,
    /// Hand out the result; the supervision is over.
    Finish(Result<RawExecToolCallOutput, CodexErr>),
}

/// The mathematical content of a [`ChildAction`].
pub enum ChildActionView {
    Race { timeout_ms: u64 },
    Kill,
    Drain,
    Finish(Result<RawExecToolCallOutputView, CodexErrView>),
}

impl View for ChildAction {
    type V = ChildActionView;

    open spec fn view(&self) -> ChildActionView {
        match self {
            ChildAction::Race { timeout_ms } => ChildActionView::Race { timeout_ms: *timeout_ms },
            ChildAction::Kill => ChildActionView::Kill,
            ChildAction::Drain => ChildActionView::Drain,
            ChildAction::Finish(r) => ChildActionView::Finish(raw_result_view(*r)),
        }
    }
}

/// How a child ended by itself: by the signal if the operating system
/// reports one, else with its exit code, and with -1 where it reports
/// neither.
pub open spec fn natural_exit(code: Option<i32>, signal: Option<i32>) -> ExitOutcome {
    match signal {
        Some(n) => ExitOutcome::Signaled(n),
        None => match code {
            Some(c) => ExitOutcome::Exited(c),
            None => ExitOutcome::Exited(-1i32),
        },
    }
}

/// Names how a child ended by itself.
pub fn exit_outcome(code: Option<i32>, signal: Option<i32>) -> (r: ExitOutcome)
    ensures
        r == natural_exit(code, signal),
        r is Exited || r is Signaled,
{
    match signal {
        Some(n) => ExitOutcome::Signaled(n),
        None => match code {
            Some(c) => ExitOutcome::Exited(c),
            None => ExitOutcome::Exited(-1),
        },
    }
}

/// The failure that answers an event which cannot occur in the phase it is
/// reported in.
pub open spec fn out_of_turn() -> CodexErrView {
    CodexErrView::Io(
        IoFailureView { kind: IoFailureKind::Other, message: "event does not fit the state"@ },
    )
}

/// What is kept of a stream of a child.
pub open spec fn kept(stream: Seq<u8>) -> Seq<u8> {
    capped(stream, MAX_STREAM_OUTPUT as nat, MAX_STREAM_OUTPUT_LINES as nat)
}

/// The next phase and the next action, given the phase and what the driver
/// reports.
///
/// While the child runs, exactly one of three things ends the race: its own
/// exit, the time limit, the cancellation. After the time limit or the
/// cancellation the child is killed before anything else, and a failed kill
/// ends the call with that failure. Then the output is collected, each
/// stream cut to its caps, and the result says how the call ended. A report
/// that does not fit the phase ends the call with a failure.
pub open spec fn supervise(
    phase: SupervisorPhase,
    translation_result: Option<CommandTranslationResultView>,
    event: ChildEventView,
) -> (SupervisorPhase, ChildActionView) {
    match (phase, event) {
        (SupervisorPhase::Racing, ChildEventView::ProcessExited { code, signal }) => (
            SupervisorPhase::Draining(natural_exit(code, signal)),
            ChildActionView::Drain,
        ),
        (SupervisorPhase::Racing, ChildEventView::WaitFailed(e)) => (
            SupervisorPhase::Done,
            ChildActionView::Finish(Err(CodexErrView::Io(e))),
        ),
        (SupervisorPhase::Racing, ChildEventView::TimeoutElapsed) => (
            SupervisorPhase::Killing(ExitOutcome::TimedOut),
            ChildActionView::Kill,
        ),
        (SupervisorPhase::Racing, ChildEventView::Cancelled) => (
            SupervisorPhase::Killing(ExitOutcome::Killed),
            ChildActionView::Kill,
        ),
        (SupervisorPhase::Killing(marker), ChildEventView::KillIssued) => (
            SupervisorPhase::Draining(marker),
            ChildActionView::Drain,
        ),
        (SupervisorPhase::Killing(_), ChildEventView::KillFailed(e)) => (
            SupervisorPhase::Done,
            ChildActionView::Finish(Err(CodexErrView::Io(e))),
        ),
        (SupervisorPhase::Draining(outcome), ChildEventView::Drained { stdout, stderr }) => (
            SupervisorPhase::Done,
            ChildActionView::Finish(
                Ok(
                    RawExecToolCallOutputView {
                        exit_status: outcome,
                        stdout: kept(stdout),
                        stderr: kept(stderr),
                        translation_result,
                    },
                ),
            ),
        ),
        (SupervisorPhase::Draining(_), ChildEventView::DrainFailed(e)) => (
            SupervisorPhase::Done,
            ChildActionView::Finish(Err(CodexErrView::Io(e))),
        ),
        _ => (SupervisorPhase::Done, ChildActionView::Finish(Err(out_of_turn()))),
    }
}

/// Cuts a stream to the caps.
fn keep(stream: Vec<u8>) -> (r: Vec<u8>)
    ensures
        r@ == kept(stream@),
{
    let mut chunks: Vec<Vec<u8>> = Vec::new();
    chunks.push(stream);
    proof {
        assert(chunks@.drop_last() == Seq::<Vec<u8>>::empty());
        assert(concat_chunks(chunks@) == stream@) by {
            assert(concat_chunks(chunks@.drop_last()) == Seq::<u8>::empty());
            assert(Seq::<u8>::empty() + stream@ == stream@);
        }
    }
    read_capped(&chunks, MAX_STREAM_OUTPUT, MAX_STREAM_OUTPUT_LINES)
}

impl ChildSupervisor {
    /// Takes over a child that was just started: the race begins, under the
    /// time limit of the call or the default.
    pub fn begin(
        timeout_ms: Option<u64>,
        translation_result: Option<CommandTranslationResult>,
    ) -> (r: (ChildSupervisor, ChildAction))
        ensures
            r.0.phase == SupervisorPhase::Racing,
            opt_translation(r.0.translation_result) == opt_translation(translation_result),
            r.1@ == (ChildActionView::Race { timeout_ms: effective_timeout(timeout_ms) }),
    {
        let limit = match timeout_ms {
            Some(ms) => ms,
            None => DEFAULT_TIMEOUT_MS,
        };
        (
            ChildSupervisor { phase: SupervisorPhase::Racing, translation_result },
            ChildAction::Race { timeout_ms: limit },
        )
    }

    /// Takes what the driver reports and says what is to be done next.
    pub fn step(self, event: ChildEvent) -> (r: (ChildSupervisor, ChildAction))
        ensures
            (r.0.phase, r.1@) == supervise(
                self.phase,
                opt_translation(self.translation_result),
                event@,
            ),
            !(r.1 is Finish) ==> opt_translation(r.0.translation_result) == opt_translation(
                self.translation_result,
            ),
    {
        let ChildSupervisor { phase, translation_result } = self;
        match phase {
            SupervisorPhase::Racing => match event {
                ChildEvent::ProcessExited { code, signal } => (
                    ChildSupervisor {
                        phase: SupervisorPhase::Draining(exit_outcome(code, signal)),
                        translation_result,
                    },
                    ChildAction::Drain,
                ),
                ChildEvent::WaitFailed(e) => finish(Err(CodexErr::Io(e))),
                ChildEvent::TimeoutElapsed => (
                    ChildSupervisor {
                        phase: SupervisorPhase::Killing(ExitOutcome::TimedOut),
                        translation_result,
                    },
                    ChildAction::Kill,
                ),
                ChildEvent::Cancelled => (
                    ChildSupervisor {
                        phase: SupervisorPhase::Killing(ExitOutcome::Killed),
                        translation_result,
                    },
                    ChildAction::Kill,
                ),
                _ => finish(Err(unexpected_event())),
            },
            SupervisorPhase::Killing(marker) => match event {
                ChildEvent::KillIssued => (
                    ChildSupervisor { phase: SupervisorPhase::Draining(marker), translation_result },
                    ChildAction::Drain,
                ),
                ChildEvent::KillFailed(e) => finish(Err(CodexErr::Io(e))),
                _ => finish(Err(unexpected_event())),
            },
            SupervisorPhase::Draining(outcome) => match event {
                ChildEvent::Drained { stdout, stderr } => finish(
                    Ok(
                        RawExecToolCallOutput {
                            exit_status: outcome,
                            stdout: keep(stdout),
                            stderr: keep(stderr),
                            translation_result,
                        },
                    ),
                ),
                ChildEvent::DrainFailed(e) => finish(Err(CodexErr::Io(e))),
                _ => finish(Err(unexpected_event())),
            },
            SupervisorPhase::Done => finish(Err(unexpected_event())),
        }
    }
}

/// The end of a supervision.
fn finish(result: Result<RawExecToolCallOutput, CodexErr>) -> (r: (ChildSupervisor, ChildAction))
    ensures
        r.0.phase == SupervisorPhase::Done,
        r.1@ == ChildActionView::Finish(raw_result_view(result)),
{
    (
        ChildSupervisor { phase: SupervisorPhase::Done, translation_result: None },
        ChildAction::Finish(result),
    )
}

/// The failure that answers an event out of turn.
fn unexpected_event() -> (r: CodexErr)
    ensures
        r@ == out_of_turn(),
{
    CodexErr::Io(
        IoFailure { kind: IoFailureKind::Other, message: "event does not fit the state".to_owned() },
    )
}

/// A child that is still running when its time limit passes is killed
/// before anything else happens, and once the kill is issued and the output
/// collected the call ends as timed out, which is always reported as a
/// timeout and never as an exit, whatever the child wrote and whatever the
/// backend.
pub proof fn lemma_timeout_kills_and_times_out(
    translation_result: Option<CommandTranslationResultView>,
    stdout: Seq<u8>,
    stderr: Seq<u8>,
    out_text: Seq<char>,
    err_text: Seq<char>,
    sandbox_type: SandboxType,
    duration: Duration,
)
    ensures
        supervise(SupervisorPhase::Racing, translation_result, ChildEventView::TimeoutElapsed) == (
            SupervisorPhase::Killing(ExitOutcome::TimedOut),
            ChildActionView::Kill,
        ),
        supervise(
            SupervisorPhase::Killing(ExitOutcome::TimedOut),
            translation_result,
            ChildEventView::KillIssued,
        ) == (SupervisorPhase::Draining(ExitOutcome::TimedOut), ChildActionView::Drain),
        supervise(
            SupervisorPhase::Draining(ExitOutcome::TimedOut),
            translation_result,
            ChildEventView::Drained { stdout, stderr },
        ).1 matches ChildActionView::Finish(Ok(raw)) && raw.exit_status == ExitOutcome::TimedOut,
        classification(
            ExitOutcome::TimedOut,
            out_text,
            err_text,
            sandbox_type,
            duration,
            translation_result,
        ) == Err::<ExecToolCallOutputView, CodexErrView>(
            CodexErrView::Sandbox(SandboxErrView::Timeout),
        ),
{
}

/// A cancellation that comes before the child ends cuts the wait short:
/// the child is killed at once, and the call ends as killed, which is
/// reported as a cancellation and never as an exit, a timeout or a signal.
pub proof fn lemma_cancellation_kills(
    translation_result: Option<CommandTranslationResultView>,
    stdout: Seq<u8>,
    stderr: Seq<u8>,
    out_text: Seq<char>,
    err_text: Seq<char>,
    sandbox_type: SandboxType,
    duration: Duration,
)
    ensures
        supervise(SupervisorPhase::Racing, translation_result, ChildEventView::Cancelled) == (
            SupervisorPhase::Killing(ExitOutcome::Killed),
            ChildActionView::Kill,
        ),
        supervise(
            SupervisorPhase::Killing(ExitOutcome::Killed),
            translation_result,
            ChildEventView::KillIssued,
        ) == (SupervisorPhase::Draining(ExitOutcome::Killed), ChildActionView::Drain),
        supervise(
            SupervisorPhase::Draining(ExitOutcome::Killed),
            translation_result,
            ChildEventView::Drained { stdout, stderr },
        ).1 matches ChildActionView::Finish(Ok(raw)) && raw.exit_status == ExitOutcome::Killed,
        classification(
            ExitOutcome::Killed,
            out_text,
            err_text,
            sandbox_type,
            duration,
            translation_result,
        ) == Err::<ExecToolCallOutputView, CodexErrView>(
            CodexErrView::Sandbox(SandboxErrView::Killed),
        ),
{
}

/// Exactly one of exit, time limit and cancellation wins the race, and the
/// winner alone decides how the call is said to have ended: an exit never
/// leads to a kill, and the two others always do.
pub proof fn lemma_one_winner(
    translation_result: Option<CommandTranslationResultView>,
    event: ChildEventView,
)
    ensures
        ({
            let (phase, action) = supervise(SupervisorPhase::Racing, translation_result, event);
            &&& action is Kill <==> (event is TimeoutElapsed || event is Cancelled)
            &&& action is Drain <==> event is ProcessExited
            &&& phase matches SupervisorPhase::Draining(outcome) ==> (outcome is Exited
                || outcome is Signaled)
            &&& !(action is Race)
        }),
{
}

/// Output is only ever collected from a child that has ended by itself or
/// that a kill was issued for: no call ends with a result while its child
/// is left running.
pub proof fn lemma_no_child_left_running(
    phase: SupervisorPhase,
    translation_result: Option<CommandTranslationResultView>,
    event: ChildEventView,
)
    ensures
        supervise(phase, translation_result, event).0 is Draining ==> (phase is Racing
            && event is ProcessExited) || (phase is Killing && event is KillIssued),
        supervise(phase, translation_result, event).1 matches ChildActionView::Finish(Ok(_))
            ==> phase is Draining,
{
}

/// A failed kill is never passed over: the call ends with that failure.
pub proof fn lemma_kill_failure_is_reported(
    marker: ExitOutcome,
    translation_result: Option<CommandTranslationResultView>,
    failure: IoFailureView,
)
    ensures
        supervise(
            SupervisorPhase::Killing(marker),
            translation_result,
            ChildEventView::KillFailed(failure),
        ) == (
            SupervisorPhase::Done,
            ChildActionView::Finish(
                Err::<RawExecToolCallOutputView, CodexErrView>(CodexErrView::Io(failure)),
            ),
        ),
{
}

/// Whatever a child writes and however the call ends, each stream of a
/// result holds no more than the byte cap and no more than the line cap.
pub proof fn lemma_results_are_capped(
    phase: SupervisorPhase,
    translation_result: Option<CommandTranslationResultView>,
    event: ChildEventView,
)
    ensures
        supervise(phase, translation_result, event).1 matches ChildActionView::Finish(Ok(raw)) ==> {
            &&& raw.stdout.len() <= MAX_STREAM_OUTPUT
            &&& count_newlines(raw.stdout) <= MAX_STREAM_OUTPUT_LINES
            &&& raw.stderr.len() <= MAX_STREAM_OUTPUT
            &&& count_newlines(raw.stderr) <= MAX_STREAM_OUTPUT_LINES
        },
{
    match event {
        ChildEventView::Drained { stdout, stderr } => {
            crate::collector::lemma_capped_bounds(
                stdout,
                MAX_STREAM_OUTPUT as nat,
                MAX_STREAM_OUTPUT_LINES as nat,
            );
            crate::collector::lemma_capped_bounds(
                stderr,
                MAX_STREAM_OUTPUT as nat,
                MAX_STREAM_OUTPUT_LINES as nat,
            );
        },
        _ => {},
    }
}

} // verus!
