//! The backend that creates no process: a command is answered at once
//! with success, or handed to the in-process handler of a built-in command.

use vstd::prelude::*;
use vstd::string::*;
use crate::error::{CodexErr, CodexErrView, IoFailure};
use crate::exec::{
    ExitOutcome, RawExecToolCallOutput, RawExecToolCallOutputView, SandboxEnvironment, StdioPolicy,
};
use crate::internal_commands::{
    get_internal_command_function, internal_command_for, InternalCommand, InternalCommandOutput,
};
use crate::text::texts;
use crate::translation::{opt_translation, CommandTranslationResult, CommandTranslationResultView};
use vstd::utf8::encode_utf8;

verus! {

/// The shell of the in-process backend: it takes any command and does
/// nothing.
pub fn black_box_shell_function(
    _command: Vec<String>,
    _cwd: String,
    _env: Vec<(String, String)>,
    _stdio_policy: StdioPolicy,
) -> (r: Result<(), CodexErr>)
    ensures
        r is Ok,
{
    Ok(())
}

/// Turns the in-process override on.
pub fn enable_black_box_sandbox(env: &mut SandboxEnvironment)
    ensures
        final(env).black_box_sandbox_enabled,
        final(env).api_sandbox_enabled == old(env).api_sandbox_enabled,
        final(env).platform == old(env).platform,
        final(env).comspec == old(env).comspec,
        final(env).shell == old(env).shell,
{
    env.black_box_sandbox_enabled = true;
}

/// Turns the in-process override off.
pub fn disable_black_box_sandbox(env: &mut SandboxEnvironment)
    ensures
        !final(env).black_box_sandbox_enabled,
        final(env).api_sandbox_enabled == old(env).api_sandbox_enabled,
        final(env).platform == old(env).platform,
        final(env).comspec == old(env).comspec,
        final(env).shell == old(env).shell,
{
    env.black_box_sandbox_enabled = false;
}

/// Whether the in-process override is on.
pub fn is_black_box_sandbox_enabled(env: &SandboxEnvironment) -> (r: bool)
    ensures
        r == env.black_box_sandbox_enabled,
{
    env.black_box_sandbox_enabled
}

/// Turns the loopback override on.
pub fn enable_api_sandbox(env: &mut SandboxEnvironment)
    ensures
        final(env).api_sandbox_enabled,
        final(env).black_box_sandbox_enabled == old(env).black_box_sandbox_enabled,
        final(env).platform == old(env).platform,
        final(env).comspec == old(env).comspec,
        final(env).shell == old(env).shell,
{
    env.api_sandbox_enabled = true;
}

/// Turns the loopback override off.
pub fn disable_api_sandbox(env: &mut SandboxEnvironment)
    ensures
        !final(env).api_sandbox_enabled,
        final(env).black_box_sandbox_enabled == old(env).black_box_sandbox_enabled,
        final(env).platform == old(env).platform,
        final(env).comspec == old(env).comspec,
        final(env).shell == old(env).shell,
{
    env.api_sandbox_enabled = false;
}

/// What the in-process backend does with a command.
#[derive(Debug)]
pub enum BlackBoxPlan {
    /// Answer at once.
    Synthetic(RawExecToolCallOutput),
    /// Ask the handler of a built-in command, with the words after the
    /// command as its arguments.
    Internal { command: InternalCommand, args: Vec<String> },
}

/// The mathematical content of a [`BlackBoxPlan`].
pub enum BlackBoxPlanView {
    Synthetic(RawExecToolCallOutputView),
    Internal { command: InternalCommand, args: Seq<Seq<char>> },
}

impl View for BlackBoxPlan {
    type V = BlackBoxPlanView;

    open spec fn view(&self) -> BlackBoxPlanView {
        match self {
            BlackBoxPlan::Synthetic(raw) => BlackBoxPlanView::Synthetic(raw@),
            BlackBoxPlan::Internal { command, args } => BlackBoxPlanView::Internal {
                command: *command,
                args: texts(args@),
            },
        }
    }
}

/// The answer that reports success with the given output.
pub open spec fn synthetic_success(
    stdout: Seq<u8>,
    stderr: Seq<u8>,
    translation_result: Option<CommandTranslationResultView>,
) -> RawExecToolCallOutputView {
    RawExecToolCallOutputView {
        exit_status: ExitOutcome::Exited(0),
        stdout,
        stderr,
        translation_result,
    }
}

/// What the in-process backend does with a command: a command whose first
/// word names a handler goes to that handler, every other command is
/// answered with success and no output.
pub open spec fn black_box_plan(
    command: Seq<Seq<char>>,
    translation_result: Option<CommandTranslationResultView>,
) -> BlackBoxPlanView {
    if command.len() > 0 && internal_command_for(command[0]) is Some {
        BlackBoxPlanView::Internal {
            command: internal_command_for(command[0])->0,
            args: command.skip(1),
        }
    } else {
        BlackBoxPlanView::Synthetic(
            synthetic_success(Seq::empty(), Seq::empty(), translation_result),
        )
    }
}

/// Decides what the in-process backend does with a command. No process is
/// created either way.
pub fn plan_command_under_black_box(
    command: Vec<String>,
    translation_result: Option<CommandTranslationResult>,
) -> (r: BlackBoxPlan)
    ensures
        r@ == black_box_plan(texts(command@), opt_translation(translation_result)),
{
    if command.len() > 0 {
        proof {
            assert(texts(command@)[0] == command@[0]@);
        }
        match get_internal_command_function(command[0].as_str()) {
            Some(handler) => {
                let mut args = command;
                let ghost given = args@;
                args.remove(0);
                proof {
                    assert(texts(args@) =~= texts(given).skip(1));
                }
                return BlackBoxPlan::Internal { command: handler, args };
            },
            None => {},
        }
    }
    BlackBoxPlan::Synthetic(
        RawExecToolCallOutput {
            exit_status: ExitOutcome::Exited(0),
            stdout: Vec::new(),
            stderr: Vec::new(),
            translation_result,
        },
    )
}

/// The views of a backend result.
pub open spec fn raw_result_view(r: Result<RawExecToolCallOutput, CodexErr>) -> Result<
    RawExecToolCallOutputView,
    CodexErrView,
> {
    match r {
        Ok(raw) => Ok(raw@),
        Err(e) => Err(e@),
    }
}

/// Wraps what a handler produced into the answer of the backend: its text
/// with a successful exit, or its failure.
pub fn black_box_output(
    produced: Result<InternalCommandOutput, IoFailure>,
    translation_result: Option<CommandTranslationResult>,
) -> (r: Result<RawExecToolCallOutput, CodexErr>)
    ensures
        raw_result_view(r) == match produced {
            Ok(output) => Ok::<RawExecToolCallOutputView, CodexErrView>(
                synthetic_success(
                    encode_utf8(output.stdout@),
                    encode_utf8(output.stderr@),
                    opt_translation(translation_result),
                ),
            ),
            Err(e) => Err::<RawExecToolCallOutputView, CodexErrView>(CodexErrView::Io(e@)),
        },
{
    match produced {
        Ok(output) => Ok(
            RawExecToolCallOutput {
                exit_status: ExitOutcome::Exited(0),
                stdout: output.stdout.as_str().as_bytes_vec(),
                stderr: output.stderr.as_str().as_bytes_vec(),
                translation_result,
            },
        ),
        Err(e) => Err(CodexErr::Io(e)),
    }
}

} // verus!
