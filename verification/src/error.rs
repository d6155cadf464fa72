//! The failures a tool call can end in.

use vstd::prelude::*;

verus! {

/// The class of an input/output failure, as far as the engine tells them
/// apart.
#[derive(Clone, Copy, Debug, PartialEq, Eq, Structural)]
pub enum IoFailureKind {
    /// The request itself was malformed.
    InvalidInput,
    /// The program to run does not exist.
    NotFound,
    /// The operating system refused the operation.
    PermissionDenied,
    /// Anything else: a broken pipe, a failed wait, a failed kill.
    Other,
}

/// A spawn, pipe, wait or kill failure reported by the operating system.
#[derive(Clone, Debug, PartialEq, Eq)]
pub struct IoFailure {
    pub kind: IoFailureKind,
    pub message: String,
}

/// The mathematical content of an [`IoFailure`].
pub struct IoFailureView {
    pub kind: IoFailureKind,
    pub message: Seq<char>,
}

impl View for IoFailure {
    type V = IoFailureView;

    open spec fn view(&self) -> IoFailureView {
        IoFailureView { kind: self.kind, message: self.message@ }
    }
}

/// A fatal or retryable outcome of a sandboxed run. A denial, a timeout, a
/// cancellation and a signal are told apart, so that a caller can retry the
/// first and leave the others alone.
#[derive(Clone, Debug, PartialEq, Eq)]
pub enum SandboxErr {
    /// Non-zero exit under a real sandbox backend: exit code, stdout, stderr.
    /// The caller may retry with a relaxed policy.
    Denied(i32, String, String),
    /// The command outlived its time limit and was killed.
    Timeout,
    /// The caller cancelled the command and it was killed.
    Killed,
    /// The operating system ended the command by the given signal.
    Signal(i32),
}

/// The mathematical content of a [`SandboxErr`].
pub enum SandboxErrView {
    Denied(i32, Seq<char>, Seq<char>),
    Timeout,
    Killed,
    Signal(i32),
}

impl View for SandboxErr {
    type V = SandboxErrView;

    open spec fn view(&self) -> SandboxErrView {
        match self {
            SandboxErr::Denied(code, out, err) => SandboxErrView::Denied(*code, out@, err@),
            SandboxErr::Timeout => SandboxErrView::Timeout,
            SandboxErr::Killed => SandboxErrView::Killed,
            SandboxErr::Signal(n) => SandboxErrView::Signal(*n),
        }
    }
}

/// Every way a tool call can fail.
#[derive(Clone, Debug, PartialEq, Eq)]
pub enum CodexErr {
    /// Spawn or pipe failure; fatal for the call.
    Io(IoFailure),
    /// Denial, timeout or signal.
    Sandbox(SandboxErr),
    /// A backend was requested on a platform that cannot provide it.
    UnsupportedPlatform,
    /// The Linux sandbox helper was requested but its path is not configured.
    LandlockSandboxExecutableNotProvided,
}

/// The mathematical content of a [`CodexErr`].
pub enum CodexErrView {
    Io(IoFailureView),
    Sandbox(SandboxErrView),
    UnsupportedPlatform,
    LandlockSandboxExecutableNotProvided,
}

impl View for CodexErr {
    type V = CodexErrView;

    open spec fn view(&self) -> CodexErrView {
        match self {
            CodexErr::Io(e) => CodexErrView::Io(e@),
            CodexErr::Sandbox(e) => CodexErrView::Sandbox(e@),
            CodexErr::UnsupportedPlatform => CodexErrView::UnsupportedPlatform,
            CodexErr::LandlockSandboxExecutableNotProvided =>
                CodexErrView::LandlockSandboxExecutableNotProvided,
        }
    }
}

impl CodexErr {
    /// Whether a caller may sensibly retry the command under a relaxed
    /// policy: only a denial is retryable.
    pub fn is_retryable(&self) -> (r: bool)
        ensures
            r == (self@ matches CodexErrView::Sandbox(SandboxErrView::Denied(_, _, _))),
    {
        match self {
            CodexErr::Sandbox(SandboxErr::Denied(_, _, _)) => true,
            _ => false,
        }
    }
}

} // verus!
