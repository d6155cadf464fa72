//! Whether a command or a patch may go ahead without asking: approved
//! outright (and under which backend), referred to the user, or rejected.

use vstd::prelude::*;
use vstd::string::*;
use crate::exec::{
    determine_sandbox_state, SandboxEnvironment, SandboxType, CODEX_API_SANDBOX_STATE,
    CODEX_BLACK_BOX_SANDBOX_STATE, CODEX_LINUX_SHELL_SANDBOX_STATE, CODEX_MACOS_SANDBOX_STATE,
    CODEX_WINDOWS_CMD_SANDBOX_STATE, CODEX_WINDOWS_PS_SANDBOX_STATE,
};
use crate::paths::{normalize_lexically, normalized, path_starts_with, NormalizedPath};
use crate::protocol::{AskForApproval, SandboxPolicy};
use crate::text::texts;
use std::collections::HashSet;

verus! {

/// The verdict on a command or a patch.
#[derive(Clone, Debug, PartialEq, Eq)]
pub enum SafetyCheck {
    AutoApprove { sandbox_type: SandboxType },
    AskUser,
    Reject { reason: String },
}

/// The mathematical content of a [`SafetyCheck`].
pub enum SafetyCheckView {
    AutoApprove { sandbox_type: SandboxType },
    AskUser,
    Reject { reason: Seq<char> },
}

impl View for SafetyCheck {
    type V = SafetyCheckView;

    open spec fn view(&self) -> SafetyCheckView {
        match self {
            SafetyCheck::AutoApprove { sandbox_type } => SafetyCheckView::AutoApprove {
                sandbox_type: *sandbox_type,
            },
            SafetyCheck::AskUser => SafetyCheckView::AskUser,
            SafetyCheck::Reject { reason } => SafetyCheckView::Reject { reason: reason@ },
        }
    }
}

/// What one file of a patch undergoes.
#[derive(Clone, Debug, PartialEq, Eq)]
pub enum ApplyPatchFileChange {
    Add,
    Delete,
    /// Changed in place, or moved to `move_path` as well.
    Update { move_path: Option<String> },
}

/// A patch: the files it touches and what happens to each.
#[derive(Clone, Debug, PartialEq, Eq)]
pub struct ApplyPatchAction {
    pub changes: Vec<(String, ApplyPatchFileChange)>,
}

impl ApplyPatchAction {
    /// Whether the patch changes nothing.
    pub fn is_empty(&self) -> (r: bool)
        ensures
            r == (self.changes@.len() == 0),
    {
        self.changes.len() == 0
    }
}

/// Whether `path` lies at or below one of `roots`, paths and roots alike
/// taken in normal form relative to `cwd`.
pub open spec fn path_is_writable(path: Seq<char>, roots: Seq<Seq<char>>, cwd: Seq<char>) -> bool {
    exists|i: int|
        0 <= i < roots.len() && path_starts_with(
            normalized(path, cwd),
            normalized(#[trigger] roots[i], cwd),
        )
}

/// Whether everything a change touches (the file, and where it is moved
/// to) is writable.
pub open spec fn change_is_writable(
    change: (String, ApplyPatchFileChange),
    roots: Seq<Seq<char>>,
    cwd: Seq<char>,
) -> bool {
    &&& path_is_writable(change.0@, roots, cwd)
    &&& change.1 matches ApplyPatchFileChange::Update { move_path: Some(dest) }
        ==> path_is_writable(dest@, roots, cwd)
}

/// Whether a patch writes only inside the writable roots. With no roots
/// declared nothing is contained.
pub open spec fn patch_is_contained(
    changes: Seq<(String, ApplyPatchFileChange)>,
    roots: Seq<Seq<char>>,
    cwd: Seq<char>,
) -> bool {
    &&& roots.len() > 0
    &&& forall|i: int| 0 <= i < changes.len() ==> change_is_writable(#[trigger] changes[i], roots, cwd)
}

/// The backend that a sandbox state stands for.
pub open spec fn platform_sandbox_for(state: i32) -> SandboxType {
    if state == CODEX_BLACK_BOX_SANDBOX_STATE {
        SandboxType::BlackBox
    } else if state == CODEX_API_SANDBOX_STATE {
        SandboxType::Api
    } else if state == CODEX_MACOS_SANDBOX_STATE {
        SandboxType::MacosSeatbelt
    } else if state == CODEX_LINUX_SHELL_SANDBOX_STATE {
        SandboxType::LinuxSeccomp
    } else if state == CODEX_WINDOWS_CMD_SANDBOX_STATE {
        SandboxType::Win64Cmd
    } else if state == CODEX_WINDOWS_PS_SANDBOX_STATE {
        SandboxType::Win64Ps
    } else {
        SandboxType::BlackBox
    }
}

/// The backend that the environment offers. Every environment offers one:
/// where the platform has no sandbox of its own, commands are answered
/// in-process.
pub fn get_platform_sandbox(env: &SandboxEnvironment) -> (r: Option<SandboxType>)
    ensures
        r == Some(platform_sandbox_for(env.state())),
{
    let active_type = determine_sandbox_state(env);
    if CODEX_BLACK_BOX_SANDBOX_STATE == active_type {
        Some(SandboxType::BlackBox)
    } else if CODEX_API_SANDBOX_STATE == active_type {
        Some(SandboxType::Api)
    } else if CODEX_MACOS_SANDBOX_STATE == active_type {
        Some(SandboxType::MacosSeatbelt)
    } else if CODEX_LINUX_SHELL_SANDBOX_STATE == active_type {
        Some(SandboxType::LinuxSeccomp)
    } else if CODEX_WINDOWS_CMD_SANDBOX_STATE == active_type {
        Some(SandboxType::Win64Cmd)
    } else if CODEX_WINDOWS_PS_SANDBOX_STATE == active_type {
        Some(SandboxType::Win64Ps)
    } else {
        Some(SandboxType::BlackBox)
    }
}

/// The verdict on a command.
pub open spec fn command_safety(
    approval_policy: AskForApproval,
    unrestricted: bool,
    platform_sandbox: Option<SandboxType>,
) -> SafetyCheckView {
    if unrestricted {
        SafetyCheckView::AutoApprove { sandbox_type: SandboxType::Unsandboxed }
    } else {
        match platform_sandbox {
            Some(sandbox_type) => SafetyCheckView::AutoApprove { sandbox_type },
            None => {
                if approval_policy == AskForApproval::Never {
                    SafetyCheckView::Reject { reason: "auto-rejected by user approval settings"@ }
                } else {
                    SafetyCheckView::AskUser
                }
            },
        }
    }
}

/// Decides whether a command may run without asking. An unrestricted policy
/// runs it without a sandbox; otherwise it runs under the platform's
/// sandbox if there is one; with none, it is rejected where the user is
/// never to be asked and referred to the user otherwise.
pub fn assess_command_safety(
    _command: &[String],
    approval_policy: AskForApproval,
    sandbox_policy: &SandboxPolicy,
    _approved: &HashSet<Vec<String>>,
    platform_sandbox: Option<SandboxType>,
) -> (r: SafetyCheck)
    ensures
        r@ == command_safety(approval_policy, sandbox_policy.unrestricted, platform_sandbox),
        sandbox_policy.unrestricted ==> r@ == (SafetyCheckView::AutoApprove {
            sandbox_type: SandboxType::Unsandboxed,
        }),
{
    if sandbox_policy.is_unrestricted() {
        SafetyCheck::AutoApprove { sandbox_type: SandboxType::Unsandboxed }
    } else {
        match platform_sandbox {
            Some(sandbox_type) => SafetyCheck::AutoApprove { sandbox_type },
            None => {
                match approval_policy {
                    AskForApproval::Never => SafetyCheck::Reject {
                        reason: "auto-rejected by user approval settings".to_owned(),
                    },
                    _ => SafetyCheck::AskUser,
                }
            },
        }
    }
}

/// The verdict on a patch.
pub open spec fn patch_safety(
    changes: Seq<(String, ApplyPatchFileChange)>,
    policy: AskForApproval,
    roots: Seq<Seq<char>>,
    cwd: Seq<char>,
    platform_sandbox: Option<SandboxType>,
) -> SafetyCheckView {
    if changes.len() == 0 {
        SafetyCheckView::Reject { reason: "empty patch"@ }
    } else if policy == AskForApproval::UnlessAllowListed {
        SafetyCheckView::AskUser
    } else if patch_is_contained(changes, roots, cwd) {
        SafetyCheckView::AutoApprove { sandbox_type: SandboxType::Unsandboxed }
    } else if policy == AskForApproval::OnFailure {
        match platform_sandbox {
            Some(sandbox_type) => SafetyCheckView::AutoApprove { sandbox_type },
            None => SafetyCheckView::AskUser,
        }
    } else if policy == AskForApproval::Never {
        SafetyCheckView::Reject {
            reason: "writing outside of the project; rejected by user approval settings"@,
        }
    } else {
        SafetyCheckView::AskUser
    }
}

/// Whether `path` lies at or below one of the roots, which are given in
/// normal form already.
fn is_path_writable(path: &str, roots: &Vec<NormalizedPath>, cwd: &str, Ghost(raw): Ghost<
    Seq<Seq<char>>,
>) -> (r: bool)
    requires
        roots@.len() == raw.len(),
        forall|i: int| 0 <= i < raw.len() ==> (#[trigger] roots@[i])@ == normalized(raw[i], cwd@),
    ensures
        r == path_is_writable(path@, raw, cwd@),
{
    let abs = normalize_lexically(path, cwd);
    let mut i: usize = 0;
    while i < roots.len()
        invariant
            i <= roots.len(),
            roots@.len() == raw.len(),
            abs@ == normalized(path@, cwd@),
            forall|k: int| 0 <= k < raw.len() ==> (#[trigger] roots@[k])@ == normalized(raw[k], cwd@),
            forall|k: int|
                0 <= k < i ==> !path_starts_with(
                    normalized(path@, cwd@),
                    normalized(#[trigger] raw[k], cwd@),
                ),
        decreases roots.len() - i,
    {
        if abs.starts_with(&roots[i]) {
            proof {
                assert(roots@[i as int]@ == normalized(raw[i as int], cwd@));
            }
            return true;
        }
        proof {
            assert(roots@[i as int]@ == normalized(raw[i as int], cwd@));
        }
        i = i + 1;
    }
    false
}

/// Whether a patch writes only inside the writable roots: every path that
/// is added, deleted, changed or moved to must lie at or below one of them.
/// Paths and roots are compared in normal form relative to `cwd`, without
/// looking at the file system.
pub fn is_write_patch_constrained_to_writable_paths(
    action: &ApplyPatchAction,
    writable_roots: &Vec<String>,
    cwd: &str,
) -> (r: bool)
    ensures
        r == patch_is_contained(action.changes@, texts(writable_roots@), cwd@),
{
    if writable_roots.len() == 0 {
        return false;
    }
    let ghost raw = texts(writable_roots@);
    let mut roots: Vec<NormalizedPath> = Vec::new();
    let mut k: usize = 0;
    while k < writable_roots.len()
        invariant
            k <= writable_roots.len(),
            roots@.len() == k,
            raw == texts(writable_roots@),
            forall|j: int| 0 <= j < k ==> (#[trigger] roots@[j])@ == normalized(raw[j], cwd@),
        decreases writable_roots.len() - k,
    {
        let root = normalize_lexically(writable_roots[k].as_str(), cwd);
        roots.push(root);
        k = k + 1;
    }
    let mut i: usize = 0;
    while i < action.changes.len()
        invariant
            i <= action.changes.len(),
            roots@.len() == raw.len(),
            raw.len() > 0,
            raw == texts(writable_roots@),
            forall|j: int| 0 <= j < raw.len() ==> (#[trigger] roots@[j])@ == normalized(raw[j], cwd@),
            forall|j: int|
                0 <= j < i ==> change_is_writable(#[trigger] action.changes@[j], raw, cwd@),
        decreases action.changes.len() - i,
    {
        let change = &action.changes[i];
        if !is_path_writable(change.0.as_str(), &roots, cwd, Ghost(raw)) {
            return false;
        }
        match &change.1 {
            ApplyPatchFileChange::Update { move_path: Some(dest) } => {
                if !is_path_writable(dest.as_str(), &roots, cwd, Ghost(raw)) {
                    return false;
                }
            },
            _ => {},
        }
        i = i + 1;
    }
    true
}

/// Decides whether a patch may be applied without asking.
///
/// An empty patch is rejected. Where the user is always to be asked, the
/// answer is to ask, whatever the patch touches. A patch that stays inside
/// the writable roots is approved without a sandbox. One that does not is
/// approved under the platform's sandbox where failures are to be retried
/// (asked if there is no such sandbox), rejected where the user is never to
/// be asked, and referred to the user otherwise.
pub fn assess_patch_safety(
    action: &ApplyPatchAction,
    policy: AskForApproval,
    writable_roots: &Vec<String>,
    cwd: &str,
    platform_sandbox: Option<SandboxType>,
) -> (r: SafetyCheck)
    ensures
        r@ == patch_safety(action.changes@, policy, texts(writable_roots@), cwd@, platform_sandbox),
{
    if action.is_empty() {
        return SafetyCheck::Reject { reason: "empty patch".to_owned() };
    }
    match policy {
        AskForApproval::UnlessAllowListed => {
            return SafetyCheck::AskUser;
        },
        _ => {},
    }
    if is_write_patch_constrained_to_writable_paths(action, writable_roots, cwd) {
        SafetyCheck::AutoApprove { sandbox_type: SandboxType::Unsandboxed }
    } else {
        match policy {
            AskForApproval::OnFailure => match platform_sandbox {
                Some(sandbox_type) => SafetyCheck::AutoApprove { sandbox_type },
                None => SafetyCheck::AskUser,
            },
            AskForApproval::Never => SafetyCheck::Reject {
                reason: "writing outside of the project; rejected by user approval settings"
                    .to_owned(),
            },
            _ => SafetyCheck::AskUser,
        }
    }
}

/// A patch that changes something and stays inside the writable roots is
/// never rejected, and it is approved without a sandbox unless the user is
/// always to be asked.
pub proof fn lemma_contained_patch_is_approved(
    changes: Seq<(String, ApplyPatchFileChange)>,
    policy: AskForApproval,
    roots: Seq<Seq<char>>,
    cwd: Seq<char>,
    platform_sandbox: Option<SandboxType>,
)
    requires
        changes.len() > 0,
        patch_is_contained(changes, roots, cwd),
    ensures
        !(patch_safety(changes, policy, roots, cwd, platform_sandbox) is Reject),
        policy != AskForApproval::UnlessAllowListed ==> patch_safety(
            changes,
            policy,
            roots,
            cwd,
            platform_sandbox,
        ) == (SafetyCheckView::AutoApprove { sandbox_type: SandboxType::Unsandboxed }),
{
}

/// With no writable roots declared, no patch is approved without a sandbox.
pub proof fn lemma_no_roots_no_plain_approval(
    changes: Seq<(String, ApplyPatchFileChange)>,
    policy: AskForApproval,
    cwd: Seq<char>,
)
    ensures
        !patch_is_contained(changes, Seq::empty(), cwd),
        patch_safety(changes, policy, Seq::empty(), cwd, None) != (SafetyCheckView::AutoApprove {
            sandbox_type: SandboxType::Unsandboxed,
        }),
{
}

/// Nothing is approved to run without a sandbox unless its writes are
/// contained (a patch) or the policy is unrestricted (a command), as long as
/// no sandbox is passed off as the platform's that is none; and the
/// environment never offers such a one.
pub proof fn lemma_plain_approval_is_earned(
    changes: Seq<(String, ApplyPatchFileChange)>,
    policy: AskForApproval,
    roots: Seq<Seq<char>>,
    cwd: Seq<char>,
    unrestricted: bool,
    platform_sandbox: Option<SandboxType>,
    state: i32,
)
    requires
        platform_sandbox != Some(SandboxType::Unsandboxed),
    ensures
        patch_safety(changes, policy, roots, cwd, platform_sandbox) == (SafetyCheckView::AutoApprove {
            sandbox_type: SandboxType::Unsandboxed,
        }) ==> patch_is_contained(changes, roots, cwd),
        command_safety(policy, unrestricted, platform_sandbox) == (SafetyCheckView::AutoApprove {
            sandbox_type: SandboxType::Unsandboxed,
        }) ==> unrestricted,
        platform_sandbox_for(state) != SandboxType::Unsandboxed,
{
}

/// An unrestricted policy approves every command without a sandbox,
/// whatever the approval policy and whether or not the platform has a
/// sandbox.
pub proof fn lemma_unrestricted_is_approved(
    approval_policy: AskForApproval,
    platform_sandbox: Option<SandboxType>,
)
    ensures
        command_safety(approval_policy, true, platform_sandbox) == (SafetyCheckView::AutoApprove {
            sandbox_type: SandboxType::Unsandboxed,
        }),
{
}

} // verus!
