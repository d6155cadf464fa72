//! The policies a caller hands to the engine: how freely commands may be
//! approved, and what a sandboxed command may touch.

use vstd::prelude::*;

verus! {

/// When the user is asked before a command or a patch is applied.
#[derive(Clone, Copy, Debug, PartialEq, Eq, Structural)]
pub enum AskForApproval {
    /// Always ask, unless the command is on the allow list.
    UnlessAllowListed,
    /// Edits inside the writable roots go through; everything else is asked.
    AutoEdit,
    /// Run sandboxed without asking; ask only when the sandbox cannot be had.
    OnFailure,
    /// Never ask: what cannot be approved automatically is rejected.
    Never,
}

/// One place a sandboxed command may write to.
#[derive(Clone, Debug, PartialEq, Eq)]
pub enum WritableRoot {
    /// The working directory of the command.
    Cwd,
    /// A named folder.
    Folder(String),
}

/// What a sandboxed command may read, write and reach.
#[derive(Clone, Debug, PartialEq, Eq)]
pub struct SandboxPolicy {
    /// Read access to the whole disk (otherwise none is granted here).
    pub full_disk_read: bool,
    /// Write access to the whole disk; when unset, `writable_roots` applies.
    pub full_disk_write: bool,
    /// The places that may be written when `full_disk_write` is unset.
    pub writable_roots: Vec<WritableRoot>,
    /// Network access (otherwise none).
    pub full_network: bool,
    /// The escape flag: the command is to run without any sandbox.
    pub unrestricted: bool,
}

/// The path that a writable root stands for under the working directory
/// `cwd`.
pub open spec fn resolved_root(root: WritableRoot, cwd: Seq<char>) -> Seq<char> {
    match root {
        WritableRoot::Cwd => cwd,
        WritableRoot::Folder(folder) => folder@,
    }
}

/// The paths that a list of writable roots stands for, in order.
pub open spec fn resolved_roots(roots: Seq<WritableRoot>, cwd: Seq<char>) -> Seq<Seq<char>> {
    roots.map_values(|root: WritableRoot| resolved_root(root, cwd))
}

/// The folders of a list of paths, as writable roots.
pub open spec fn folder_roots(paths: Seq<Seq<char>>, roots: Seq<WritableRoot>) -> bool {
    &&& roots.len() == paths.len()
    &&& forall|i: int|
        0 <= i < roots.len() ==> (#[trigger] roots[i] matches WritableRoot::Folder(folder)
            && folder@ == paths[i])
}

impl SandboxPolicy {
    /// Reading anywhere, writing nowhere, no network.
    pub fn new_read_only_policy() -> (r: SandboxPolicy)
        ensures
            r.full_disk_read,
            !r.full_disk_write,
            r.writable_roots@.len() == 0,
            !r.full_network,
            !r.unrestricted,
    {
        SandboxPolicy {
            full_disk_read: true,
            full_disk_write: false,
            writable_roots: Vec::new(),
            full_network: false,
            unrestricted: false,
        }
    }

    /// Reading anywhere, writing under the given folders, no network.
    pub fn new_read_only_policy_with_writable_roots(folders: Vec<String>) -> (r: SandboxPolicy)
        ensures
            r.full_disk_read,
            !r.full_disk_write,
            folder_roots(crate::text::texts(folders@), r.writable_roots@),
            !r.full_network,
            !r.unrestricted,
    {
        let mut roots: Vec<WritableRoot> = Vec::new();
        let mut i: usize = 0;
        while i < folders.len()
            invariant
                i <= folders.len(),
                folder_roots(crate::text::texts(folders@.take(i as int)), roots@),
            decreases folders.len() - i,
        {
            roots.push(WritableRoot::Folder(folders[i].clone()));
            i = i + 1;
        }
        proof {
            assert(folders@.take(folders.len() as int) == folders@);
        }
        SandboxPolicy {
            full_disk_read: true,
            full_disk_write: false,
            writable_roots: roots,
            full_network: false,
            unrestricted: false,
        }
    }

    /// Reading anywhere, writing under the working directory, no network.
    pub fn new_full_auto_policy() -> (r: SandboxPolicy)
        ensures
            r.full_disk_read,
            !r.full_disk_write,
            r.writable_roots@.len() == 1,
            r.writable_roots@[0] is Cwd,
            !r.full_network,
            !r.unrestricted,
    {
        let mut roots: Vec<WritableRoot> = Vec::new();
        roots.push(WritableRoot::Cwd);
        SandboxPolicy {
            full_disk_read: true,
            full_disk_write: false,
            writable_roots: roots,
            full_network: false,
            unrestricted: false,
        }
    }

    pub fn has_full_disk_read_access(&self) -> (r: bool)
        ensures
            r == self.full_disk_read,
    {
        self.full_disk_read
    }

    pub fn has_full_disk_write_access(&self) -> (r: bool)
        ensures
            r == self.full_disk_write,
    {
        self.full_disk_write
    }

    pub fn has_full_network_access(&self) -> (r: bool)
        ensures
            r == self.full_network,
    {
        self.full_network
    }

    pub fn is_unrestricted(&self) -> (r: bool)
        ensures
            r == self.unrestricted,
    {
        self.unrestricted
    }

    /// The writable roots as paths, with the working directory standing in
    /// where the policy names it.
    pub fn get_writable_roots_with_cwd(&self, cwd: &str) -> (r: Vec<String>)
        ensures
            crate::text::texts(r@) == resolved_roots(self.writable_roots@, cwd@),
    {
        let mut out: Vec<String> = Vec::new();
        let mut i: usize = 0;
        while i < self.writable_roots.len()
            invariant
                i <= self.writable_roots.len(),
                crate::text::texts(out@) == resolved_roots(
                    self.writable_roots@.take(i as int),
                    cwd@,
                ),
            decreases self.writable_roots.len() - i,
        {
            let path = match &self.writable_roots[i] {
                WritableRoot::Cwd => cwd.to_owned(),
                WritableRoot::Folder(folder) => folder.clone(),
            };
            proof {
                let roots = self.writable_roots@;
                assert(roots.take(i as int + 1) == roots.take(i as int).push(roots[i as int]));
                assert(resolved_roots(roots.take(i as int + 1), cwd@) =~= resolved_roots(
                    roots.take(i as int),
                    cwd@,
                ).push(resolved_root(roots[i as int], cwd@)));
                crate::text::lemma_texts_push(out@, path);
            }
            out.push(path);
            i = i + 1;
        }
        proof {
            assert(self.writable_roots@.take(self.writable_roots.len() as int)
                == self.writable_roots@);
        }
        out
    }
}


/// The policy that a caller's options come down to: under full-auto,
/// reading anywhere and writing nowhere; otherwise the policy that was
/// asked for, and the read-only policy where none was.
pub fn create_sandbox_policy(full_auto: bool, requested: Option<SandboxPolicy>) -> (r: SandboxPolicy)
    ensures
        full_auto || requested is None ==> {
            &&& r.full_disk_read
            &&& !r.full_disk_write
            &&& r.writable_roots@.len() == 0
            &&& !r.full_network
            &&& !r.unrestricted
        },
        !full_auto && requested is Some ==> r == requested->0,
{
    if full_auto {
        SandboxPolicy::new_read_only_policy_with_writable_roots(Vec::new())
    } else {
        match requested {
            Some(policy) => policy,
            None => SandboxPolicy::new_read_only_policy(),
        }
    }
}

} // verus!
