//! The description of an operating-system child: program, `argv[0]`,
//! arguments, working directory, complete environment and stream wiring.
//! Building the description is pure; starting the process is the caller's.

use vstd::prelude::*;
use vstd::string::*;
use crate::exec::{StdioPolicy, CODEX_SANDBOX_NETWORK_DISABLED_ENV_VAR};
use crate::protocol::SandboxPolicy;
use crate::text::texts;

verus! {

/// Where one standard stream of a child leads.
#[derive(Clone, Copy, Debug, PartialEq, Eq, Structural)]
pub enum StreamWiring {
    /// Closed: reads see end of file at once.
    Null,
    /// A pipe whose other end the engine holds.
    Piped,
    /// The parent's own stream.
    Inherit,
}

/// The wiring of the three standard streams.
#[derive(Clone, Copy, Debug, PartialEq, Eq, Structural)]
pub struct StdioWiring {
    pub stdin: StreamWiring,
    pub stdout: StreamWiring,
    pub stderr: StreamWiring,
}

/// The wiring that a policy asks for. There are exactly two: capture (no
/// stdin, so that no command waits for input; stdout and stderr piped), and
/// pass-through of all three.
pub open spec fn wiring_of(policy: StdioPolicy) -> StdioWiring {
    match policy {
        StdioPolicy::RedirectForShellTool => StdioWiring {
            stdin: StreamWiring::Null,
            stdout: StreamWiring::Piped,
            stderr: StreamWiring::Piped,
        },
        StdioPolicy::Inherit => StdioWiring {
            stdin: StreamWiring::Inherit,
            stdout: StreamWiring::Inherit,
            stderr: StreamWiring::Inherit,
        },
    }
}

/// Wires the standard streams as the policy asks.
pub fn stdio_wiring(policy: StdioPolicy) -> (r: StdioWiring)
    ensures
        r == wiring_of(policy),
{
    match policy {
        StdioPolicy::RedirectForShellTool => StdioWiring {
            stdin: StreamWiring::Null,
            stdout: StreamWiring::Piped,
            stderr: StreamWiring::Piped,
        },
        StdioPolicy::Inherit => StdioWiring {
            stdin: StreamWiring::Inherit,
            stdout: StreamWiring::Inherit,
            stderr: StreamWiring::Inherit,
        },
    }
}

/// The variables that a list of entries defines, read in order: a later
/// entry for a name replaces an earlier one.
pub open spec fn env_map(entries: Seq<(String, String)>) -> Map<Seq<char>, Seq<char>> {
    crate::assoc::assoc_map(entries)
}

/// Everything needed to start one child.
#[derive(Clone, Debug, PartialEq, Eq)]
pub struct LaunchSpec {
    pub program: String,
    /// What the child sees as `argv[0]`.
    pub arg0: String,
    pub args: Vec<String>,
    pub cwd: String,
    /// The variables of the child, applied in order.
    pub env: Vec<(String, String)>,
    /// Whether `env` is the child's whole environment, so that nothing of
    /// the ambient environment is handed down.
    pub clear_env: bool,
    pub stdio: StdioWiring,
    /// Whether the process must be killed when its handle is given up, so
    /// that an abandoned call leaves no process behind.
    pub kill_on_drop: bool,
}

/// The mathematical content of a [`LaunchSpec`].
pub struct LaunchSpecView {
    pub program: Seq<char>,
    pub arg0: Seq<char>,
    pub args: Seq<Seq<char>>,
    pub cwd: Seq<char>,
    pub env: Map<Seq<char>, Seq<char>>,
    pub clear_env: bool,
    pub stdio: StdioWiring,
    pub kill_on_drop: bool,
}

impl View for LaunchSpec {
    type V = LaunchSpecView;

    open spec fn view(&self) -> LaunchSpecView {
        LaunchSpecView {
            program: self.program@,
            arg0: self.arg0@,
            args: texts(self.args@),
            cwd: self.cwd@,
            env: env_map(self.env@),
            clear_env: self.clear_env,
            stdio: self.stdio,
            kill_on_drop: self.kill_on_drop,
        }
    }
}

/// The environment of a child: what the caller gave, and the marker set to
/// `1` over it whenever the network is denied.
pub open spec fn child_env(given: Map<Seq<char>, Seq<char>>, full_network: bool) -> Map<
    Seq<char>,
    Seq<char>,
> {
    if full_network {
        given
    } else {
        given.insert(CODEX_SANDBOX_NETWORK_DISABLED_ENV_VAR@, "1"@)
    }
}

/// The description of a child. Every child gets the environment given
/// here and nothing else, and every child dies with its handle.
pub open spec fn launch_spec(
    program: Seq<char>,
    args: Seq<Seq<char>>,
    arg0: Option<Seq<char>>,
    cwd: Seq<char>,
    full_network: bool,
    stdio_policy: StdioPolicy,
    env: Map<Seq<char>, Seq<char>>,
) -> LaunchSpecView {
    LaunchSpecView {
        program,
        arg0: match arg0 {
            Some(name) => name,
            None => program,
        },
        args,
        cwd,
        env: child_env(env, full_network),
        clear_env: true,
        stdio: wiring_of(stdio_policy),
        kill_on_drop: true,
    }
}

/// The view of an optional string slice.
pub open spec fn opt_str(s: Option<&str>) -> Option<Seq<char>> {
    match s {
        Some(t) => Some(t@),
        None => None,
    }
}

/// Describes the child for a program: `argv[0]` is the override if one is
/// given and the program path otherwise, the environment is the given one
/// with the network marker added where the policy denies network access,
/// and the streams are wired as the policy asks.
pub fn build_launch_spec(
    program: String,
    args: Vec<String>,
    arg0: Option<&str>,
    cwd: String,
    sandbox_policy: &SandboxPolicy,
    stdio_policy: StdioPolicy,
    env: Vec<(String, String)>,
) -> (r: LaunchSpec)
    ensures
        r@ == launch_spec(
            program@,
            texts(args@),
            opt_str(arg0),
            cwd@,
            sandbox_policy.full_network,
            stdio_policy,
            env_map(env@),
        ),
{
    let arg0 = match arg0 {
        Some(name) => name.to_owned(),
        None => program.clone(),
    };
    let mut env = env;
    if !sandbox_policy.has_full_network_access() {
        let ghost before = env@;
        let entry = (CODEX_SANDBOX_NETWORK_DISABLED_ENV_VAR.to_owned(), "1".to_owned());
        env.push(entry);
        proof {
            assert(env@.drop_last() == before);
        }
    }
    LaunchSpec {
        program,
        arg0,
        args,
        cwd,
        env,
        clear_env: true,
        stdio: stdio_wiring(stdio_policy),
        kill_on_drop: true,
    }
}

/// A child started from a description never sees the network marker unset
/// when the network is denied, whatever the caller's environment held.
pub proof fn lemma_network_marker_is_set(given: Map<Seq<char>, Seq<char>>)
    ensures
        child_env(given, false).contains_key(CODEX_SANDBOX_NETWORK_DISABLED_ENV_VAR@),
        child_env(given, false)[CODEX_SANDBOX_NETWORK_DISABLED_ENV_VAR@] == "1"@,
        child_env(given, true) == given,
{
}

} // verus!
