//! The registry of built-in commands: which names are built in, which of
//! them have an in-process handler, and what a handler is asked to do.

use vstd::prelude::*;
use vstd::string::*;
use crate::error::{IoFailure, IoFailureKind, IoFailureView};
use crate::text::{join, str_eq};
use crate::translation::{initialize, initialized, TranslationState};

verus! {

/// The names of the built-in commands, in ascending order.
pub open spec fn internal_command_names() -> Seq<Seq<char>> {
    seq![
        "codex_commands"@,
        "codex_create_doc"@,
        "codex_delete_doc"@,
        "codex_fetch_docs"@,
        "codex_help"@,
        "codex_list_docs"@,
        "codex_read_doc"@,
        "codex_reset_translator"@,
        "codex_set_pallette"@,
        "codex_set_sandbox_policy"@,
        "codex_system_exec"@,
        "codex_truncatoin_mode"@,
        "codex_update_doc"@,
        "codex_user_exec_dialog"@,
        "codex_user_fork_exec"@,
    ]
}

/// The views of a list of string slices, in order.
pub open spec fn str_texts(v: Seq<&'static str>) -> Seq<Seq<char>> {
    v.map_values(|s: &'static str| s@)
}

/// Whether a command is built in.
pub fn is_internal_command(command: &str) -> (r: bool)
    ensures
        r == internal_command_names().contains(command@),
{
    let names = codex_commands();
    let mut i: usize = 0;
    while i < names.len()
        invariant
            i <= names.len(),
            str_texts(names@) == internal_command_names(),
            forall|k: int| 0 <= k < i ==> internal_command_names()[k] != command@,
        decreases names.len() - i,
    {
        if str_eq(names[i], command) {
            proof {
                assert(str_texts(names@)[i as int] == names@[i as int]@);
                assert(internal_command_names()[i as int] == command@);
            }
            return true;
        }
        proof {
            assert(str_texts(names@)[i as int] == names@[i as int]@);
        }
        i = i + 1;
    }
    false
}

/// The list of the built-in commands, in ascending order.
pub fn codex_commands() -> (r: Vec<&'static str>)
    ensures
        str_texts(r@) == internal_command_names(),
{
    let mut names: Vec<&'static str> = Vec::new();
    names.push("codex_commands");
    names.push("codex_create_doc");
    names.push("codex_delete_doc");
    names.push("codex_fetch_docs");
    names.push("codex_help");
    names.push("codex_list_docs");
    names.push("codex_read_doc");
    names.push("codex_reset_translator");
    names.push("codex_set_pallette");
    names.push("codex_set_sandbox_policy");
    names.push("codex_system_exec");
    names.push("codex_truncatoin_mode");
    names.push("codex_update_doc");
    names.push("codex_user_exec_dialog");
    names.push("codex_user_fork_exec");
    proof {
        assert(str_texts(names@) =~= internal_command_names());
    }
    names
}

/// The help text: a heading, then the built-in commands in ascending order,
/// one per line.
pub fn codex_help() -> (r: String)
    ensures
        r@ == "Available internal commands:\n"@ + join(internal_command_names(), "\n"@),
{
    let names = codex_commands();
    let mut out = "Available internal commands:\n".to_owned();
    let ghost head = out@;
    let mut i: usize = 0;
    while i < names.len()
        invariant
            i <= names.len(),
            str_texts(names@) == internal_command_names(),
            out@ == head + join(internal_command_names().take(i as int), "\n"@),
        decreases names.len() - i,
    {
        proof {
            let all = internal_command_names();
            assert(all.take(i as int + 1).drop_last() == all.take(i as int));
            assert(all.take(i as int + 1).last() == names@[i as int]@) by {
                assert(str_texts(names@)[i as int] == names@[i as int]@);
            }
        }
        if i > 0 {
            out.append("\n");
        }
        out.append(names[i]);
        i = i + 1;
    }
    proof {
        let all = internal_command_names();
        assert(all.take(names.len() as int) == all);
    }
    out
}

/// The built-in commands that are answered by an in-process handler.
#[derive(Clone, Copy, Debug, PartialEq, Eq, Structural)]
pub enum InternalCommand {
    FetchDocs,
    ListDocs,
    ReadDoc,
}

/// The handler of a command name, if it has one.
pub open spec fn internal_command_for(command: Seq<char>) -> Option<InternalCommand> {
    if command == "codex_fetch_docs"@ {
        Some(InternalCommand::FetchDocs)
    } else if command == "codex_list_docs"@ {
        Some(InternalCommand::ListDocs)
    } else if command == "codex_read_doc"@ {
        Some(InternalCommand::ReadDoc)
    } else {
        None
    }
}

/// Looks up the in-process handler of a command. Commands that are not
/// built in, and built-in commands without a handler, have none.
pub fn get_internal_command_function(command: &str) -> (r: Option<InternalCommand>)
    ensures
        r == internal_command_for(command@),
{
    if str_eq(command, "codex_fetch_docs") {
        Some(InternalCommand::FetchDocs)
    } else if str_eq(command, "codex_list_docs") {
        Some(InternalCommand::ListDocs)
    } else if str_eq(command, "codex_read_doc") {
        Some(InternalCommand::ReadDoc)
    } else {
        None
    }
}

/// Every command with a handler is a built-in command.
pub proof fn lemma_handlers_are_internal(command: Seq<char>)
    requires
        internal_command_for(command) is Some,
    ensures
        internal_command_names().contains(command),
{
    let names = internal_command_names();
    if command == "codex_fetch_docs"@ {
        assert(names[3] == command);
    } else if command == "codex_list_docs"@ {
        assert(names[5] == command);
    } else {
        assert(names[6] == command);
    }
}

/// What a handler is asked to do.
#[derive(Clone, Debug, PartialEq, Eq)]
pub enum InternalRequest {
    /// All documents with their contents.
    FetchDocs,
    /// The names of all documents.
    ListDocs,
    /// The contents of the named document.
    ReadDoc(String),
}

/// The request that a handler gets for the given arguments. Reading a
/// document needs its name as the first argument; the other handlers take
/// no notice of arguments.
pub fn internal_request(command: InternalCommand, args: &[String]) -> (r: Result<
    InternalRequest,
    IoFailure,
>)
    ensures
        match command {
            InternalCommand::FetchDocs => r == Ok::<InternalRequest, IoFailure>(
                InternalRequest::FetchDocs,
            ),
            InternalCommand::ListDocs => r == Ok::<InternalRequest, IoFailure>(
                InternalRequest::ListDocs,
            ),
            InternalCommand::ReadDoc => if args@.len() > 0 {
                r matches Ok(InternalRequest::ReadDoc(name)) && name@ == args@[0]@
            } else {
                r matches Err(e) && e@ == (IoFailureView {
                    kind: IoFailureKind::InvalidInput,
                    message: "Missing document name"@,
                })
            },
        },
{
    match command {
        InternalCommand::FetchDocs => Ok(InternalRequest::FetchDocs),
        InternalCommand::ListDocs => Ok(InternalRequest::ListDocs),
        InternalCommand::ReadDoc => {
            if args.len() > 0 {
                Ok(InternalRequest::ReadDoc(args[0].clone()))
            } else {
                Err(
                    IoFailure {
                        kind: IoFailureKind::InvalidInput,
                        message: "Missing document name".to_owned(),
                    },
                )
            }
        },
    }
}

/// What a handler produced.
#[derive(Clone, Debug, PartialEq, Eq)]
pub struct InternalCommandOutput {
    pub stdout: String,
    pub stderr: String,
}

/// A store of settings that built-in commands consult.
pub trait ExternalDependency {
    fn get_setting(&self, key: &str) -> Result<String, String>;

    fn set_setting(&self, key: &str, value: &str) -> Result<(), String>;
}

/// The message for a command that is not built in.
pub open spec fn not_internal_message(command: Seq<char>) -> Seq<char> {
    "Command '"@ + command + "' is not internal"@
}

/// The result of consulting the store, from what reading and writing came
/// back with: the first failure, or success.
pub fn interaction_result(read: Result<String, String>, written: Result<(), String>) -> (r: Result<
    (),
    String,
>)
    ensures
        match read {
            Err(e) => r matches Err(f) && f@ == e@,
            Ok(_) => match written {
                Err(e) => r matches Err(f) && f@ == e@,
                Ok(_) => r is Ok,
            },
        },
{
    match read {
        Err(e) => Err(e),
        Ok(_) => written,
    }
}

/// Lets a built-in command consult the store: the setting is read, and if
/// that went well it is written. A command that is not built in is refused
/// and the store is left alone.
pub fn interact_with_dependency<D: ExternalDependency + ?Sized>(command: &str, dependency: &D) -> (r: Result<
    (),
    String,
>)
    ensures
        !internal_command_names().contains(command@) ==> (r matches Err(e) && e@
            == not_internal_message(command@)),
{
    if is_internal_command(command) {
        match dependency.get_setting("example_setting") {
            Err(e) => interaction_result(Err(e), Ok(())),
            Ok(setting) => {
                let written = dependency.set_setting("example_setting", "new_value");
                interaction_result(Ok(setting), written)
            },
        }
    } else {
        let mut message = "Command '".to_owned();
        message.append(command);
        message.append("' is not internal");
        Err(message)
    }
}

/// Sets up the translator for the given system. A translator that is set
/// up already stays as it is.
pub fn codex_reset_translator(
    state: &mut TranslationState,
    shell: &str,
    translations_json: Option<&str>,
    risk_csv: Option<&str>,
)
    ensures
        initialized(
            *old(state),
            *final(state),
            shell@,
            crate::launcher::opt_str(translations_json),
            crate::launcher::opt_str(risk_csv),
        ),
{
    initialize(state, shell, translations_json, risk_csv);
}

/// The dialog that lets the user run a command is not provided.
pub fn codex_user_exec_dialog() -> (r: Result<(), String>)
    ensures
        r matches Err(e) && e@ == "user_exec_dialog is not implemented"@,
{
    Err("user_exec_dialog is not implemented".to_owned())
}

/// Handing a command over to the user is not provided.
pub fn codex_user_fork_exec() -> (r: Result<(), String>)
    ensures
        r matches Err(e) && e@ == "user_fork_exec is not implemented"@,
{
    Err("user_fork_exec is not implemented".to_owned())
}

/// Accepts any truncation mode and changes nothing.
pub fn codex_truncatoin_mode(_mode: &str) -> (r: Result<(), String>)
    ensures
        r is Ok,
{
    Ok(())
}

/// Accepts any palette and changes nothing.
pub fn codex_set_pallette(_pal: &str) -> (r: Result<(), String>)
    ensures
        r is Ok,
{
    Ok(())
}

/// Accepts any sandbox policy and changes nothing.
pub fn codex_set_sandbox_policy(_policy: &str) -> (r: Result<(), String>)
    ensures
        r is Ok,
{
    Ok(())
}

/// Whether `a` comes before `b` in the order of dictionaries, with `k` the
/// place where they first differ: up to there they agree, and there `a`
/// ends or has the smaller character.
pub open spec fn precedes_at(a: Seq<char>, b: Seq<char>, k: int) -> bool {
    &&& 0 <= k <= a.len()
    &&& k < b.len()
    &&& forall|j: int| 0 <= j < k ==> a[j] == b[j]
    &&& k == a.len() || (a[k] as u32) < (b[k] as u32)
}

/// Whether `a` comes before `b` in the order of dictionaries.
pub open spec fn precedes(a: Seq<char>, b: Seq<char>) -> bool {
    exists|k: int| precedes_at(a, b, k)
}

/// Every built-in command has a name that starts with `codex_`; a text
/// that does not start so names none.
pub proof fn lemma_commands_start_with_codex(command: Seq<char>)
    requires
        internal_command_names().contains(command),
    ensures
        command.len() > 6,
        command.take(6) == "codex_"@,
{
    reveal_strlit("codex_");
    reveal_strlit("codex_commands");
    reveal_strlit("codex_create_doc");
    reveal_strlit("codex_delete_doc");
    reveal_strlit("codex_fetch_docs");
    reveal_strlit("codex_help");
    reveal_strlit("codex_list_docs");
    reveal_strlit("codex_read_doc");
    reveal_strlit("codex_reset_translator");
    reveal_strlit("codex_set_pallette");
    reveal_strlit("codex_set_sandbox_policy");
    reveal_strlit("codex_system_exec");
    reveal_strlit("codex_truncatoin_mode");
    reveal_strlit("codex_update_doc");
    reveal_strlit("codex_user_exec_dialog");
    reveal_strlit("codex_user_fork_exec");
    let names = internal_command_names();
    let i = choose|i: int| 0 <= i < names.len() && names[i] == command;
    assert(names[i].take(6) =~= "codex_"@);
}

/// The built-in commands are listed in the order of dictionaries, each
/// name before the next, so that no name occurs twice.
pub proof fn lemma_commands_are_sorted()
    ensures
        forall|i: int|
            0 <= i < internal_command_names().len() - 1 ==> precedes(
                #[trigger] internal_command_names()[i],
                internal_command_names()[i + 1],
            ),
{
    reveal_strlit("codex_commands");
    reveal_strlit("codex_create_doc");
    reveal_strlit("codex_delete_doc");
    reveal_strlit("codex_fetch_docs");
    reveal_strlit("codex_help");
    reveal_strlit("codex_list_docs");
    reveal_strlit("codex_read_doc");
    reveal_strlit("codex_reset_translator");
    reveal_strlit("codex_set_pallette");
    reveal_strlit("codex_set_sandbox_policy");
    reveal_strlit("codex_system_exec");
    reveal_strlit("codex_truncatoin_mode");
    reveal_strlit("codex_update_doc");
    reveal_strlit("codex_user_exec_dialog");
    reveal_strlit("codex_user_fork_exec");
    assert(precedes_at("codex_commands"@, "codex_create_doc"@, 7));
    assert(precedes_at("codex_create_doc"@, "codex_delete_doc"@, 6));
    assert(precedes_at("codex_delete_doc"@, "codex_fetch_docs"@, 6));
    assert(precedes_at("codex_fetch_docs"@, "codex_help"@, 6));
    assert(precedes_at("codex_help"@, "codex_list_docs"@, 6));
    assert(precedes_at("codex_list_docs"@, "codex_read_doc"@, 6));
    assert(precedes_at("codex_read_doc"@, "codex_reset_translator"@, 8));
    assert(precedes_at("codex_reset_translator"@, "codex_set_pallette"@, 6));
    assert(precedes_at("codex_set_pallette"@, "codex_set_sandbox_policy"@, 10));
    assert(precedes_at("codex_set_sandbox_policy"@, "codex_system_exec"@, 7));
    assert(precedes_at("codex_system_exec"@, "codex_truncatoin_mode"@, 6));
    assert(precedes_at("codex_truncatoin_mode"@, "codex_update_doc"@, 6));
    assert(precedes_at("codex_update_doc"@, "codex_user_exec_dialog"@, 7));
    assert(precedes_at("codex_user_exec_dialog"@, "codex_user_fork_exec"@, 11));
}

} // verus!
