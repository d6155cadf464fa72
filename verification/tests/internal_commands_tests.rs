use sandbox_exec::error::{IoFailure, IoFailureKind};
use sandbox_exec::internal_commands::{
    codex_commands, codex_help, codex_reset_translator, codex_set_pallette,
    codex_set_sandbox_policy, codex_truncatoin_mode, codex_user_exec_dialog,
    codex_user_fork_exec, get_internal_command_function, interact_with_dependency,
    interaction_result, internal_request, is_internal_command, ExternalDependency,
    InternalCommand, InternalRequest,
};
use sandbox_exec::translation::TranslationState;
use std::cell::RefCell;

#[test]
fn commands_contains_help() {
    let cmds = codex_commands();
    assert!(cmds.contains(&"codex_help"));
}

#[test]
fn commands_are_the_fifteen_names() {
    let cmds = codex_commands();
    assert_eq!(cmds.len(), 15);
    for name in [
        "codex_fetch_docs",
        "codex_list_docs",
        "codex_read_doc",
        "codex_delete_doc",
        "codex_update_doc",
        "codex_create_doc",
        "codex_system_exec",
        "codex_reset_translator",
        "codex_user_exec_dialog",
        "codex_user_fork_exec",
        "codex_help",
        "codex_truncatoin_mode",
        "codex_set_pallette",
        "codex_set_sandbox_policy",
        "codex_commands",
    ] {
        assert!(cmds.contains(&name));
        assert!(is_internal_command(name));
    }
    assert!(!is_internal_command("ls"));
    assert!(!is_internal_command(""));
    assert!(!is_internal_command("codex_help "));
    assert!(!is_internal_command("CODEX_HELP"));
}

#[test]
fn help_lists_the_commands_in_order() {
    let mut cmds = codex_commands();
    cmds.sort();
    assert_eq!(cmds, codex_commands());
    assert_eq!(codex_help(), format!("Available internal commands:\n{}", cmds.join("\n")));
    assert!(codex_help().starts_with("Available internal commands:\ncodex_commands\ncodex_create_doc\n"));
    assert!(codex_help().ends_with("\ncodex_user_fork_exec"));
}

#[test]
fn handlers() {
    assert_eq!(get_internal_command_function("codex_fetch_docs"), Some(InternalCommand::FetchDocs));
    assert_eq!(get_internal_command_function("codex_list_docs"), Some(InternalCommand::ListDocs));
    assert_eq!(get_internal_command_function("codex_read_doc"), Some(InternalCommand::ReadDoc));
    assert_eq!(get_internal_command_function("codex_help"), None);
    assert_eq!(get_internal_command_function("ls"), None);
}

#[test]
fn handler_requests() {
    let args = vec!["notes.md".to_string(), "ignored".to_string()];
    assert_eq!(internal_request(InternalCommand::FetchDocs, &args), Ok(InternalRequest::FetchDocs));
    assert_eq!(internal_request(InternalCommand::ListDocs, &[]), Ok(InternalRequest::ListDocs));
    assert_eq!(
        internal_request(InternalCommand::ReadDoc, &args),
        Ok(InternalRequest::ReadDoc("notes.md".to_string()))
    );
    assert_eq!(
        internal_request(InternalCommand::ReadDoc, &[]),
        Err(IoFailure {
            kind: IoFailureKind::InvalidInput,
            message: "Missing document name".to_string()
        })
    );
}

struct Store {
    readable: bool,
    writable: bool,
    log: RefCell<Vec<String>>,
}

impl ExternalDependency for Store {
    fn get_setting(&self, key: &str) -> Result<String, String> {
        self.log.borrow_mut().push(format!("get {}", key));
        if self.readable {
            Ok("value".to_string())
        } else {
            Err("cannot read".to_string())
        }
    }

    fn set_setting(&self, key: &str, value: &str) -> Result<(), String> {
        self.log.borrow_mut().push(format!("set {}={}", key, value));
        if self.writable {
            Ok(())
        } else {
            Err("cannot write".to_string())
        }
    }
}

fn store(readable: bool, writable: bool) -> Store {
    Store { readable, writable, log: RefCell::new(Vec::new()) }
}

#[test]
fn dependency_is_consulted_for_internal_commands_only() {
    let s = store(true, true);
    assert_eq!(interact_with_dependency("codex_help", &s), Ok(()));
    assert_eq!(
        *s.log.borrow(),
        vec!["get example_setting".to_string(), "set example_setting=new_value".to_string()]
    );

    let s = store(true, true);
    assert_eq!(
        interact_with_dependency("ls", &s),
        Err("Command 'ls' is not internal".to_string())
    );
    assert!(s.log.borrow().is_empty());

    let s = store(false, true);
    assert_eq!(interact_with_dependency("codex_help", &s), Err("cannot read".to_string()));
    assert_eq!(*s.log.borrow(), vec!["get example_setting".to_string()]);

    let s = store(true, false);
    assert_eq!(interact_with_dependency("codex_help", &s), Err("cannot write".to_string()));
}

#[test]
fn interaction_results() {
    assert_eq!(interaction_result(Ok("v".to_string()), Ok(())), Ok(()));
    assert_eq!(interaction_result(Err("r".to_string()), Ok(())), Err("r".to_string()));
    assert_eq!(interaction_result(Err("r".to_string()), Err("w".to_string())), Err("r".to_string()));
    assert_eq!(interaction_result(Ok("v".to_string()), Err("w".to_string())), Err("w".to_string()));
}

#[test]
fn fixed_answers() {
    assert_eq!(codex_user_exec_dialog(), Err("user_exec_dialog is not implemented".to_string()));
    assert_eq!(codex_user_fork_exec(), Err("user_fork_exec is not implemented".to_string()));
    assert_eq!(codex_truncatoin_mode("on"), Ok(()));
    assert_eq!(codex_set_pallette("dark"), Ok(()));
    assert_eq!(codex_set_sandbox_policy("strict"), Ok(()));
}

#[test]
fn translator_is_set_up_once() {
    let mut state = TranslationState { operating_shell: None, translator: None };
    codex_reset_translator(&mut state, "linux", None, None);
    assert_eq!(state.operating_shell, Some("linux".to_string()));
    let t = state.translator.as_mut().unwrap();
    assert_eq!(t.translate_command("ls", "windows", "N/A", "[]").translated_command, Some("dir".to_string()));
    assert_eq!(t.get_warnings("ls"), 1);
    codex_reset_translator(&mut state, "windows", None, None);
    assert_eq!(state.operating_shell, Some("linux".to_string()));
    assert_eq!(state.translator.as_ref().unwrap().get_warnings("ls"), 1);
}

#[test]
fn dependency_may_be_a_trait_object() {
    let s = store(true, true);
    let dependency: &dyn ExternalDependency = &s;
    assert_eq!(interact_with_dependency("codex_commands", dependency), Ok(()));
    assert_eq!(s.log.borrow().len(), 2);
}
