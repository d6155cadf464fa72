use sandbox_exec::exec::{Platform, SandboxEnvironment, SandboxType};
use sandbox_exec::paths::{is_same_path, normalize_lexically, path_components, split_segments};
use sandbox_exec::protocol::{create_sandbox_policy, AskForApproval, SandboxPolicy, WritableRoot};
use sandbox_exec::safety::{
    assess_command_safety, assess_patch_safety, get_platform_sandbox,
    is_write_patch_constrained_to_writable_paths, ApplyPatchAction, ApplyPatchFileChange,
    SafetyCheck,
};
use std::collections::HashSet;

fn add_change(path: &str) -> ApplyPatchAction {
    ApplyPatchAction { changes: vec![(path.to_string(), ApplyPatchFileChange::Add)] }
}

fn roots(list: &[&str]) -> Vec<String> {
    list.iter().map(|s| s.to_string()).collect()
}

fn approve_plain() -> SafetyCheck {
    SafetyCheck::AutoApprove { sandbox_type: SandboxType::Unsandboxed }
}

const ALL_POLICIES: [AskForApproval; 4] = [
    AskForApproval::UnlessAllowListed,
    AskForApproval::AutoEdit,
    AskForApproval::OnFailure,
    AskForApproval::Never,
];

#[test]
fn test_writable_roots_constraint() {
    let cwd = "/home/user/project".to_string();
    let parent = "/home/user".to_string();

    let add_inside = add_change(&format!("{}/inner.txt", cwd));
    let add_outside = add_change(&format!("{}/outside.txt", parent));

    assert!(is_write_patch_constrained_to_writable_paths(&add_inside, &roots(&["."]), &cwd));

    let add_outside_2 = add_change(&format!("{}/outside.txt", parent));
    assert!(!is_write_patch_constrained_to_writable_paths(&add_outside_2, &roots(&["."]), &cwd));

    // With the parent directory as writable root, it passes.
    assert!(is_write_patch_constrained_to_writable_paths(&add_outside, &roots(&[".."]), &cwd));
}

#[test]
fn split_keeps_empty_pieces() {
    assert_eq!(split_segments(""), vec!["".to_string()]);
    assert_eq!(split_segments("/"), vec!["".to_string(), "".to_string()]);
    assert_eq!(
        split_segments("/a//b/"),
        vec!["".to_string(), "a".to_string(), "".to_string(), "b".to_string(), "".to_string()]
    );
}

#[test]
fn normalization_is_lexical() {
    let n = normalize_lexically("a/./b/../c", "/work");
    assert!(n.absolute);
    assert_eq!(n.parts, vec!["work".to_string(), "a".to_string(), "c".to_string()]);

    let n = normalize_lexically("/x/../../y//z/.", "/work");
    assert!(n.absolute);
    assert_eq!(n.parts, vec!["y".to_string(), "z".to_string()]);

    let n = normalize_lexically("..", "/");
    assert!(n.absolute);
    assert!(n.parts.is_empty());

    let n = normalize_lexically("../b", "rel");
    assert!(!n.absolute);
    assert_eq!(n.parts, vec!["b".to_string()]);

    let n = normalize_lexically("", "/work/dir");
    assert_eq!(n.parts, vec!["work".to_string(), "dir".to_string()]);
}

#[test]
fn starts_with_goes_by_components() {
    let root = normalize_lexically("/home/user", "/");
    assert!(normalize_lexically("/home/user/a", "/").starts_with(&root));
    assert!(normalize_lexically("/home/user", "/").starts_with(&root));
    assert!(!normalize_lexically("/home/username", "/").starts_with(&root));
    assert!(!normalize_lexically("/home", "/").starts_with(&root));
    let relative = normalize_lexically("home/user", "");
    // An empty working directory still makes the path absolute: "" + "/" + path.
    assert!(relative.absolute);
}

#[test]
fn contained_patch_is_approved_without_sandbox() {
    let cwd = "/home/user/project";
    let action = ApplyPatchAction {
        changes: vec![
            ("src/../src/./lib.rs".to_string(), ApplyPatchFileChange::Add),
            ("/home/user/project/old.rs".to_string(), ApplyPatchFileChange::Delete),
            (
                "a.rs".to_string(),
                ApplyPatchFileChange::Update { move_path: Some("sub/b.rs".to_string()) },
            ),
            ("c.rs".to_string(), ApplyPatchFileChange::Update { move_path: None }),
        ],
    };
    for policy in [AskForApproval::AutoEdit, AskForApproval::OnFailure, AskForApproval::Never] {
        for platform in [None, Some(SandboxType::LinuxSeccomp)] {
            let verdict = assess_patch_safety(&action, policy, &roots(&["."]), cwd, platform);
            assert_eq!(verdict, approve_plain());
        }
    }
    let verdict = assess_patch_safety(
        &action,
        AskForApproval::UnlessAllowListed,
        &roots(&["."]),
        cwd,
        Some(SandboxType::LinuxSeccomp),
    );
    assert_eq!(verdict, SafetyCheck::AskUser);
}

#[test]
fn move_target_outside_roots_is_not_contained() {
    let cwd = "/home/user/project";
    let action = ApplyPatchAction {
        changes: vec![(
            "a.rs".to_string(),
            ApplyPatchFileChange::Update { move_path: Some("../elsewhere/b.rs".to_string()) },
        )],
    };
    assert!(!is_write_patch_constrained_to_writable_paths(&action, &roots(&["."]), cwd));
    assert!(is_write_patch_constrained_to_writable_paths(
        &action,
        &roots(&[".", "/home/user/elsewhere"]),
        cwd
    ));
}

#[test]
fn empty_patch_is_rejected() {
    let action = ApplyPatchAction { changes: vec![] };
    for policy in ALL_POLICIES {
        let verdict = assess_patch_safety(&action, policy, &roots(&["/"]), "/", None);
        assert_eq!(verdict, SafetyCheck::Reject { reason: "empty patch".to_string() });
    }
}

#[test]
fn patch_outside_roots_follows_the_policy() {
    let action = add_change("/etc/passwd");
    let cwd = "/home/user/project";
    let r = roots(&["."]);
    assert_eq!(
        assess_patch_safety(&action, AskForApproval::UnlessAllowListed, &r, cwd, None),
        SafetyCheck::AskUser
    );
    assert_eq!(
        assess_patch_safety(&action, AskForApproval::AutoEdit, &r, cwd, None),
        SafetyCheck::AskUser
    );
    assert_eq!(
        assess_patch_safety(
            &action,
            AskForApproval::OnFailure,
            &r,
            cwd,
            Some(SandboxType::MacosSeatbelt)
        ),
        SafetyCheck::AutoApprove { sandbox_type: SandboxType::MacosSeatbelt }
    );
    assert_eq!(
        assess_patch_safety(&action, AskForApproval::OnFailure, &r, cwd, None),
        SafetyCheck::AskUser
    );
    assert_eq!(
        assess_patch_safety(&action, AskForApproval::Never, &r, cwd, None),
        SafetyCheck::Reject {
            reason: "writing outside of the project; rejected by user approval settings"
                .to_string()
        }
    );
}

#[test]
fn no_roots_never_contain_anything() {
    let action = add_change("inner.txt");
    let cwd = "/home/user/project";
    assert!(!is_write_patch_constrained_to_writable_paths(&action, &vec![], cwd));
    assert_eq!(
        assess_patch_safety(
            &action,
            AskForApproval::OnFailure,
            &vec![],
            cwd,
            Some(SandboxType::LinuxSeccomp)
        ),
        SafetyCheck::AutoApprove { sandbox_type: SandboxType::LinuxSeccomp }
    );
    assert_eq!(
        assess_patch_safety(&action, AskForApproval::AutoEdit, &vec![], cwd, None),
        SafetyCheck::AskUser
    );
}

#[test]
fn unrestricted_policy_is_always_approved() {
    let mut policy = SandboxPolicy::new_read_only_policy();
    policy.unrestricted = true;
    let command = vec!["rm".to_string(), "-rf".to_string(), "/".to_string()];
    let approved: HashSet<Vec<String>> = HashSet::new();
    for approval in ALL_POLICIES {
        for platform in [None, Some(SandboxType::LinuxSeccomp), Some(SandboxType::BlackBox)] {
            let verdict = assess_command_safety(&command, approval, &policy, &approved, platform);
            assert_eq!(verdict, approve_plain());
        }
    }
}

#[test]
fn restricted_command_runs_under_the_platform_sandbox() {
    let policy = SandboxPolicy::new_read_only_policy();
    let command = vec!["ls".to_string()];
    let approved: HashSet<Vec<String>> = HashSet::new();
    for approval in ALL_POLICIES {
        let verdict = assess_command_safety(
            &command,
            approval,
            &policy,
            &approved,
            Some(SandboxType::MacosSeatbelt),
        );
        assert_eq!(verdict, SafetyCheck::AutoApprove { sandbox_type: SandboxType::MacosSeatbelt });
    }
    assert_eq!(
        assess_command_safety(&command, AskForApproval::Never, &policy, &approved, None),
        SafetyCheck::Reject { reason: "auto-rejected by user approval settings".to_string() }
    );
    for approval in
        [AskForApproval::UnlessAllowListed, AskForApproval::AutoEdit, AskForApproval::OnFailure]
    {
        assert_eq!(
            assess_command_safety(&command, approval, &policy, &approved, None),
            SafetyCheck::AskUser
        );
    }
}

fn environment(platform: Platform, comspec: &str, shell: &str) -> SandboxEnvironment {
    SandboxEnvironment {
        api_sandbox_enabled: false,
        black_box_sandbox_enabled: false,
        platform,
        comspec: comspec.to_string(),
        shell: shell.to_string(),
    }
}

#[test]
fn platform_sandbox_follows_the_environment() {
    assert_eq!(
        get_platform_sandbox(&environment(Platform::Linux, "", "/bin/bash")),
        Some(SandboxType::LinuxSeccomp)
    );
    assert_eq!(
        get_platform_sandbox(&environment(Platform::Macos, "", "/bin/zsh")),
        Some(SandboxType::MacosSeatbelt)
    );
    assert_eq!(
        get_platform_sandbox(&environment(Platform::Other, "", "")),
        Some(SandboxType::BlackBox)
    );
    assert_eq!(
        get_platform_sandbox(&environment(Platform::Windows, "C:\\Windows\\system32\\cmd.exe", "")),
        Some(SandboxType::Win64Cmd)
    );
    assert_eq!(
        get_platform_sandbox(&environment(Platform::Windows, "C:\\powershell.exe", "")),
        Some(SandboxType::Win64Ps)
    );
    assert_eq!(
        get_platform_sandbox(&environment(Platform::Windows, "", "/usr/bin/bash")),
        Some(SandboxType::LinuxSeccomp)
    );
    assert_eq!(
        get_platform_sandbox(&environment(Platform::Windows, "", "wsl.exe")),
        Some(SandboxType::LinuxSeccomp)
    );
    assert_eq!(
        get_platform_sandbox(&environment(Platform::Windows, "", "")),
        Some(SandboxType::BlackBox)
    );
    let mut env = environment(Platform::Linux, "", "");
    env.black_box_sandbox_enabled = true;
    assert_eq!(get_platform_sandbox(&env), Some(SandboxType::BlackBox));
    env.api_sandbox_enabled = true;
    assert_eq!(get_platform_sandbox(&env), Some(SandboxType::Api));
}

#[test]
fn policy_builders() {
    let p = SandboxPolicy::new_read_only_policy();
    assert!(p.has_full_disk_read_access());
    assert!(!p.has_full_disk_write_access());
    assert!(!p.has_full_network_access());
    assert!(!p.is_unrestricted());
    assert!(p.get_writable_roots_with_cwd("/w").is_empty());

    let p = SandboxPolicy::new_read_only_policy_with_writable_roots(vec![
        "/tmp".to_string(),
        "/var/data".to_string(),
    ]);
    assert_eq!(
        p.writable_roots,
        vec![
            WritableRoot::Folder("/tmp".to_string()),
            WritableRoot::Folder("/var/data".to_string())
        ]
    );
    assert_eq!(
        p.get_writable_roots_with_cwd("/w"),
        vec!["/tmp".to_string(), "/var/data".to_string()]
    );

    let p = SandboxPolicy::new_full_auto_policy();
    assert_eq!(p.get_writable_roots_with_cwd("/w"), vec!["/w".to_string()]);
}

#[test]
fn policy_from_options() {
    let asked = SandboxPolicy {
        full_disk_read: false,
        full_disk_write: true,
        writable_roots: vec![WritableRoot::Cwd],
        full_network: true,
        unrestricted: false,
    };
    assert_eq!(create_sandbox_policy(false, Some(asked.clone())), asked);
    assert_eq!(create_sandbox_policy(false, None), SandboxPolicy::new_read_only_policy());
    assert_eq!(create_sandbox_policy(true, Some(asked)), SandboxPolicy::new_read_only_policy());
    assert_eq!(create_sandbox_policy(true, None), SandboxPolicy::new_read_only_policy());
}

#[test]
fn paths_compare_by_components() {
    assert_eq!(path_components("/a//b/./c/"), vec!["a".to_string(), "b".to_string(), "c".to_string()]);
    assert_eq!(path_components("./a/.."), vec![".".to_string(), "a".to_string(), "..".to_string()]);
    assert!(path_components("").is_empty());
    assert!(path_components("/").is_empty());
    for (a, b) in [("/a/b", "/a/b/"), ("/a//b", "/a/b"), ("a/./b", "a/b"), ("/", "//"), ("", ""), (".", "./")] {
        assert!(is_same_path(a, b), "{} {}", a, b);
        assert_eq!(std::path::Path::new(a) == std::path::Path::new(b), true, "{} {}", a, b);
    }
    for (a, b) in [("/a/b", "a/b"), ("./a", "a"), ("/a/b/..", "/a"), ("/a", "/A"), ("", "/"), ("", ".")] {
        assert!(!is_same_path(a, b), "{} {}", a, b);
        assert_eq!(std::path::Path::new(a) == std::path::Path::new(b), false, "{} {}", a, b);
    }
}

#[test]
fn traversal_out_of_a_root_is_caught() {
    let cwd = "/home/user/project";
    let r = roots(&["sub", "/srv/data/"]);
    for inside in ["sub/a", "sub", "./sub/x/../y", "/srv/data", "/srv/data/x", "/srv//data/./x", "../project/sub/z"] {
        assert!(
            is_write_patch_constrained_to_writable_paths(&add_change(inside), &r, cwd),
            "{}",
            inside
        );
    }
    for outside in [
        "sub/../other",
        "sub/../../project2/sub",
        "subway/a",
        "/srv/database",
        "/srv/data/../secret",
        "/",
        "",
        "..",
        "/home/user/project",
    ] {
        assert!(
            !is_write_patch_constrained_to_writable_paths(&add_change(outside), &r, cwd),
            "{}",
            outside
        );
    }
}
