use sandbox_exec::exec::Platform;
use sandbox_exec::text::{is_whitespace, split_lines, trim_text};
use sandbox_exec::translation::{
    initialize, normalize_command_paths, normalize_path, split_words, to_unix_path,
    to_windows_path, CommandTranslator, TranslationState, MAX_TRANSLATION_WARNINGS,
};

fn pairs(list: &[(&str, &str)]) -> Vec<(String, String)> {
    list.iter().map(|(a, b)| (a.to_string(), b.to_string())).collect()
}

#[test]
fn path_notation() {
    assert_eq!(to_unix_path("C:\\Users\\me\\file.txt"), "C:/Users/me/file.txt");
    assert_eq!(to_unix_path("already/unix"), "already/unix");
    assert_eq!(to_windows_path("a/b/c"), "a\\b\\c");
    assert_eq!(to_windows_path(""), "");
    assert_eq!(normalize_path("a\\b/c", Platform::Linux), "a/b/c");
    assert_eq!(normalize_path("a\\b/c", Platform::Macos), "a/b/c");
    assert_eq!(normalize_path("a\\b/c", Platform::Other), "a/b/c");
    assert_eq!(normalize_path("a\\b/c", Platform::Windows), "a\\b\\c");
}

#[test]
fn command_paths() {
    assert_eq!(
        normalize_command_paths("  copy   C:\\a\\b   dir/sub  plain\t", Platform::Linux),
        "copy C:/a/b dir/sub plain"
    );
    assert_eq!(
        normalize_command_paths("copy C:\\a\\b dir/sub", Platform::Windows),
        "copy C:\\a\\b dir\\sub"
    );
    assert_eq!(normalize_command_paths("", Platform::Linux), "");
    assert_eq!(normalize_command_paths(" \n ", Platform::Linux), "");
}

#[test]
fn words_and_space() {
    assert_eq!(split_words(" a  bc\td\n"), vec!["a".to_string(), "bc".to_string(), "d".to_string()]);
    assert!(split_words("").is_empty());
    for c in ['\t', '\n', '\u{b}', '\u{c}', '\r', ' ', '\u{85}', '\u{a0}', '\u{1680}', '\u{2003}', '\u{2028}', '\u{2029}', '\u{202f}', '\u{205f}', '\u{3000}'] {
        assert!(is_whitespace(c));
        assert!(c.is_whitespace());
    }
    for c in ['a', '0', '_', '\u{200b}', '\u{feff}', '\u{1c}'] {
        assert_eq!(is_whitespace(c), c.is_whitespace());
    }
    let mut c = 0u32;
    while c < 0x3100 {
        if let Some(ch) = char::from_u32(c) {
            assert_eq!(is_whitespace(ch), ch.is_whitespace(), "U+{:04X}", c);
        }
        c += 1;
    }
}

#[test]
fn trimming() {
    assert_eq!(trim_text("  a b \r\n"), "a b");
    assert_eq!(trim_text("ab"), "ab");
    assert_eq!(trim_text("   "), "");
    assert_eq!(trim_text(""), "");
    assert_eq!(trim_text("\u{a0}x\u{3000}"), "x");
    for sample in ["", " ", "a", " a", "a ", "\t a \u{85}b\u{2003} \n", "\u{200b} x \u{200b}"] {
        assert_eq!(trim_text(sample), sample.trim());
    }
}

#[test]
fn lines() {
    let none: Vec<String> = Vec::new();
    assert_eq!(split_lines(""), none);
    assert_eq!(split_lines("\n"), vec!["".to_string()]);
    assert_eq!(split_lines("a"), vec!["a".to_string()]);
    assert_eq!(split_lines("a\n"), vec!["a".to_string()]);
    assert_eq!(split_lines("a\n\nb\n\n"), vec!["a".to_string(), "".to_string(), "b".to_string(), "".to_string()]);
    for sample in ["", "\n", "a", "a\nb", "a\nb\n", "\n\n", "x\n\ny\n\n\n", " \n "] {
        let expected: Vec<String> = sample.lines().map(String::from).collect();
        assert_eq!(split_lines(sample), expected, "{:?}", sample);
    }
    // A carriage return stays with its line; fields are trimmed later.
    assert_eq!(split_lines("a\r\nb"), vec!["a\r".to_string(), "b".to_string()]);
}

#[test]
fn default_map() {
    let mut t = CommandTranslator::new(None, None);
    let table = [
        ("ls", "ls", "ls", "dir"),
        ("cat", "cat", "cat", "type"),
        ("cp", "cp", "cp", "copy"),
        ("mv", "mv", "mv", "move"),
        ("rm", "rm", "rm", "del"),
        ("pwd", "pwd", "pwd", "cd"),
        ("which", "which", "which", "where"),
        ("ps", "ps", "ps", "tasklist"),
        ("kill", "kill", "kill", "taskkill"),
        ("grep", "grep", "grep", "findstr"),
        ("clear", "clear", "clear", "cls"),
        ("man", "man", "man", "help"),
        ("mkdir", "mkdir", "mkdir", "mkdir"),
        ("rmdir", "rmdir", "rmdir", "rmdir"),
        ("echo", "echo", "echo", "echo"),
    ];
    for (command, linux, macos, windows) in table {
        assert_eq!(t.get_warnings(command), 0);
        assert_eq!(
            t.translate_command(command, "linux", "", "").translated_command,
            Some(linux.to_string())
        );
        assert_eq!(
            t.translate_command(command, "macos", "", "").translated_command,
            Some(macos.to_string())
        );
        assert_eq!(
            t.translate_command(command, "windows", "", "").translated_command,
            Some(windows.to_string())
        );
        assert_eq!(t.translate_command(command, "plan9", "", "").translated_command, None);
        assert_eq!(t.get_warnings(command), 4);
    }
    assert_eq!(t.get_warnings("unknown"), 0);
}

#[test]
fn reports() {
    assert_eq!(MAX_TRANSLATION_WARNINGS, 3);
    let mut t = CommandTranslator::empty();
    t.add_translation("ls", pairs(&[("windows", "dir")]));

    let r = t.translate_command("ls", "windows", "low", "[1.0, 2.0]");
    assert_eq!(r.original_command, "ls");
    assert_eq!(r.translated_command, Some("dir".to_string()));
    assert_eq!(
        r.informational_output,
        "Your command was: ls\nThreat Information: low\nCategorical Threat Weights: [1.0, 2.0]\nTranslated Command: dir"
    );

    let r = t.translate_command("ls", "linux", "low", "[]");
    assert_eq!(r.translated_command, None);
    assert_eq!(
        r.informational_output,
        "Your command was: ls\nThreat Information: low\nCategorical Threat Weights: []\nTranslated Command: <none>"
    );

    let r = t.translate_command("ls", "windows", "low", "[]");
    assert!(r.informational_output.ends_with("Translated Command: dir"));
    assert_eq!(t.get_warnings("ls"), 3);

    // The fourth request is over the limit.
    let r = t.translate_command("ls", "windows", "high", "[0.5]");
    assert_eq!(r.translated_command, Some("dir".to_string()));
    assert_eq!(
        r.informational_output,
        "Automatic translation disabled for 'ls'. Add the command to the database if successful.\nThreat Information: high\nCategorical Threat Weights: [0.5]"
    );
    assert_eq!(t.get_warnings("ls"), 4);

    let r = t.translate_command("frobnicate", "linux", "N/A", "[]");
    assert_eq!(r.original_command, "frobnicate");
    assert_eq!(r.translated_command, None);
    assert_eq!(
        r.informational_output,
        "Your command was: frobnicate\nThreat Information: N/A\nCategorical Threat Weights: []\nNo translation available."
    );
    assert_eq!(t.get_warnings("frobnicate"), 0);
}

#[test]
fn adding_replaces_and_resets() {
    let mut t = CommandTranslator::empty();
    t.add_translation("ls", pairs(&[("windows", "dir")]));
    t.add_translation("cat", pairs(&[("windows", "type")]));
    t.translate_command("ls", "windows", "", "");
    assert_eq!(t.get_warnings("ls"), 1);
    t.add_translation("ls", pairs(&[("windows", "DIR"), ("windows", "Get-ChildItem")]));
    assert_eq!(t.get_warnings("ls"), 0);
    // A later counterpart for a system replaces an earlier one.
    assert_eq!(
        t.translate_command("ls", "windows", "", "").translated_command,
        Some("Get-ChildItem".to_string())
    );
    assert_eq!(
        t.translate_command("cat", "windows", "", "").translated_command,
        Some("type".to_string())
    );
}

#[test]
fn translations_file() {
    let json = r#"{"zip": {"windows": "Compress-Archive", "linux": "zip"}, "ls": {"windows": "dir /b"}}"#;
    let mut t = CommandTranslator::new(Some(json), None);
    assert_eq!(
        t.translate_command("zip", "windows", "", "").translated_command,
        Some("Compress-Archive".to_string())
    );
    assert_eq!(
        t.translate_command("ls", "windows", "", "").translated_command,
        Some("dir /b".to_string())
    );
    // A file that can be read replaces the built-in entries altogether.
    assert_eq!(t.translate_command("cat", "windows", "", "").translated_command, None);
    assert_eq!(t.translate_command("ls", "linux", "", "").translated_command, None);
}

#[test]
fn broken_translations_file_falls_back() {
    for text in ["", "not json", "[1, 2]", r#"{"ls": "dir"}"#, r#"{"ls": {"windows": 3}}"#] {
        let mut t = CommandTranslator::new(Some(text), None);
        assert_eq!(
            t.translate_command("ls", "windows", "", "").translated_command,
            Some("dir".to_string()),
            "{}",
            text
        );
    }
    let mut t = CommandTranslator::new(Some("{}"), None);
    assert_eq!(t.translate_command("ls", "windows", "", "").translated_command, None);
}

#[test]
fn risk_table() {
    let csv = "env,binary,flag,m1,m2,m3,m4,m5,macos,linux,win,ps,wsl\n\
linux, tar ,-x,1,2,3,4,5, gtar , tar ,none,, wsl-tar \r\n\
linux,short,-x,1,2\n\
linux,nothing,-x,1,2,3,4,5,none,none,none,none,none\n\
linux,ls,-l,1,2,3,4,5,none,none,none,Get-ChildItem,none,extra,fields\n";
    let mut t = CommandTranslator::new(None, Some(csv));
    assert_eq!(t.translate_command("tar", "macos", "", "").translated_command, Some("gtar".to_string()));
    assert_eq!(t.translate_command("tar", "linux", "", "").translated_command, Some("tar".to_string()));
    assert_eq!(t.translate_command("tar", "windows", "", "").translated_command, None);
    assert_eq!(t.translate_command("tar", "powershell", "", "").translated_command, None);
    assert_eq!(t.translate_command("tar", "wsl", "", "").translated_command, Some("wsl-tar".to_string()));
    assert_eq!(t.get_warnings("short"), 0);
    assert_eq!(t.translate_command("short", "linux", "", "").translated_command, None);
    assert!(t.translate_command("nothing", "linux", "", "").informational_output.ends_with("No translation available."));
    // The risk table is read after the translations and replaces their entries.
    assert_eq!(
        t.translate_command("ls", "powershell", "", "").translated_command,
        Some("Get-ChildItem".to_string())
    );
    assert_eq!(t.translate_command("ls", "windows", "", "").translated_command, None);
    assert_eq!(t.translate_command("cat", "windows", "", "").translated_command, Some("type".to_string()));
    // The heading is no entry.
    assert!(t.translate_command("binary", "macos", "", "").informational_output.ends_with("No translation available."));
}

#[test]
fn risk_table_without_rows() {
    for csv in ["", "heading only", "heading\n"] {
        let mut t = CommandTranslator::new(None, Some(csv));
        assert_eq!(t.translate_command("ls", "windows", "", "").translated_command, Some("dir".to_string()));
    }
}

#[test]
fn initialize_sets_once() {
    let mut state = TranslationState { operating_shell: None, translator: None };
    initialize(&mut state, "macos", Some(r#"{"a": {"macos": "b"}}"#), None);
    assert_eq!(state.operating_shell, Some("macos".to_string()));
    initialize(&mut state, "linux", None, None);
    assert_eq!(state.operating_shell, Some("macos".to_string()));
    let t = state.translator.as_mut().unwrap();
    assert_eq!(t.translate_command("a", "macos", "", "").translated_command, Some("b".to_string()));
    assert_eq!(t.translate_command("ls", "windows", "", "").translated_command, None);
}
