//! Command-name translation between operating systems: a lookup table from
//! a command to its counterpart per system, and the informational text that
//! accompanies a lookup.

use vstd::prelude::*;
use vstd::string::*;
use crate::assoc::{
    assoc_map, find_last, lemma_assoc_map_absent, lemma_assoc_map_last, lemma_assoc_map_update,
};
use crate::exec::Platform;
use crate::text::{
    is_space, is_whitespace, join, join_strings, lemma_texts_push, push_char, replace_char,
    replace_char_in, split_lines, split_on, split_text, str_eq, text_lines, texts, trim, trim_text,
};
use std::collections::BTreeMap;

verus! {

/// How often a command is translated with full information before the
/// translator turns itself off for it.
pub const MAX_TRANSLATION_WARNINGS: usize = 3;

/// What a lookup reported for one command.
#[derive(Clone, Debug, PartialEq, Eq)]
pub struct CommandTranslationResult {
    pub original_command: String,
    pub translated_command: Option<String>,
    pub informational_output: String,
}

/// The mathematical content of a [`CommandTranslationResult`].
pub struct CommandTranslationResultView {
    pub original_command: Seq<char>,
    pub translated_command: Option<Seq<char>>,
    pub informational_output: Seq<char>,
}

/// The view of an optional string.
pub open spec fn opt_text(s: Option<String>) -> Option<Seq<char>> {
    match s {
        Some(t) => Some(t@),
        None => None,
    }
}

impl View for CommandTranslationResult {
    type V = CommandTranslationResultView;

    open spec fn view(&self) -> CommandTranslationResultView {
        CommandTranslationResultView {
            original_command: self.original_command@,
            translated_command: opt_text(self.translated_command),
            informational_output: self.informational_output@,
        }
    }
}

/// The view of an optional lookup report.
pub open spec fn opt_translation(t: Option<CommandTranslationResult>) -> Option<
    CommandTranslationResultView,
> {
    match t {
        Some(r) => Some(r@),
        None => None,
    }
}


/// Converts a path with backslashes to forward slashes.
pub fn to_unix_path(path: &str) -> (r: String)
    ensures
        r@ == replace_char(path@, '\\', "/"@),
{
    replace_char_in(path, '\\', "/")
}

/// Converts a path with forward slashes to backslashes.
pub fn to_windows_path(path: &str) -> (r: String)
    ensures
        r@ == replace_char(path@, '/', "\\"@),
{
    replace_char_in(path, '/', "\\")
}

/// A path in the notation of a platform: backslashes on Windows, forward
/// slashes everywhere else.
pub open spec fn path_for(path: Seq<char>, platform: Platform) -> Seq<char> {
    if platform == Platform::Windows {
        replace_char(path, '/', "\\"@)
    } else {
        replace_char(path, '\\', "/"@)
    }
}

/// Brings a path into the notation of the platform.
pub fn normalize_path(path: &str, platform: Platform) -> (r: String)
    ensures
        r@ == path_for(path@, platform),
{
    match platform {
        Platform::Windows => to_windows_path(path),
        _ => to_unix_path(path),
    }
}

/// Reading `s` from the left: the words that are complete, and the word
/// that is still open (empty after white space).
pub open spec fn scan_words(s: Seq<char>) -> (Seq<Seq<char>>, Seq<char>)
    decreases s.len(),
{
    if s.len() == 0 {
        (Seq::empty(), Seq::empty())
    } else {
        let (done, open) = scan_words(s.drop_last());
        if is_space(s.last()) {
            if open.len() > 0 {
                (done.push(open), Seq::empty())
            } else {
                (done, Seq::empty())
            }
        } else {
            (done, open.push(s.last()))
        }
    }
}

/// The words of `s`: its maximal runs of characters that are not white
/// space, in order.
pub open spec fn words(s: Seq<char>) -> Seq<Seq<char>> {
    let (done, open) = scan_words(s);
    if open.len() > 0 {
        done.push(open)
    } else {
        done
    }
}

/// Whether a word looks like a path: it holds a slash of either kind.
pub open spec fn looks_like_path(word: Seq<char>) -> bool {
    word.contains('/') || word.contains('\\')
}

/// A word with its slashes in the notation of the platform, if it looks
/// like a path.
pub open spec fn normalized_word(word: Seq<char>, platform: Platform) -> Seq<char> {
    if looks_like_path(word) {
        path_for(word, platform)
    } else {
        word
    }
}

/// The words of a command line, paths among them in the notation of the
/// platform, with one space between neighbours.
pub open spec fn normalized_command(command: Seq<char>, platform: Platform) -> Seq<char> {
    join(words(command).map_values(|w: Seq<char>| normalized_word(w, platform)), " "@)
}

/// Splits a text into its words.
pub fn split_words(s: &str) -> (r: Vec<String>)
    ensures
        texts(r@) == words(s@),
{
    let mut done: Vec<String> = Vec::new();
    let mut open = String::new();
    for c in it: s.chars()
        invariant
            it.seq() == s@,
            (texts(done@), open@) == scan_words(s@.take(it.index())),
    {
        proof {
            let i = it.index();
            assert(s@.take(i + 1).drop_last() == s@.take(i));
            assert(s@.take(i + 1).last() == c);
        }
        if is_whitespace(c) {
            if open.as_str().unicode_len() > 0 {
                proof {
                    lemma_texts_push(done@, open);
                }
                done.push(open);
            }
            open = String::new();
        } else {
            push_char(&mut open, c);
        }
    }
    proof {
        assert(s@.take(s@.len() as int) == s@);
    }
    if open.as_str().unicode_len() > 0 {
        proof {
            lemma_texts_push(done@, open);
        }
        done.push(open);
    }
    done
}

/// Whether a text holds a given character.
pub fn has_char(s: &str, wanted: char) -> (r: bool)
    ensures
        r == s@.contains(wanted),
{
    let mut found = false;
    for c in it: s.chars()
        invariant
            it.seq() == s@,
            found == s@.take(it.index()).contains(wanted),
    {
        proof {
            let i = it.index();
            let before = s@.take(i);
            let now = s@.take(i + 1);
            assert(now == before.push(c));
            if before.contains(wanted) {
                let k = choose|k: int| 0 <= k < before.len() && before[k] == wanted;
                assert(now[k] == wanted);
            }
            if c == wanted {
                assert(now[i] == wanted);
            }
            if now.contains(wanted) && c != wanted {
                let k = choose|k: int| 0 <= k < now.len() && now[k] == wanted;
                assert(before[k] == wanted);
            }
        }
        if c == wanted {
            found = true;
        }
    }
    proof {
        assert(s@.take(s@.len() as int) == s@);
    }
    found
}

/// Brings every path among the words of a command line into the notation
/// of the platform. Runs of white space come out as single spaces.
pub fn normalize_command_paths(command: &str, platform: Platform) -> (r: String)
    ensures
        r@ == normalized_command(command@, platform),
{
    let tokens = split_words(command);
    let mut out: Vec<String> = Vec::new();
    let mut i: usize = 0;
    while i < tokens.len()
        invariant
            i <= tokens.len(),
            texts(tokens@) == words(command@),
            texts(out@) == words(command@).take(i as int).map_values(
                |w: Seq<char>| normalized_word(w, platform),
            ),
        decreases tokens.len() - i,
    {
        let token = tokens[i].as_str();
        let fixed = if has_char(token, '/') || has_char(token, '\\') {
            normalize_path(token, platform)
        } else {
            tokens[i].clone()
        };
        proof {
            let all = words(command@);
            assert(all[i as int] == tokens@[i as int]@);
            lemma_texts_push(out@, fixed);
            assert(all.take(i as int + 1).map_values(|w: Seq<char>| normalized_word(w, platform))
                =~= all.take(i as int).map_values(
                |w: Seq<char>| normalized_word(w, platform),
            ).push(normalized_word(all[i as int], platform)));
        }
        out.push(fixed);
        i = i + 1;
    }
    proof {
        assert(words(command@).take(tokens.len() as int) == words(command@));
    }
    join_strings(&out, " ")
}


/// What the translator knows of one command: its counterpart per system,
/// and how often it was asked for.
#[derive(Clone, Debug)]
pub struct CommandTranslation {
    os_mappings: Vec<(String, String)>,
    warnings: usize,
}

/// The mathematical content of a [`CommandTranslation`].
pub struct CommandTranslationView {
    pub os_mappings: Map<Seq<char>, Seq<char>>,
    pub warnings: nat,
}

impl View for CommandTranslation {
    type V = CommandTranslationView;

    closed spec fn view(&self) -> CommandTranslationView {
        CommandTranslationView {
            os_mappings: assoc_map(self.os_mappings@),
            warnings: self.warnings as nat,
        }
    }
}

/// A table from commands to their counterparts on other systems.
#[derive(Clone, Debug)]
pub struct CommandTranslator {
    translations: Vec<(String, CommandTranslation)>,
    max_warnings: usize,
}

/// The mathematical content of a [`CommandTranslator`].
pub struct CommandTranslatorView {
    pub translations: Map<Seq<char>, CommandTranslationView>,
    pub max_warnings: nat,
}

impl View for CommandTranslator {
    type V = CommandTranslatorView;

    closed spec fn view(&self) -> CommandTranslatorView {
        CommandTranslatorView {
            translations: assoc_map(self.translations@),
            max_warnings: self.max_warnings as nat,
        }
    }
}

/// An entry that was never asked for.
pub open spec fn fresh_translation(os_mappings: Map<Seq<char>, Seq<char>>) -> CommandTranslationView {
    CommandTranslationView { os_mappings, warnings: 0 }
}

/// The first line of every report.
pub open spec fn threat_statement(threat_info: Seq<char>) -> Seq<char> {
    "Threat Information: "@ + threat_info
}

/// The second line of every report; `threat_weights` is the list of
/// weights as text.
pub open spec fn weights_statement(threat_weights: Seq<char>) -> Seq<char> {
    "Categorical Threat Weights: "@ + threat_weights
}

/// The counterpart of a command on a system, if the entry names one.
pub open spec fn counterpart(entry: CommandTranslationView, os: Seq<char>) -> Option<Seq<char>> {
    if entry.os_mappings.contains_key(os) {
        Some(entry.os_mappings[os])
    } else {
        None
    }
}

/// How often an entry was asked for after one more request; the count
/// stops at the largest number the machine holds.
pub open spec fn bumped(warnings: nat) -> nat {
    if warnings < usize::MAX {
        warnings + 1
    } else {
        warnings
    }
}

/// The report on a command.
pub open spec fn translation_report(
    table: CommandTranslatorView,
    command: Seq<char>,
    os: Seq<char>,
    threat_info: Seq<char>,
    threat_weights: Seq<char>,
) -> CommandTranslationResultView {
    let threat = threat_statement(threat_info);
    let weights = weights_statement(threat_weights);
    if table.translations.contains_key(command) {
        let entry = table.translations[command];
        let translated = counterpart(entry, os);
        CommandTranslationResultView {
            original_command: command,
            translated_command: translated,
            informational_output: if bumped(entry.warnings) > table.max_warnings {
                "Automatic translation disabled for '"@ + command
                    + "'. Add the command to the database if successful.\n"@ + threat + "\n"@
                    + weights
            } else {
                "Your command was: "@ + command + "\n"@ + threat + "\n"@ + weights
                    + "\nTranslated Command: "@ + match translated {
                    Some(t) => t,
                    None => "<none>"@,
                }
            },
        }
    } else {
        CommandTranslationResultView {
            original_command: command,
            translated_command: None,
            informational_output: "Your command was: "@ + command + "\n"@ + threat + "\n"@ + weights
                + "\nNo translation available."@,
        }
    }
}

/// The table after a report on `command`: the entry of the command, if
/// there is one, has been asked for once more.
pub open spec fn table_after_report(
    table: CommandTranslatorView,
    command: Seq<char>,
) -> CommandTranslatorView {
    if table.translations.contains_key(command) {
        let entry = table.translations[command];
        CommandTranslatorView {
            translations: table.translations.insert(
                command,
                CommandTranslationView {
                    os_mappings: entry.os_mappings,
                    warnings: bumped(entry.warnings),
                },
            ),
            max_warnings: table.max_warnings,
        }
    } else {
        table
    }
}

/// Looks a name up in a list of named texts.
fn lookup_text(entries: &Vec<(String, String)>, key: &str) -> (r: Option<String>)
    ensures
        opt_text(r) == if assoc_map(entries@).contains_key(key@) {
            Some(assoc_map(entries@)[key@])
        } else {
            None
        },
{
    match find_last(entries, key) {
        Some(i) => {
            proof {
                lemma_assoc_map_last(entries@, i as int);
            }
            Some(entries[i].1.clone())
        },
        None => {
            proof {
                lemma_assoc_map_absent(entries@, key@);
            }
            None
        },
    }
}

impl CommandTranslator {
    /// A table without entries.
    pub fn empty() -> (r: CommandTranslator)
        ensures
            r@.translations == Map::<Seq<char>, CommandTranslationView>::empty(),
            r@.max_warnings == MAX_TRANSLATION_WARNINGS,
    {
        CommandTranslator { translations: Vec::new(), max_warnings: MAX_TRANSLATION_WARNINGS }
    }

    /// Sets the entry of a command, replacing the one it had: the given
    /// counterparts per system (a later one for a system replaces an earlier
    /// one), never asked for.
    pub fn add_translation(&mut self, command: &str, os_mappings: Vec<(String, String)>)
        ensures
            final(self)@.max_warnings == old(self)@.max_warnings,
            final(self)@.translations == old(self)@.translations.insert(
                command@,
                fresh_translation(assoc_map(os_mappings@)),
            ),
    {
        let entry = CommandTranslation { os_mappings, warnings: 0 };
        match find_last(&self.translations, command) {
            Some(i) => {
                proof {
                    lemma_assoc_map_update(self.translations@, i as int, entry);
                }
                let name = self.translations[i].0.clone();
                self.translations.set(i, (name, entry));
                proof {
                    assert(self.translations@ =~= old(self).translations@.update(
                        i as int,
                        (old(self).translations@[i as int].0, entry),
                    )) by {
                        assert(name@ == old(self).translations@[i as int].0@);
                    }
                }
            },
            None => {
                let ghost before = self.translations@;
                self.translations.push((command.to_owned(), entry));
                proof {
                    assert(self.translations@.drop_last() == before);
                }
            },
        }
    }

    /// How often a command was asked for; 0 for a command without entry.
    pub fn get_warnings(&self, command: &str) -> (r: usize)
        ensures
            r == if self@.translations.contains_key(command@) {
                self@.translations[command@].warnings
            } else {
                0
            },
    {
        match find_last(&self.translations, command) {
            Some(i) => {
                proof {
                    lemma_assoc_map_last(self.translations@, i as int);
                }
                self.translations[i].1.warnings
            },
            None => {
                proof {
                    lemma_assoc_map_absent(self.translations@, command@);
                }
                0
            },
        }
    }
}


impl CommandTranslator {
    /// Reports on a command for a system and counts the request. A command
    /// without entry has no translation. A command with an entry gets its
    /// counterpart on the system, if the entry names one; once it was asked
    /// for more often than the table allows, the report says that automatic
    /// translation is off. `threat_weights` is the list of weights as text.
    pub fn translate_command(
        &mut self,
        command: &str,
        os: &str,
        threat_info: &str,
        threat_weights: &str,
    ) -> (r: CommandTranslationResult)
        ensures
            r@ == translation_report(old(self)@, command@, os@, threat_info@, threat_weights@),
            final(self)@ == table_after_report(old(self)@, command@),
    {
        let mut threat = "Threat Information: ".to_owned();
        threat.append(threat_info);
        let mut weights = "Categorical Threat Weights: ".to_owned();
        weights.append(threat_weights);
        match find_last(&self.translations, command) {
            Some(i) => {
                proof {
                    lemma_assoc_map_last(self.translations@, i as int);
                }
                let translated = lookup_text(&self.translations[i].1.os_mappings, os);
                let asked = self.translations[i].1.warnings;
                let warnings = if asked < usize::MAX {
                    asked + 1
                } else {
                    asked
                };
                let mut entry = CommandTranslation { os_mappings: Vec::new(), warnings };
                let mut slot = (String::new(), CommandTranslation { os_mappings: Vec::new(), warnings: 0 });
                std::mem::swap(&mut slot, &mut self.translations[i]);
                entry.os_mappings = slot.1.os_mappings;
                proof {
                    lemma_assoc_map_update(old(self).translations@, i as int, entry);
                }
                self.translations.set(i, (slot.0, entry));
                proof {
                    assert(self.translations@ =~= old(self).translations@.update(
                        i as int,
                        (old(self).translations@[i as int].0, entry),
                    ));
                }
                let mut info = String::new();
                if warnings > self.max_warnings {
                    info.append("Automatic translation disabled for '");
                    info.append(command);
                    info.append("'. Add the command to the database if successful.\n");
                    info.append(threat.as_str());
                    info.append("\n");
                    info.append(weights.as_str());
                } else {
                    info.append("Your command was: ");
                    info.append(command);
                    info.append("\n");
                    info.append(threat.as_str());
                    info.append("\n");
                    info.append(weights.as_str());
                    info.append("\nTranslated Command: ");
                    match &translated {
                        Some(t) => {
                            info.append(t.as_str());
                        },
                        None => {
                            info.append("<none>");
                        },
                    }
                }
                proof {
                    reveal_strlit("");
                    assert(""@ + "Automatic translation disabled for '"@
                        == "Automatic translation disabled for '"@);
                    assert(""@ + "Your command was: "@ == "Your command was: "@);
                }
                CommandTranslationResult {
                    original_command: command.to_owned(),
                    translated_command: translated,
                    informational_output: info,
                }
            },
            None => {
                proof {
                    lemma_assoc_map_absent(self.translations@, command@);
                }
                let mut info = "Your command was: ".to_owned();
                info.append(command);
                info.append("\n");
                info.append(threat.as_str());
                info.append("\n");
                info.append(weights.as_str());
                info.append("\nNo translation available.");
                CommandTranslationResult {
                    original_command: command.to_owned(),
                    translated_command: None,
                    informational_output: info,
                }
            },
        }
    }
}


/// The entry of a command that has one counterpart each on Linux, macOS
/// and Windows.
pub open spec fn three_systems(
    linux: Seq<char>,
    macos: Seq<char>,
    windows: Seq<char>,
) -> CommandTranslationView {
    fresh_translation(
        Map::<Seq<char>, Seq<char>>::empty().insert("linux"@, linux).insert("macos"@, macos).insert(
            "windows"@,
            windows,
        ),
    )
}

/// A table with the built-in entries set over it.
pub open spec fn with_default_map(
    table: Map<Seq<char>, CommandTranslationView>,
) -> Map<Seq<char>, CommandTranslationView> {
    table.insert("ls"@, three_systems("ls"@, "ls"@, "dir"@)).insert(
        "cat"@,
        three_systems("cat"@, "cat"@, "type"@),
    ).insert("cp"@, three_systems("cp"@, "cp"@, "copy"@)).insert(
        "mv"@,
        three_systems("mv"@, "mv"@, "move"@),
    ).insert("rm"@, three_systems("rm"@, "rm"@, "del"@)).insert(
        "pwd"@,
        three_systems("pwd"@, "pwd"@, "cd"@),
    ).insert("which"@, three_systems("which"@, "which"@, "where"@)).insert(
        "ps"@,
        three_systems("ps"@, "ps"@, "tasklist"@),
    ).insert("kill"@, three_systems("kill"@, "kill"@, "taskkill"@)).insert(
        "grep"@,
        three_systems("grep"@, "grep"@, "findstr"@),
    ).insert("clear"@, three_systems("clear"@, "clear"@, "cls"@)).insert(
        "man"@,
        three_systems("man"@, "man"@, "help"@),
    ).insert("mkdir"@, three_systems("mkdir"@, "mkdir"@, "mkdir"@)).insert(
        "rmdir"@,
        three_systems("rmdir"@, "rmdir"@, "rmdir"@),
    ).insert("echo"@, three_systems("echo"@, "echo"@, "echo"@))
}

/// The map that a list of pairs of texts stands for; a later pair for a
/// name replaces an earlier one.
pub open spec fn text_map(pairs: Seq<(Seq<char>, Seq<char>)>) -> Map<Seq<char>, Seq<char>>
    decreases pairs.len(),
{
    if pairs.len() == 0 {
        Map::empty()
    } else {
        text_map(pairs.drop_last()).insert(pairs.last().0, pairs.last().1)
    }
}

/// The views of a list of pairs of strings.
pub open spec fn pair_texts(pairs: Seq<(String, String)>) -> Seq<(Seq<char>, Seq<char>)> {
    pairs.map_values(|p: (String, String)| (p.0@, p.1@))
}

/// A list of pairs of strings stands for the map of its views.
pub proof fn lemma_assoc_map_is_text_map(pairs: Seq<(String, String)>)
    ensures
        assoc_map(pairs) == text_map(pair_texts(pairs)),
    decreases pairs.len(),
{
    if pairs.len() > 0 {
        lemma_assoc_map_is_text_map(pairs.drop_last());
        assert(pair_texts(pairs).drop_last() == pair_texts(pairs.drop_last()));
    }
}

/// The views of the rows of a table: each a command with its pairs of
/// system and counterpart.
pub open spec fn table_texts(rows: Seq<(String, Vec<(String, String)>)>) -> Seq<
    (Seq<char>, Seq<(Seq<char>, Seq<char>)>),
> {
    rows.map_values(|row: (String, Vec<(String, String)>)| (row.0@, pair_texts(row.1@)))
}

/// The view of an optional table.
pub open spec fn opt_table_texts(table: Option<Vec<(String, Vec<(String, String)>)>>) -> Option<
    Seq<(Seq<char>, Seq<(Seq<char>, Seq<char>)>)>,
> {
    match table {
        Some(rows) => Some(table_texts(rows@)),
        None => None,
    }
}

/// What a text holds when read as a JSON object of objects of strings:
/// its members in ascending order of their names, each with its own members
/// in ascending order; `None` where the text is no such JSON.
pub uninterp spec fn translation_table(contents: Seq<char>) -> Option<
    Seq<(Seq<char>, Seq<(Seq<char>, Seq<char>)>)>,
>;

/// Reads a JSON object of objects of strings.
///
/// Trusted: wraps `serde_json::from_str`, for ordered maps of ordered maps
/// of strings, and hands the members out in the maps' order. The contract
/// only names the result, which depends on the text alone.
#[verifier::external_body]
pub(crate) fn parse_translation_table(contents: &str) -> (r: Option<
    Vec<(String, Vec<(String, String)>)>,
>)
    ensures
        opt_table_texts(r) == translation_table(contents@),
{
    let parsed: Result<BTreeMap<String, BTreeMap<String, String>>, serde_json::Error> =
        serde_json::from_str(contents);
    match parsed {
        Ok(map) => Some(map.into_iter().map(|(k, v)| (k, v.into_iter().collect())).collect()),
        Err(_) => None,
    }
}

/// A table with the rows set over it, one after the other.
pub open spec fn with_rows(
    table: Map<Seq<char>, CommandTranslationView>,
    rows: Seq<(Seq<char>, Seq<(Seq<char>, Seq<char>)>)>,
) -> Map<Seq<char>, CommandTranslationView>
    decreases rows.len(),
{
    if rows.len() == 0 {
        table
    } else {
        with_rows(table, rows.drop_last()).insert(
            rows.last().0,
            fresh_translation(text_map(rows.last().1)),
        )
    }
}

/// A table with what a translations file holds set over it: its rows, or
/// the built-in entries where there is no file or it cannot be read as one.
pub open spec fn with_translations(
    table: Map<Seq<char>, CommandTranslationView>,
    parsed: Option<Seq<(Seq<char>, Seq<(Seq<char>, Seq<char>)>)>>,
) -> Map<Seq<char>, CommandTranslationView> {
    match parsed {
        Some(rows) => with_rows(table, rows),
        None => with_default_map(table),
    }
}

/// The pair of a system and the counterpart a field names for it; none
/// where the field is empty or says `none`.
pub open spec fn optional_mapping(os: Seq<char>, value: Seq<char>) -> Seq<(Seq<char>, Seq<char>)> {
    if value == "none"@ || value.len() == 0 {
        Seq::empty()
    } else {
        seq![(os, value)]
    }
}

/// The counterparts that a row of at least thirteen fields names, by
/// system: fields 8 to 12 stand for macOS, Linux, the Windows command
/// shell, PowerShell and WSL, each without the white space around it.
pub open spec fn row_mappings(fields: Seq<Seq<char>>) -> Seq<(Seq<char>, Seq<char>)> {
    optional_mapping("macos"@, trim(fields[8])) + optional_mapping("linux"@, trim(fields[9]))
        + optional_mapping("windows"@, trim(fields[10])) + optional_mapping(
        "powershell"@,
        trim(fields[11]),
    ) + optional_mapping("wsl"@, trim(fields[12]))
}

/// A table with one line of a risk table set over it. Fields are separated
/// by commas. Lines with fewer than thirteen fields, and lines that name no
/// counterpart, change nothing; any other line sets the entry of the binary
/// in field 1.
pub open spec fn with_risk_line(
    table: Map<Seq<char>, CommandTranslationView>,
    line: Seq<char>,
) -> Map<Seq<char>, CommandTranslationView> {
    let fields = split_on(line, ',');
    if fields.len() < 13 {
        table
    } else if row_mappings(fields).len() == 0 {
        table
    } else {
        table.insert(trim(fields[1]), fresh_translation(text_map(row_mappings(fields))))
    }
}

/// A table with the lines of a risk table set over it, one after the other.
pub open spec fn with_risk_lines(
    table: Map<Seq<char>, CommandTranslationView>,
    lines: Seq<Seq<char>>,
) -> Map<Seq<char>, CommandTranslationView>
    decreases lines.len(),
{
    if lines.len() == 0 {
        table
    } else {
        with_risk_line(with_risk_lines(table, lines.drop_last()), lines.last())
    }
}

/// A table with a risk table set over it: every line after the heading, in
/// order.
pub open spec fn with_risk_csv(
    table: Map<Seq<char>, CommandTranslationView>,
    contents: Seq<char>,
) -> Map<Seq<char>, CommandTranslationView> {
    let lines = text_lines(contents);
    if lines.len() <= 1 {
        table
    } else {
        with_risk_lines(table, lines.skip(1))
    }
}

/// A table with an optional risk table set over it.
pub open spec fn with_optional_risk_csv(
    table: Map<Seq<char>, CommandTranslationView>,
    contents: Option<Seq<char>>,
) -> Map<Seq<char>, CommandTranslationView> {
    match contents {
        Some(text) => with_risk_csv(table, text),
        None => table,
    }
}

/// Adds the pair of a system and a counterpart unless the field is empty
/// or says `none`.
fn push_mapping(map: &mut Vec<(String, String)>, os: &str, field: &str)
    ensures
        pair_texts(final(map)@) == pair_texts(old(map)@) + optional_mapping(os@, trim(field@)),
{
    let value = trim_text(field);
    if !str_eq(value.as_str(), "none") && value.as_str().unicode_len() > 0 {
        let entry = (os.to_owned(), value);
        map.push(entry);
        proof {
            assert(pair_texts(map@) =~= pair_texts(old(map)@) + seq![(os@, trim(field@))]);
        }
    } else {
        proof {
            assert(pair_texts(map@) =~= pair_texts(old(map)@) + Seq::<
                (Seq<char>, Seq<char>),
            >::empty());
        }
    }
}

impl CommandTranslator {
    /// Sets the entry of a command that has one counterpart each on Linux,
    /// macOS and Windows.
    fn add_three(&mut self, command: &str, linux: &str, macos: &str, windows: &str)
        ensures
            final(self)@.max_warnings == old(self)@.max_warnings,
            final(self)@.translations == old(self)@.translations.insert(
                command@,
                three_systems(linux@, macos@, windows@),
            ),
    {
        let mut mappings: Vec<(String, String)> = Vec::new();
        mappings.push(("linux".to_owned(), linux.to_owned()));
        mappings.push(("macos".to_owned(), macos.to_owned()));
        mappings.push(("windows".to_owned(), windows.to_owned()));
        proof {
            let m = mappings@;
            assert(m.drop_last().drop_last().drop_last() == Seq::<(String, String)>::empty());
            assert(m.drop_last().drop_last().last() == m[0]);
            assert(m.drop_last().last() == m[1]);
            reveal_with_fuel(assoc_map, 4);
            assert(assoc_map(m) == Map::<Seq<char>, Seq<char>>::empty().insert(
                "linux"@,
                linux@,
            ).insert("macos"@, macos@).insert("windows"@, windows@));
        }
        self.add_translation(command, mappings);
    }

    /// Sets the built-in entries: the everyday commands with their
    /// counterparts on Linux, macOS and Windows.
    pub fn insert_default_map(&mut self)
        ensures
            final(self)@.max_warnings == old(self)@.max_warnings,
            final(self)@.translations == with_default_map(old(self)@.translations),
    {
        self.add_three("ls", "ls", "ls", "dir");
        self.add_three("cat", "cat", "cat", "type");
        self.add_three("cp", "cp", "cp", "copy");
        self.add_three("mv", "mv", "mv", "move");
        self.add_three("rm", "rm", "rm", "del");
        self.add_three("pwd", "pwd", "pwd", "cd");
        self.add_three("which", "which", "which", "where");
        self.add_three("ps", "ps", "ps", "tasklist");
        self.add_three("kill", "kill", "kill", "taskkill");
        self.add_three("grep", "grep", "grep", "findstr");
        self.add_three("clear", "clear", "clear", "cls");
        self.add_three("man", "man", "man", "help");
        self.add_three("mkdir", "mkdir", "mkdir", "mkdir");
        self.add_three("rmdir", "rmdir", "rmdir", "rmdir");
        self.add_three("echo", "echo", "echo", "echo");
    }

    /// Sets what a translations file holds: its rows one after the other,
    /// or the built-in entries where `table` is `None`.
    pub fn load_translation_table(&mut self, table: Option<Vec<(String, Vec<(String, String)>)>>)
        ensures
            final(self)@.max_warnings == old(self)@.max_warnings,
            final(self)@.translations == with_translations(
                old(self)@.translations,
                opt_table_texts(table),
            ),
    {
        match table {
            None => {
                self.insert_default_map();
            },
            Some(rows) => {
                let mut rows = rows;
                let ghost all = rows@;
                let mut i: usize = 0;
                while i < rows.len()
                    invariant
                        i <= rows.len(),
                        rows@.len() == all.len(),
                        forall|k: int| i <= k < all.len() ==> rows@[k] == all[k],
                        self@.max_warnings == old(self)@.max_warnings,
                        self@.translations == with_rows(
                            old(self)@.translations,
                            table_texts(all).take(i as int),
                        ),
                    decreases rows.len() - i,
                {
                    let mut row = (String::new(), Vec::new());
                    std::mem::swap(&mut row, &mut rows[i]);
                    proof {
                        let t = table_texts(all);
                        assert(t.take(i as int + 1).drop_last() == t.take(i as int));
                        assert(t.take(i as int + 1).last() == (row.0@, pair_texts(row.1@)));
                        lemma_assoc_map_is_text_map(row.1@);
                    }
                    self.add_translation(row.0.as_str(), row.1);
                    i = i + 1;
                }
                proof {
                    assert(table_texts(all).take(all.len() as int) == table_texts(all));
                }
            },
        }
    }

    /// Sets what a translations file holds, given its text: the members of
    /// the JSON object it holds, or the built-in entries where there is no
    /// text or it is no such JSON.
    pub fn load_translations_from_file(&mut self, contents: Option<&str>)
        ensures
            final(self)@.max_warnings == old(self)@.max_warnings,
            final(self)@.translations == with_translations(
                old(self)@.translations,
                match contents {
                    Some(text) => translation_table(text@),
                    None => None,
                },
            ),
    {
        let table = match contents {
            Some(text) => parse_translation_table(text),
            None => None,
        };
        self.load_translation_table(table);
    }

    /// Sets one line of a risk table.
    fn load_risk_line(&mut self, line: &str)
        ensures
            final(self)@.max_warnings == old(self)@.max_warnings,
            final(self)@.translations == with_risk_line(old(self)@.translations, line@),
    {
        let fields = split_text(line, ',');
        if fields.len() < 13 {
            return ;
        }
        let binary = trim_text(fields[1].as_str());
        let mut map: Vec<(String, String)> = Vec::new();
        proof {
            assert(pair_texts(map@) =~= Seq::<(Seq<char>, Seq<char>)>::empty());
            assert(forall|k: int| 0 <= k < fields.len() ==> texts(fields@)[k] == fields@[k]@);
        }
        push_mapping(&mut map, "macos", fields[8].as_str());
        push_mapping(&mut map, "linux", fields[9].as_str());
        push_mapping(&mut map, "windows", fields[10].as_str());
        push_mapping(&mut map, "powershell", fields[11].as_str());
        push_mapping(&mut map, "wsl", fields[12].as_str());
        proof {
            assert(pair_texts(map@) =~= row_mappings(split_on(line@, ',')));
            lemma_assoc_map_is_text_map(map@);
        }
        if map.len() > 0 {
            self.add_translation(binary.as_str(), map);
        }
    }

    /// Sets what a risk table holds, given its text: the first line is the
    /// heading, every other line names a binary and its counterparts.
    pub fn load_translations_from_risk_csv(&mut self, contents: Option<&str>)
        ensures
            final(self)@.max_warnings == old(self)@.max_warnings,
            final(self)@.translations == with_optional_risk_csv(
                old(self)@.translations,
                crate::launcher::opt_str(contents),
            ),
    {
        let text = match contents {
            Some(text) => text,
            None => {
                return ;
            },
        };
        let lines = split_lines(text);
        if lines.len() <= 1 {
            return ;
        }
        let mut i: usize = 1;
        while i < lines.len()
            invariant
                1 <= i <= lines.len(),
                texts(lines@) == text_lines(text@),
                self@.max_warnings == old(self)@.max_warnings,
                self@.translations == with_risk_lines(
                    old(self)@.translations,
                    text_lines(text@).subrange(1, i as int),
                ),
            decreases lines.len() - i,
        {
            proof {
                let all = text_lines(text@);
                assert(all[i as int] == lines@[i as int]@);
                assert(all.subrange(1, i as int + 1).drop_last() == all.subrange(1, i as int));
                assert(all.subrange(1, i as int + 1).last() == all[i as int]);
            }
            self.load_risk_line(lines[i].as_str());
            i = i + 1;
        }
        proof {
            let all = text_lines(text@);
            assert(all.subrange(1, all.len() as int) == all.skip(1));
        }
    }

    /// A table made from the text of a translations file and the text of a
    /// risk table, either of which may be missing.
    pub fn new(translations_json: Option<&str>, risk_csv: Option<&str>) -> (r: CommandTranslator)
        ensures
            r@.max_warnings == MAX_TRANSLATION_WARNINGS,
            r@.translations == table_from(
                crate::launcher::opt_str(translations_json),
                crate::launcher::opt_str(risk_csv),
            ),
    {
        let mut translator = CommandTranslator::empty();
        translator.load_translations_from_file(translations_json);
        translator.load_translations_from_risk_csv(risk_csv);
        translator
    }
}

/// The translator of a process and the system it translates for. Each is
/// set once and then stays.
#[derive(Clone, Debug)]
pub struct TranslationState {
    pub operating_shell: Option<String>,
    pub translator: Option<CommandTranslator>,
}

/// The table that is made from the text of a translations file and the
/// text of a risk table, either of which may be missing.
pub open spec fn table_from(
    translations_json: Option<Seq<char>>,
    risk_csv: Option<Seq<char>>,
) -> Map<Seq<char>, CommandTranslationView> {
    with_optional_risk_csv(
        with_translations(
            Map::empty(),
            match translations_json {
                Some(text) => translation_table(text),
                None => None,
            },
        ),
        risk_csv,
    )
}

/// Whether `after` is `before` with the system and the translator set
/// where they were not: what was set stays as it was.
pub open spec fn initialized(
    before: TranslationState,
    after: TranslationState,
    shell: Seq<char>,
    translations_json: Option<Seq<char>>,
    risk_csv: Option<Seq<char>>,
) -> bool {
    &&& before.operating_shell is Some ==> after.operating_shell == before.operating_shell
    &&& before.operating_shell is None ==> opt_text(after.operating_shell) == Some(shell)
    &&& before.translator is Some ==> after.translator == before.translator
    &&& before.translator is None ==> (after.translator matches Some(t) && t@.max_warnings
        == MAX_TRANSLATION_WARNINGS && t@.translations == table_from(translations_json, risk_csv))
}

/// Sets the system and the translator where they are not set yet; what is
/// set already stays as it is.
pub fn initialize(
    state: &mut TranslationState,
    shell: &str,
    translations_json: Option<&str>,
    risk_csv: Option<&str>,
)
    ensures
        initialized(
            *old(state),
            *final(state),
            shell@,
            crate::launcher::opt_str(translations_json),
            crate::launcher::opt_str(risk_csv),
        ),
{
    if state.operating_shell.is_none() {
        state.operating_shell = Some(shell.to_owned());
    }
    if state.translator.is_none() {
        state.translator = Some(CommandTranslator::new(translations_json, risk_csv));
    }
}

} // verus!
