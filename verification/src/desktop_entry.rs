//! Desktop entries: the `.desktop` files by which applications announce
//! themselves on Linux.
//!
//! The caller reads the files; the functions here take their text.

use vstd::prelude::*;
use crate::discovery::{DiscoveredApp, DiscoveredAppView};
use crate::steam::found;
use crate::text::{
    chars_of, file_name, file_name_of, first_word, first_word_of, has_prefix, lines, lines_of,
    replace, replaced, rows, same_chars, slice, starts_with, string_of, trim, trimmed,
};

verus! {

/// What has been read of a desktop entry.
pub struct EntryScan {
    pub name: Seq<char>,
    pub command_text: Seq<char>,
    pub app_type: Seq<char>,
    pub no_display: bool,
    /// Whether the scan is inside the group `[Desktop Entry]`.
    pub in_entry: bool,
    /// Whether the group `[Desktop Entry]` has been left.
    pub done: bool,
}

/// The scan before the first line.
pub open spec fn blank_scan() -> EntryScan {
    EntryScan {
        name: seq![],
        command_text: seq![],
        app_type: seq![],
        no_display: false,
        in_entry: false,
        done: false,
    }
}

/// The scan after one more line. Only the group `[Desktop Entry]` counts,
/// and only up to the next group header. Of several `Name=` lines the first
/// counts, of several `Exec=` or `Type=` lines the last.
pub open spec fn scan_line(scan: EntryScan, line: Seq<char>) -> EntryScan {
    let text = trimmed(line);
    if scan.done {
        scan
    } else if text == "[Desktop Entry]"@ {
        EntryScan { in_entry: true, ..scan }
    } else if has_prefix(text, seq!['[']) {
        EntryScan { done: scan.in_entry, ..scan }
    } else if !scan.in_entry {
        scan
    } else if has_prefix(text, "Name="@) {
        if scan.name.len() == 0 {
            EntryScan { name: text.skip("Name="@.len() as int), ..scan }
        } else {
            scan
        }
    } else if has_prefix(text, "Exec="@) {
        EntryScan { command_text: text.skip("Exec="@.len() as int), ..scan }
    } else if has_prefix(text, "Type="@) {
        EntryScan { app_type: text.skip("Type="@.len() as int), ..scan }
    } else if has_prefix(text, "NoDisplay=true"@) {
        EntryScan { no_display: true, ..scan }
    } else {
        scan
    }
}

/// The scan after all of `lines`.
pub open spec fn scan_lines(lines: Seq<Seq<char>>) -> EntryScan
    decreases lines.len(),
{
    if lines.len() == 0 {
        blank_scan()
    } else {
        scan_line(scan_lines(lines.drop_last()), lines.last())
    }
}

/// The field codes of an `Exec` line, in the order in which they are taken
/// out.
pub open spec fn field_codes() -> Seq<Seq<char>> {
    seq![
        seq!['%', 'f'],
        seq!['%', 'F'],
        seq!['%', 'u'],
        seq!['%', 'U'],
        seq!['%', 'd'],
        seq!['%', 'D'],
        seq!['%', 'n'],
        seq!['%', 'N'],
        seq!['%', 'i'],
        seq!['%', 'c'],
        seq!['%', 'k'],
    ]
}

/// `text` with the first `count` field codes taken out, one code after the
/// other.
pub open spec fn without_codes(text: Seq<char>, count: int) -> Seq<char>
    decreases count,
{
    if count <= 0 || count > field_codes().len() {
        text
    } else {
        replaced(without_codes(text, count - 1), field_codes()[count - 1], seq![])
    }
}

/// The command line of an `Exec` value: the value with all field codes
/// taken out and without the whitespace around it.
pub open spec fn command_line(command_text: Seq<char>) -> Seq<char> {
    trimmed(without_codes(command_text, field_codes().len() as int))
}

/// The application that a desktop entry describes. `None` unless the entry
/// is of type `Application`, is not hidden, and has a name and a command.
/// The target is the command line; the process name is the file name of
/// its first word.
pub open spec fn desktop_app(content: Seq<char>) -> Option<DiscoveredAppView> {
    let scan = scan_lines(lines_of(content));
    if scan.app_type != "Application"@ || scan.no_display || scan.name.len() == 0
        || scan.command_text.len() == 0 {
        None
    } else {
        let command = command_line(scan.command_text);
        Some(
            DiscoveredAppView {
                name: scan.name,
                target: command,
                process_name: match file_name_of(first_word_of(command)) {
                    Some(name) => name,
                    None => seq![],
                },
                source: "linux"@,
            },
        )
    }
}

fn code(letter: char) -> (pattern: Vec<char>)
    ensures
        pattern@ == seq!['%', letter],
{
    let mut pattern: Vec<char> = Vec::new();
    pattern.push('%');
    pattern.push(letter);
    pattern
}

fn strip_codes(command_text: &Vec<char>) -> (out: Vec<char>)
    ensures
        out@ == without_codes(command_text@, field_codes().len() as int),
{
    let none: Vec<char> = Vec::new();
    reveal_with_fuel(without_codes, 12);
    let out = replace(command_text, &code('f'), &none);
    let out = replace(&out, &code('F'), &none);
    let out = replace(&out, &code('u'), &none);
    let out = replace(&out, &code('U'), &none);
    let out = replace(&out, &code('d'), &none);
    let out = replace(&out, &code('D'), &none);
    let out = replace(&out, &code('n'), &none);
    let out = replace(&out, &code('N'), &none);
    let out = replace(&out, &code('i'), &none);
    let out = replace(&out, &code('c'), &none);
    let out = replace(&out, &code('k'), &none);
    out
}

/// Reads the text of a desktop entry.
pub fn parse_desktop_file(content: &str) -> (app: Option<DiscoveredApp>)
    ensures
        found(app) == desktop_app(content@),
{
    let all = lines(&chars_of(content));
    let header = chars_of("[Desktop Entry]");
    let mut bracket: Vec<char> = Vec::new();
    bracket.push('[');
    let name_key = chars_of("Name=");
    let exec_key = chars_of("Exec=");
    let type_key = chars_of("Type=");
    let hidden = chars_of("NoDisplay=true");
    let mut name: Vec<char> = Vec::new();
    let mut command_text: Vec<char> = Vec::new();
    let mut app_type: Vec<char> = Vec::new();
    let mut no_display = false;
    let mut in_entry = false;
    let mut done = false;
    let mut i: usize = 0;
    while i < all.len()
        invariant
            i <= all.len(),
            header@ == "[Desktop Entry]"@,
            bracket@ == seq!['['],
            name_key@ == "Name="@,
            exec_key@ == "Exec="@,
            type_key@ == "Type="@,
            hidden@ == "NoDisplay=true"@,
            scan_lines(rows(all@).take(i as int)) == (EntryScan {
                name: name@,
                command_text: command_text@,
                app_type: app_type@,
                no_display,
                in_entry,
                done,
            }),
        decreases all.len() - i,
    {
        assert(rows(all@).take(i + 1).drop_last() =~= rows(all@).take(i as int));
        let text = trim(&all[i]);
        if done {
            // the group has been left: nothing after it counts
        } else if same_chars(&text, &header) {
            in_entry = true;
        } else if starts_with(&text, &bracket) {
            done = in_entry;
        } else if !in_entry {
            // the group has not begun yet
        } else if starts_with(&text, &name_key) {
            if name.len() == 0 {
                name = slice(&text, name_key.len(), text.len());
            }
        } else if starts_with(&text, &exec_key) {
            command_text = slice(&text, exec_key.len(), text.len());
        } else if starts_with(&text, &type_key) {
            app_type = slice(&text, type_key.len(), text.len());
        } else if starts_with(&text, &hidden) {
            no_display = true;
        }
        i = i + 1;
    }
    assert(rows(all@).take(all@.len() as int) =~= rows(all@));
    if !same_chars(&app_type, &chars_of("Application")) || no_display || name.len() == 0
        || command_text.len() == 0 {
        return None;
    }
    let command = trim(&strip_codes(&command_text));
    let process_name = match file_name(&first_word(&command)) {
        Some(n) => string_of(&n),
        None => String::new(),
    };
    Some(
        DiscoveredApp {
            name: string_of(&name),
            target: string_of(&command),
            process_name,
            source: "linux".to_string(),
        },
    )
}

} // verus!
