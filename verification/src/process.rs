//! What the process list says: the names of the running processes as the
//! platform's tools print them, and the names to try when looking for one.
//!
//! Running `tasklist`, `ps`, `pgrep` and `pkill` is the caller's part; the
//! functions here take what those printed.

use vstd::prelude::*;
use vstd::string::*;
use crate::spawn::Platform;
use crate::text::{
    chars_of, contains, ends_with, file_name, file_name_of, find_char, find_char_from,
    found_char_bounds, has_suffix, holds, lines, lines_of, lower, lowercase, rows, same_chars,
    slice, string_of, texts, trim, trim_matches, trimmed, without_around,
};

verus! {

/// The process name in one line of `tasklist /FO CSV /NH`: what stands
/// before the first comma, without the double quotes around it, in lower
/// case.
pub open spec fn tasklist_name(line: Seq<char>) -> Seq<char> {
    let first = match find_char_from(line, ',', 0) {
        Some(at) => line.subrange(0, at),
        None => line,
    };
    lowercase(without_around(first, '"'))
}

/// The process name in one line of `ps -eo comm`: the line without the
/// whitespace around it, reduced to its file name where it is a path, in
/// lower case.
pub open spec fn ps_name(line: Seq<char>) -> Seq<char> {
    let name = trimmed(line);
    lowercase(
        match file_name_of(name) {
            Some(base) => base,
            None => name,
        },
    )
}

/// The name that one line of the process list gives, if it gives one.
/// Empty names are passed over.
pub open spec fn listed_name(line: Seq<char>, platform: Platform) -> Option<Seq<char>> {
    match platform {
        Platform::Windows => if tasklist_name(line).len() > 0 {
            Some(tasklist_name(line))
        } else {
            None
        },
        _ => if trimmed(line).len() > 0 {
            Some(ps_name(line))
        } else {
            None
        },
    }
}

/// The names that the lines give, each once, in the order of first
/// appearance.
pub open spec fn listed_names(lines: Seq<Seq<char>>, platform: Platform) -> Seq<Seq<char>>
    decreases lines.len(),
{
    if lines.len() == 0 {
        seq![]
    } else {
        let earlier = listed_names(lines.drop_last(), platform);
        match listed_name(lines.last(), platform) {
            Some(name) => if earlier.contains(name) {
                earlier
            } else {
                earlier.push(name)
            },
            None => earlier,
        }
    }
}

/// The lines of the process list that name processes: all of them on
/// Windows; elsewhere all but the first, which is the column header.
pub open spec fn process_lines(output: Seq<char>, platform: Platform) -> Seq<Seq<char>> {
    match platform {
        Platform::Windows => lines_of(output),
        _ => if lines_of(output).len() > 0 {
            lines_of(output).skip(1)
        } else {
            lines_of(output)
        },
    }
}

/// The names of the running processes, in lower case, each once.
pub open spec fn running_names(output: Seq<char>, platform: Platform) -> Seq<Seq<char>> {
    listed_names(process_lines(output, platform), platform)
}

fn name_in(line: &Vec<char>, platform: Platform) -> (name: Option<Vec<char>>)
    ensures
        match name {
            Some(n) => listed_name(line@, platform) == Some(n@),
            None => listed_name(line@, platform) is None,
        },
{
    match platform {
        Platform::Windows => {
            proof {
                found_char_bounds(line@, ',', 0);
            }
            let first = match find_char(line, ',', 0) {
                Some(at) => slice(line, 0, at),
                None => slice(line, 0, line.len()),
            };
            assert(line@.subrange(0, line@.len() as int) =~= line@);
            let name = lower(&trim_matches(&first, '"'));
            if name.len() > 0 {
                Some(name)
            } else {
                None
            }
        },
        _ => {
            let name = trim(line);
            if name.len() > 0 {
                let base = match file_name(&name) {
                    Some(base) => base,
                    None => name,
                };
                Some(lower(&base))
            } else {
                None
            }
        },
    }
}

fn lists(names: &Vec<Vec<char>>, name: &Vec<char>) -> (found: bool)
    ensures
        found == rows(names@).contains(name@),
{
    let mut i: usize = 0;
    while i < names.len()
        invariant
            i <= names.len(),
            forall|k: int| 0 <= k < i ==> rows(names@)[k] != name@,
        decreases names.len() - i,
    {
        if same_chars(&names[i], name) {
            assert(rows(names@)[i as int] == name@);
            return true;
        }
        i = i + 1;
    }
    false
}

/// The names of the running processes, in lower case and each once, from
/// what the platform's process list printed: `tasklist /FO CSV /NH` on
/// Windows, `ps -eo comm` elsewhere.
pub fn get_running_processes(output: &str, platform: Platform) -> (names: Vec<String>)
    ensures
        texts(names@) == running_names(output@, platform),
{
    let all = lines(&chars_of(output));
    let first: usize = match platform {
        Platform::Windows => 0,
        _ => if all.len() > 0 {
            1
        } else {
            0
        },
    };
    let ghost wanted = process_lines(output@, platform);
    let mut found: Vec<Vec<char>> = Vec::new();
    let mut i: usize = first;
    while i < all.len()
        invariant
            first <= i <= all.len(),
            wanted == rows(all@).skip(first as int),
            rows(found@) == listed_names(wanted.take(i - first), platform),
        decreases all.len() - i,
    {
        assert(wanted.take(i + 1 - first).drop_last() =~= wanted.take(i - first));
        let ghost before = rows(found@);
        match name_in(&all[i], platform) {
            Some(name) => {
                if !lists(&found, &name) {
                    found.push(name);
                }
            },
            None => {},
        }
        i = i + 1;
    }
    assert(wanted.take(all@.len() - first) =~= wanted);
    let mut names: Vec<String> = Vec::new();
    let mut k: usize = 0;
    while k < found.len()
        invariant
            k <= found.len(),
            texts(names@) == rows(found@).take(k as int),
        decreases found.len() - k,
    {
        let ghost before = texts(names@);
        let name = string_of(&found[k]);
        names.push(name);
        assert(texts(names@) =~= before.push(name@));
        k = k + 1;
    }
    names
}

/// Whether the answer of `tasklist` to a query for one image name shows
/// that process: the answer holds the name, up to case, and does not say
/// that no tasks are running.
pub open spec fn shows_process(output: Seq<char>, name: Seq<char>) -> bool {
    holds(lowercase(output), lowercase(name)) && !holds(output, "No tasks are running"@)
}

/// Whether the answer of `tasklist /FI "IMAGENAME eq name"` shows the
/// process.
pub fn tasklist_shows(output: &str, name: &str) -> (yes: bool)
    ensures
        yes == shows_process(output@, name@),
{
    let text = chars_of(output);
    contains(&lower(&text), &lower(&chars_of(name))) && !contains(
        &text,
        &chars_of("No tasks are running"),
    )
}

/// The filter that asks `tasklist` for one image name.
pub fn tasklist_filter(name: &str) -> (filter: String)
    ensures
        filter@ == "IMAGENAME eq "@ + name@,
{
    let mut filter = "IMAGENAME eq ".to_string();
    filter.append(name);
    filter
}

/// The name without `.exe` at its end, if it ends so.
pub open spec fn without_exe(name: Seq<char>) -> Option<Seq<char>> {
    if has_suffix(name, ".exe"@) {
        Some(name.subrange(0, name.len() - ".exe"@.len()))
    } else {
        None
    }
}

/// The second name to look for where processes carry no `.exe`: the name
/// without that ending. `None` if the name has no such ending; then there
/// is nothing else to try.
pub fn strip_exe(name: &str) -> (short: Option<String>)
    ensures
        crate::config::text_of(short) == without_exe(name@),
{
    let chars = chars_of(name);
    let ending = chars_of(".exe");
    if ends_with(&chars, &ending) {
        Some(string_of(&slice(&chars, 0, chars.len() - ending.len())))
    } else {
        None
    }
}

/// The names to look for, in order, where processes carry no `.exe`: the
/// name itself and, if it ends in `.exe`, the name without that ending.
pub open spec fn names_tried(name: Seq<char>) -> Seq<Seq<char>> {
    match without_exe(name) {
        Some(short) => seq![name, short],
        None => seq![name],
    }
}

/// The names under which to look for a process on macOS and Linux, in the
/// order in which to try them.
pub fn names_to_try(name: &str) -> (names: Vec<String>)
    ensures
        texts(names@) == names_tried(name@),
{
    let mut names: Vec<String> = Vec::new();
    names.push(name.to_string());
    match strip_exe(name) {
        Some(short) => {
            names.push(short);
        },
        None => {
        },
    }
    names
}

/// What a failed `pkill` is reported with.
pub fn pkill_failure(name: &str) -> (text: String)
    ensures
        text@ == "pkill failed for '"@ + name@ + "'"@,
{
    let mut text = "pkill failed for '".to_string();
    text.append(name);
    text.append("'");
    text
}

/// What a failed `taskkill` is reported with: what the tool wrote to its
/// error stream, without the whitespace around it.
pub fn taskkill_failure(stderr: &str) -> (text: String)
    ensures
        text@ == "taskkill failed: "@ + trimmed(stderr@),
{
    let mut text = "taskkill failed: ".to_string();
    text.append(string_of(&trim(&chars_of(stderr))).as_str());
    text
}

/// Of `names`, those whose lower-case form is among `running`, in the
/// order given.
pub open spec fn names_running(names: Seq<Seq<char>>, running: Seq<Seq<char>>) -> Seq<Seq<char>>
    decreases names.len(),
{
    if names.len() == 0 {
        seq![]
    } else {
        let earlier = names_running(names.drop_last(), running);
        if running.contains(lowercase(names.last())) {
            earlier.push(names.last())
        } else {
            earlier
        }
    }
}

/// Of the process names of some steps, those that are running. `running`
/// holds the names of the running processes in lower case.
pub fn running_among(names: &Vec<String>, running: &Vec<String>) -> (found: Vec<String>)
    ensures
        texts(found@) == names_running(texts(names@), texts(running@)),
{
    let ghost all = texts(names@);
    let mut found: Vec<String> = Vec::new();
    let mut i: usize = 0;
    while i < names.len()
        invariant
            i <= names.len(),
            all == texts(names@),
            texts(found@) == names_running(all.take(i as int), texts(running@)),
        decreases names.len() - i,
    {
        assert(all.take(i + 1).drop_last() =~= all.take(i as int));
        let low = crate::text::to_lowercase(names[i].as_str());
        if crate::kill_wipe::lists_text(running, low.as_str()) {
            let name = names[i].clone();
            found.push(name);
        }
        i = i + 1;
    }
    assert(all.take(names@.len() as int) =~= all);
    found
}

} // verus!
