//! Installed applications as the platforms list them: which entries of the
//! Windows uninstall list are programs, which file of a folder is the
//! program to start, and what the bundles of macOS are called.
//!
//! Reading the registry and the disk is the caller's part.

use vstd::prelude::*;
use crate::config::text_of;
use crate::discovery::{app_views, DiscoveredApp, DiscoveredAppView};
use crate::steam::found;
use crate::text::{
    chars_of, contains, ends_with, extend, file_name_any_separator, file_name_either, has_prefix,
    has_suffix, holds, lower, lowercase, rfind_char, rfind_char_before, rfound_char_bounds,
    same_chars, slice, starts_with, string_of, trim, trim_matches, trimmed, whitespace,
    without_around,
};

verus! {

/// Whether the name of an uninstall entry is that of a program: not empty,
/// no update (`KB...`), no bare identifier (`{...}`), and none of the
/// patches, runtimes and kits that fill the list.
pub open spec fn names_program(name: Seq<char>) -> bool {
    &&& name.len() > 0
    &&& !has_prefix(name, "KB"@)
    &&& !has_prefix(name, seq!['{'])
    &&& !holds(name, "Update for"@)
    &&& !holds(name, "Security Update"@)
    &&& !holds(name, "Hotfix for"@)
    &&& !holds(name, "Microsoft Visual C++"@)
    &&& !holds(name, ".NET Framework"@)
    &&& !holds(name, "Windows SDK"@)
}

fn is_program_name(name: &Vec<char>) -> (yes: bool)
    ensures
        yes == names_program(name@),
{
    let mut brace: Vec<char> = Vec::new();
    brace.push('{');
    name.len() > 0 && !starts_with(name, &chars_of("KB")) && !starts_with(name, &brace)
        && !contains(name, &chars_of("Update for")) && !contains(
        name,
        &chars_of("Security Update"),
    ) && !contains(name, &chars_of("Hotfix for")) && !contains(
        name,
        &chars_of("Microsoft Visual C++"),
    ) && !contains(name, &chars_of(".NET Framework")) && !contains(name, &chars_of("Windows SDK"))
}

/// Whether a process name in lower case is that of an uninstaller.
pub open spec fn names_uninstaller(lower: Seq<char>) -> bool {
    holds(lower, "unins"@) || holds(lower, "uninst"@)
}

/// The application that an uninstall entry describes, given its display
/// name, its `SystemComponent` value and the executable found for it.
/// `None` if the trimmed display name is not that of a program, if the
/// entry is a system component, if no executable was found, or if the
/// executable is an uninstaller.
pub open spec fn uninstall_app(
    display_name: Seq<char>,
    system_component: u32,
    executable: Option<Seq<char>>,
) -> Option<DiscoveredAppView> {
    let name = trimmed(display_name);
    if !names_program(name) || system_component == 1 || executable is None {
        None
    } else {
        let process_name = match file_name_either(executable->0) {
            Some(n) => n,
            None => seq![],
        };
        if names_uninstaller(lowercase(process_name)) {
            None
        } else {
            Some(
                DiscoveredAppView {
                    name,
                    target: executable->0,
                    process_name,
                    source: "windows"@,
                },
            )
        }
    }
}

/// The application that an uninstall entry describes. `executable` is the
/// program found for the entry, from its icon or in its install location.
pub fn parse_uninstall_entry(display_name: &str, system_component: u32, executable: Option<&str>) -> (app:
    Option<DiscoveredApp>)
    ensures
        found(app) == uninstall_app(
            display_name@,
            system_component,
            crate::text::str_text(executable),
        ),
{
    let name = trim(&chars_of(display_name));
    if !is_program_name(&name) {
        return None;
    }
    if system_component == 1 {
        return None;
    }
    let target = match executable {
        Some(path) => path,
        None => {
            return None;
        },
    };
    let process = match file_name_any_separator(&chars_of(target)) {
        Some(n) => n,
        None => Vec::new(),
    };
    let low = lower(&process);
    if contains(&low, &chars_of("unins")) || contains(&low, &chars_of("uninst")) {
        return None;
    }
    Some(
        DiscoveredApp {
            name: string_of(&name),
            target: target.to_string(),
            process_name: string_of(&process),
            source: "windows".to_string(),
        },
    )
}

/// Whether a text is an icon index: nothing but digits and minus signs.
pub open spec fn is_icon_index(text: Seq<char>) -> bool {
    forall|k: int| 0 <= k < text.len() ==> (#[trigger] text[k] == '-' || ('0' <= text[k] && text[k] <= '9'))
}

/// The path part of a `DisplayIcon` value: the value without an icon index
/// after its last comma, without the whitespace around it and without the
/// double quotes around that.
pub open spec fn icon_path(icon: Seq<char>) -> Seq<char> {
    let whole = without_around(trimmed(icon), '"');
    match rfind_char_before(icon, ',', icon.len() as int) {
        Some(comma) => if is_icon_index(trimmed(icon.subrange(comma + 1, icon.len() as int))) {
            without_around(trimmed(icon.subrange(0, comma)), '"')
        } else {
            whole
        },
        None => whole,
    }
}

/// The executable that a `DisplayIcon` value names: its path part, if that
/// ends in `.exe`, whatever the case. `None` for an empty value.
pub open spec fn icon_executable(icon: Seq<char>) -> Option<Seq<char>> {
    if icon.len() > 0 && has_suffix(lowercase(icon_path(icon)), ".exe"@) {
        Some(icon_path(icon))
    } else {
        None
    }
}

fn holds_icon_index(text: &Vec<char>) -> (yes: bool)
    ensures
        yes == is_icon_index(text@),
{
    let mut i: usize = 0;
    while i < text.len()
        invariant
            i <= text.len(),
            forall|k: int|
                0 <= k < i ==> (#[trigger] text@[k] == '-' || ('0' <= text@[k] && text@[k] <= '9')),
        decreases text.len() - i,
    {
        let c = text[i];
        if !(c == '-' || ('0' <= c && c <= '9')) {
            return false;
        }
        i = i + 1;
    }
    true
}

/// The executable that a `DisplayIcon` value names. Whether that file
/// exists is for the caller to find out.
pub fn extract_exe_from_icon(icon: &str) -> (path: Option<String>)
    ensures
        text_of(path) == icon_executable(icon@),
{
    let chars = chars_of(icon);
    if chars.len() == 0 {
        return None;
    }
    proof {
        rfound_char_bounds(chars@, ',', chars@.len() as int);
    }
    let path = match rfind_char(&chars, ',') {
        Some(comma) => {
            let after = slice(&chars, comma + 1, chars.len());
            if holds_icon_index(&trim(&after)) {
                trim_matches(&trim(&slice(&chars, 0, comma)), '"')
            } else {
                trim_matches(&trim(&chars), '"')
            }
        },
        None => trim_matches(&trim(&chars), '"'),
    };
    if ends_with(&lower(&path), &chars_of(".exe")) {
        Some(string_of(&path))
    } else {
        None
    }
}

/// Whether a file name has this extension: it ends with a dot and the
/// extension, and something stands before the dot.
pub open spec fn has_extension(name: Seq<char>, extension: Seq<char>) -> bool {
    has_suffix(name, seq!['.'] + extension) && name.len() > extension.len() + 1
}

/// Whether a file name has this extension. `extension` holds no dot.
pub fn extension_is(name: &Vec<char>, extension: &str) -> (yes: bool)
    ensures
        yes == has_extension(name@, extension@),
{
    let mut ending: Vec<char> = Vec::new();
    ending.push('.');
    extend(&mut ending, &chars_of(extension));
    ends_with(name, &ending) && name.len() > ending.len()
}

/// Whether a lower-case file name is that of a helper rather than of the
/// program itself.
pub open spec fn names_helper(lower: Seq<char>) -> bool {
    holds(lower, "unins"@) || holds(lower, "uninst"@) || holds(lower, "update"@) || holds(
        lower,
        "crash"@,
    ) || holds(lower, "helper"@) || holds(lower, "setup"@)
}

/// Whether a file in the install location may be the program to start:
/// its extension is `exe` and its name is not that of a helper.
pub fn is_program_file(name: &str) -> (yes: bool)
    ensures
        yes == (has_extension(name@, "exe"@) && !names_helper(lowercase(name@))),
{
    let chars = chars_of(name);
    if !extension_is(&chars, "exe") {
        return false;
    }
    let low = lower(&chars);
    !(contains(&low, &chars_of("unins")) || contains(&low, &chars_of("uninst")) || contains(
        &low,
        &chars_of("update"),
    ) || contains(&low, &chars_of("crash")) || contains(&low, &chars_of("helper")) || contains(
        &low,
        &chars_of("setup"),
    ))
}

/// Whether position `at` holds the first of the largest sizes.
pub open spec fn is_first_largest(sizes: Seq<u64>, at: int) -> bool {
    &&& 0 <= at < sizes.len()
    &&& forall|k: int| 0 <= k < sizes.len() ==> sizes[k] <= sizes[at]
    &&& forall|k: int| 0 <= k < at ==> sizes[k] < sizes[at]
}

/// The position of the largest of the files, the first one if several are
/// as large; `None` if there is no file. A file whose size is not known
/// counts with size 0.
pub fn find_largest(sizes: &Vec<u64>) -> (at: Option<usize>)
    ensures
        sizes@.len() == 0 ==> at is None,
        sizes@.len() > 0 ==> at is Some && is_first_largest(sizes@, at->0 as int),
{
    if sizes.len() == 0 {
        return None;
    }
    let mut best: usize = 0;
    let mut i: usize = 1;
    while i < sizes.len()
        invariant
            1 <= i <= sizes.len(),
            best < i,
            forall|k: int| 0 <= k < i ==> sizes@[k] <= sizes@[best as int],
            forall|k: int| 0 <= k < best ==> sizes@[k] < sizes@[best as int],
        decreases sizes.len() - i,
    {
        if sizes[i] > sizes[best] {
            best = i;
        }
        i = i + 1;
    }
    Some(best)
}

/// `name` without every `.app` at its end.
pub open spec fn without_app_endings(name: Seq<char>) -> Seq<char>
    decreases name.len(),
{
    if has_suffix(name, ".app"@) && name.len() >= ".app"@.len() && ".app"@.len() > 0 {
        without_app_endings(name.subrange(0, name.len() - ".app"@.len()))
    } else {
        name
    }
}

/// The display name of an application bundle: the name of the bundle
/// without `.app` at its end. `None` for a directory that is no bundle.
pub open spec fn bundle_display_name(file_name: Seq<char>) -> Option<Seq<char>> {
    if has_suffix(file_name, ".app"@) {
        Some(without_app_endings(file_name))
    } else {
        None
    }
}

/// The display name of an application bundle of macOS.
pub fn bundle_name(file_name: &str) -> (name: Option<String>)
    ensures
        text_of(name) == bundle_display_name(file_name@),
{
    let ending = chars_of(".app");
    proof {
        reveal_strlit(".app");
    }
    let mut name = chars_of(file_name);
    if !ends_with(&name, &ending) {
        return None;
    }
    while ends_with(&name, &ending)
        invariant
            ending@ == ".app"@,
            ".app"@.len() == 4,
            without_app_endings(name@) == without_app_endings(file_name@),
        decreases name.len(),
    {
        name = slice(&name, 0, name.len() - ending.len());
    }
    Some(string_of(&name))
}

/// The key by which installed applications count as the same: the name in
/// lower case.
pub open spec fn has_name(apps: Seq<DiscoveredAppView>, key: Seq<char>) -> bool {
    exists|i: int| 0 <= i < apps.len() && lowercase((#[trigger] apps[i]).name) == key
}

/// `apps` without those whose name, up to case, an earlier one has.
pub open spec fn first_of_each_name(apps: Seq<DiscoveredAppView>) -> Seq<DiscoveredAppView>
    decreases apps.len(),
{
    if apps.len() == 0 {
        seq![]
    } else {
        let earlier = first_of_each_name(apps.drop_last());
        if has_name(earlier, lowercase(apps.last().name)) {
            earlier
        } else {
            earlier.push(apps.last())
        }
    }
}

/// Drops every application whose name, up to case, an earlier one has: of
/// the entries that several places list, the first counts.
pub fn dedup_by_name(apps: Vec<DiscoveredApp>) -> (kept: Vec<DiscoveredApp>)
    ensures
        app_views(kept@) == first_of_each_name(app_views(apps@)),
{
    let ghost all = app_views(apps@);
    let mut rest = apps;
    let total = rest.len();
    let mut kept: Vec<DiscoveredApp> = Vec::new();
    let mut seen: Vec<Vec<char>> = Vec::new();
    let mut i: usize = 0;
    while i < total
        invariant
            i <= total,
            total == all.len(),
            rest@.len() == total - i,
            forall|k: int| 0 <= k < rest@.len() ==> (#[trigger] rest@[k])@ == all[i + k],
            app_views(kept@) == first_of_each_name(all.take(i as int)),
            seen@.len() == kept@.len(),
            forall|k: int|
                0 <= k < seen@.len() ==> (#[trigger] seen@[k])@ == lowercase(kept@[k]@.name),
        decreases total - i,
    {
        let app = rest.remove(0);
        assert(all.take(i + 1).drop_last() =~= all.take(i as int));
        let key = lower(&chars_of(app.name.as_str()));
        let mut found = false;
        let mut j: usize = 0;
        while j < seen.len()
            invariant_except_break
                !found,
                forall|k: int| 0 <= k < j ==> lowercase((#[trigger] app_views(kept@)[k]).name) != key@,
            invariant
                j <= seen.len(),
                seen@.len() == kept@.len(),
                forall|k: int|
                    0 <= k < seen@.len() ==> (#[trigger] seen@[k])@ == lowercase(kept@[k]@.name),
            ensures
                found == has_name(app_views(kept@), key@),
            decreases seen.len() - j,
        {
            if same_chars(&seen[j], &key) {
                found = true;
                assert(lowercase(app_views(kept@)[j as int].name) == key@);
                break;
            }
            j = j + 1;
        }
        if !found {
            kept.push(app);
            seen.push(key);
        }
        i = i + 1;
    }
    assert(all.take(total as int) =~= all);
    kept
}

} // verus!
