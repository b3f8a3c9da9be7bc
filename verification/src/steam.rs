//! Steam's text files: the lines of key and value that its app manifests and
//! its library list are made of.
//!
//! The caller reads the files; the functions here take their text.

use vstd::prelude::*;
use vstd::string::*;
use crate::discovery::{DiscoveredApp, DiscoveredAppView};
use crate::text::{
    chars_of, contains, find_char, find_char_from, found_char_bounds, has_prefix, holds, lines,
    lines_of, lower, lowercase, replace, replaced, rows, slice, starts_with, string_of, texts,
    trim, trimmed,
};

verus! {

/// The value of the line `"key"   "value"`: what stands between the first
/// pair of double quotes after the quoted key. `None` if the line, without
/// the whitespace around it, does not begin with the quoted key, or if no
/// complete quoted value follows.
pub open spec fn vdf_value(line: Seq<char>, key: Seq<char>) -> Option<Seq<char>> {
    let text = trimmed(line);
    let quoted = seq!['"'] + key + seq!['"'];
    if !has_prefix(text, quoted) {
        None
    } else {
        let rest = trimmed(text.skip(quoted.len() as int));
        if rest.len() > 1 && rest[0] == '"' {
            match find_char_from(rest, '"', 1) {
                Some(end) => Some(rest.subrange(1, end)),
                None => None,
            }
        } else {
            None
        }
    }
}

fn value_in(line: &Vec<char>, key: &Vec<char>) -> (value: Option<Vec<char>>)
    ensures
        match value {
            Some(v) => vdf_value(line@, key@) == Some(v@),
            None => vdf_value(line@, key@) is None,
        },
{
    let text = trim(line);
    let mut quoted: Vec<char> = Vec::new();
    quoted.push('"');
    crate::text::extend(&mut quoted, key);
    quoted.push('"');
    assert(quoted@ =~= seq!['"'] + key@ + seq!['"']);
    if !starts_with(&text, &quoted) {
        return None;
    }
    let after = slice(&text, quoted.len(), text.len());
    let rest = trim(&after);
    if rest.len() > 1 && rest[0] == '"' {
        proof {
            found_char_bounds(rest@, '"', 1);
        }
        match find_char(&rest, '"', 1) {
            Some(end) => Some(slice(&rest, 1, end)),
            None => None,
        }
    } else {
        None
    }
}

/// Reads the value of a line of the form `"key"   "value"`.
pub fn extract_vdf_value(line: &str, key: &str) -> (value: Option<String>)
    ensures
        crate::config::text_of(value) == vdf_value(line@, key@),
{
    match value_in(&chars_of(line), &chars_of(key)) {
        Some(v) => Some(string_of(&v)),
        None => None,
    }
}

/// The value that the last line with this key gives, empty if no line has
/// the key.
pub open spec fn last_value(lines: Seq<Seq<char>>, key: Seq<char>) -> Seq<char>
    decreases lines.len(),
{
    if lines.len() == 0 {
        seq![]
    } else {
        match vdf_value(lines.last(), key) {
            Some(v) => v,
            None => last_value(lines.drop_last(), key),
        }
    }
}

/// The app ids that are tools and runtimes, not games.
pub open spec fn skipped_ids() -> Seq<Seq<char>> {
    seq!["228980"@, "1007"@, "1070560"@, "1391110"@, "1628350"@, "250820"@]
}

/// Whether a name in lower case is that of a redistributable or a runtime.
pub open spec fn names_runtime(lower: Seq<char>) -> bool {
    holds(lower, "redistributable"@) || holds(lower, "redist"@) || holds(lower, "directx"@)
        || holds(lower, "vcredist"@) || holds(lower, "proton "@) || has_prefix(
        lower,
        "steamworks"@,
    )
}

/// The application that an app manifest describes: its `name`, launched
/// through `steam://rungameid/` and its `appid`. `None` if either is
/// missing or empty, if the id is one of the skipped ones, or if the name
/// is that of a redistributable or a runtime.
pub open spec fn acf_app(content: Seq<char>) -> Option<DiscoveredAppView> {
    let appid = last_value(lines_of(content), "appid"@);
    let name = last_value(lines_of(content), "name"@);
    if appid.len() == 0 || name.len() == 0 || skipped_ids().contains(appid) || names_runtime(
        lowercase(name),
    ) {
        None
    } else {
        Some(
            DiscoveredAppView {
                name,
                target: "steam://rungameid/"@ + appid,
                process_name: seq![],
                source: "steam"@,
            },
        )
    }
}

/// The view of an optional application.
pub open spec fn found(app: Option<DiscoveredApp>) -> Option<DiscoveredAppView> {
    match app {
        Some(a) => Some(a@),
        None => None,
    }
}

fn last_value_in(all: &Vec<Vec<char>>, key: &str) -> (value: Vec<char>)
    ensures
        value@ == last_value(rows(all@), key@),
{
    let key = chars_of(key);
    let mut value: Vec<char> = Vec::new();
    let mut i: usize = 0;
    while i < all.len()
        invariant
            i <= all.len(),
            value@ == last_value(rows(all@).take(i as int), key@),
        decreases all.len() - i,
    {
        assert(rows(all@).take(i + 1).drop_last() =~= rows(all@).take(i as int));
        match value_in(&all[i], &key) {
            Some(v) => {
                value = v;
            },
            None => {},
        }
        i = i + 1;
    }
    assert(rows(all@).take(all@.len() as int) =~= rows(all@));
    value
}

fn is_skipped_id(id: &Vec<char>) -> (yes: bool)
    ensures
        yes == skipped_ids().contains(id@),
{
    let a = crate::text::same_chars(id, &chars_of("228980"));
    let b = crate::text::same_chars(id, &chars_of("1007"));
    let c = crate::text::same_chars(id, &chars_of("1070560"));
    let d = crate::text::same_chars(id, &chars_of("1391110"));
    let e = crate::text::same_chars(id, &chars_of("1628350"));
    let f = crate::text::same_chars(id, &chars_of("250820"));
    a || b || c || d || e || f
}

fn is_runtime_name(lower: &Vec<char>) -> (yes: bool)
    ensures
        yes == names_runtime(lower@),
{
    contains(lower, &chars_of("redistributable")) || contains(lower, &chars_of("redist"))
        || contains(lower, &chars_of("directx")) || contains(lower, &chars_of("vcredist"))
        || contains(lower, &chars_of("proton ")) || starts_with(lower, &chars_of("steamworks"))
}

/// Reads the text of an app manifest.
pub fn parse_acf(content: &str) -> (app: Option<DiscoveredApp>)
    ensures
        found(app) == acf_app(content@),
{
    let all = lines(&chars_of(content));
    let appid = last_value_in(&all, "appid");
    let name = last_value_in(&all, "name");
    if appid.len() == 0 || name.len() == 0 {
        return None;
    }
    if is_skipped_id(&appid) {
        return None;
    }
    if is_runtime_name(&lower(&name)) {
        return None;
    }
    let mut target = "steam://rungameid/".to_string();
    target.append(string_of(&appid).as_str());
    Some(
        DiscoveredApp {
            name: string_of(&name),
            target,
            process_name: String::new(),
            source: "steam".to_string(),
        },
    )
}

/// The library folders that the lines of a library list name: the value of
/// every `path` line, with each doubled backslash made a single one, in the
/// order of the lines.
pub open spec fn library_paths(lines: Seq<Seq<char>>) -> Seq<Seq<char>>
    decreases lines.len(),
{
    if lines.len() == 0 {
        seq![]
    } else {
        let earlier = library_paths(lines.drop_last());
        match vdf_value(lines.last(), "path"@) {
            Some(v) => earlier.push(replaced(v, seq!['\\', '\\'], seq!['\\'])),
            None => earlier,
        }
    }
}

/// The library folders that the text of a library list names. Which of
/// them exist is for the caller to find out.
pub fn library_folders(content: &str) -> (paths: Vec<String>)
    ensures
        texts(paths@) == library_paths(lines_of(content@)),
{
    let all = lines(&chars_of(content));
    let key = chars_of("path");
    let mut double: Vec<char> = Vec::new();
    double.push('\\');
    double.push('\\');
    let mut single: Vec<char> = Vec::new();
    single.push('\\');
    let mut paths: Vec<String> = Vec::new();
    let mut i: usize = 0;
    while i < all.len()
        invariant
            i <= all.len(),
            key@ == "path"@,
            double@ == seq!['\\', '\\'],
            single@ == seq!['\\'],
            texts(paths@) == library_paths(rows(all@).take(i as int)),
        decreases all.len() - i,
    {
        assert(rows(all@).take(i + 1).drop_last() =~= rows(all@).take(i as int));
        match value_in(&all[i], &key) {
            Some(v) => {
                let path = string_of(&replace(&v, &double, &single));
                paths.push(path);
            },
            None => {},
        }
        i = i + 1;
    }
    assert(rows(all@).take(all@.len() as int) =~= rows(all@));
    paths
}

/// Whether `name` fits a pattern with one `*` in it: it begins with what
/// stands before the star and ends with what stands after it.
pub open spec fn fits(name: Seq<char>, before_star: Seq<char>, after_star: Seq<char>) -> bool {
    has_prefix(name, before_star) && crate::text::has_suffix(name, after_star)
}

/// The two parts of a pattern around its first `*`, if it has one.
pub open spec fn around_star(pattern: Seq<char>) -> Option<(Seq<char>, Seq<char>)> {
    match find_char_from(pattern, '*', 0) {
        Some(at) => Some((pattern.subrange(0, at), pattern.subrange(at + 1, pattern.len() as int))),
        None => None,
    }
}

/// Whether a file name fits a pattern such as `appmanifest_*.acf`. The
/// first `*` of the pattern stands for anything; a pattern without a `*`
/// fits no name.
pub fn glob_match(name: &str, pattern: &str) -> (yes: bool)
    ensures
        yes == match around_star(pattern@) {
            Some((before, after)) => fits(name@, before, after),
            None => false,
        },
{
    let name = chars_of(name);
    let pattern = chars_of(pattern);
    proof {
        found_char_bounds(pattern@, '*', 0);
    }
    match find_char(&pattern, '*', 0) {
        Some(at) => {
            let before = slice(&pattern, 0, at);
            let after = slice(&pattern, at + 1, pattern.len());
            starts_with(&name, &before) && crate::text::ends_with(&name, &after)
        },
        None => false,
    }
}

} // verus!
