//! Expansion of environment variables in targets and working directories.
//!
//! The environment is a table that the caller reads once and hands over, so
//! that the same text and the same table always give the same result.

use vstd::prelude::*;
use vstd::string::*;
use vstd::utf8::encode_utf8;
use crate::spawn::Platform;
use crate::text::{
    chars_of, extend, find, find_char, find_char_from, find_from, found_char_bounds,
    found_is_first, has_prefix, occurs_at, same_chars, slice, starts_with, string_of,
};

verus! {

/// Most substitutions of `${NAME}` or `%NAME%` in one text. A value may
/// itself hold a reference, which is expanded in turn; the bound ends what
/// would otherwise go round in circles.
pub const MAX_EXPANSIONS: usize = 64;

/// The names and values of a table, as texts.
pub open spec fn table(env: Seq<(String, String)>) -> Seq<(Seq<char>, Seq<char>)> {
    Seq::new(env.len(), |i: int| (env[i].0@, env[i].1@))
}

/// The value of the first entry at or after `from` that has this name.
pub open spec fn lookup_from(env: Seq<(Seq<char>, Seq<char>)>, name: Seq<char>, from: int) -> Option<
    Seq<char>,
>
    decreases env.len() - from,
{
    if from < 0 || from >= env.len() {
        None
    } else if env[from].0 == name {
        Some(env[from].1)
    } else {
        lookup_from(env, name, from + 1)
    }
}

/// The value of a variable, if the table has it.
pub open spec fn lookup(env: Seq<(Seq<char>, Seq<char>)>, name: Seq<char>) -> Option<Seq<char>> {
    lookup_from(env, name, 0)
}

/// `text` with references of the form `open NAME close` replaced by the
/// value of `NAME`, always the leftmost one first and looking at the whole
/// text again after each replacement. It stops at the first reference that
/// is not closed or whose variable the table does not have, and after
/// `rounds` replacements.
pub open spec fn delimited_expanded(
    text: Seq<char>,
    open: Seq<char>,
    close: char,
    env: Seq<(Seq<char>, Seq<char>)>,
    rounds: nat,
) -> Seq<char>
    decreases rounds,
{
    if rounds == 0 {
        text
    } else {
        match find_from(text, open, 0) {
            None => text,
            Some(start) => match find_char_from(text, close, start + open.len()) {
                None => text,
                Some(end) => match lookup(env, text.subrange(start + open.len(), end)) {
                    None => text,
                    Some(value) => delimited_expanded(
                        text.subrange(0, start) + value + text.skip(end + 1),
                        open,
                        close,
                        env,
                        (rounds - 1) as nat,
                    ),
                },
            },
        }
    }
}

/// Whether a byte may stand in the name of a variable written as `$NAME`:
/// an ASCII letter, a digit or `_`.
pub open spec fn name_byte(b: u8) -> bool {
    (97 <= b && b <= 122) || (65 <= b && b <= 90) || (48 <= b && b <= 57) || b == 95
}

/// The first position at or after `from` that holds no byte of a name.
pub open spec fn name_end(bytes: Seq<u8>, from: int) -> int
    decreases bytes.len() - from,
{
    if from < 0 || from >= bytes.len() || !name_byte(bytes[from]) {
        from
    } else {
        name_end(bytes, from + 1)
    }
}

/// Each byte as the character of the same number.
pub open spec fn as_chars(bytes: Seq<u8>) -> Seq<char> {
    Seq::new(bytes.len(), |i: int| bytes[i] as char)
}

/// The bytes of a text from position `at` on, with every `$NAME` replaced
/// by the value of `NAME`. A name whose variable the table does not have
/// stays as written, and so does a `$` that no name follows. Everything
/// else is taken byte by byte: a character outside ASCII comes out as one
/// character for each byte of its UTF-8 form.
pub open spec fn dollars_expanded(bytes: Seq<u8>, env: Seq<(Seq<char>, Seq<char>)>, at: int) -> Seq<
    char,
>
    decreases bytes.len() - at,
{
    if at < 0 || at >= bytes.len() {
        seq![]
    } else {
        let end = name_end(bytes, at + 1);
        if bytes[at] == 36 && at + 1 < bytes.len() && bytes[at + 1] != 123 && at + 1 < end
            <= bytes.len() {
            let name = as_chars(bytes.subrange(at + 1, end));
            (match lookup(env, name) {
                Some(value) => value,
                None => seq!['$'] + name,
            }) + dollars_expanded(bytes, env, end)
        } else {
            seq![bytes[at] as char] + dollars_expanded(bytes, env, at + 1)
        }
    }
}

/// `text` with `~` at its beginning replaced by the home directory, if the
/// text begins with `~/` and the home directory is known.
pub open spec fn home_expanded(text: Seq<char>, home: Option<Seq<char>>) -> Seq<char> {
    match home {
        Some(dir) => if has_prefix(text, seq!['~', '/']) {
            dir + text.skip(1)
        } else {
            text
        },
        None => text,
    }
}

/// `input` with its variables expanded in the notation of the platform.
pub open spec fn expanded(
    input: Seq<char>,
    env: Seq<(Seq<char>, Seq<char>)>,
    home: Option<Seq<char>>,
    platform: Platform,
) -> Seq<char> {
    match platform {
        Platform::Windows => delimited_expanded(input, seq!['%'], '%', env, MAX_EXPANSIONS as nat),
        _ => {
            let braces = delimited_expanded(input, seq!['$', '{'], '}', env, MAX_EXPANSIONS as nat);
            home_expanded(dollars_expanded(encode_utf8(braces), env, 0), home)
        },
    }
}

fn value_of(env: &Vec<(String, String)>, name: &Vec<char>) -> (value: Option<Vec<char>>)
    ensures
        match value {
            Some(v) => lookup(table(env@), name@) == Some(v@),
            None => lookup(table(env@), name@) is None,
        },
{
    let mut i: usize = 0;
    while i < env.len()
        invariant
            i <= env.len(),
            lookup(table(env@), name@) == lookup_from(table(env@), name@, i as int),
        decreases env.len() - i,
    {
        if same_chars(&chars_of(env[i].0.as_str()), name) {
            return Some(chars_of(env[i].1.as_str()));
        }
        i = i + 1;
    }
    None
}

fn expand_delimited(input: Vec<char>, open: &Vec<char>, close: char, env: &Vec<(String, String)>) -> (out:
    Vec<char>)
    ensures
        out@ == delimited_expanded(input@, open@, close, table(env@), MAX_EXPANSIONS as nat),
{
    let ghost goal = delimited_expanded(input@, open@, close, table(env@), MAX_EXPANSIONS as nat);
    let mut text = input;
    let mut rounds: usize = MAX_EXPANSIONS;
    while rounds > 0
        invariant
            goal == delimited_expanded(input@, open@, close, table(env@), MAX_EXPANSIONS as nat),
            goal == delimited_expanded(text@, open@, close, table(env@), rounds as nat),
        decreases rounds,
    {
        proof {
            found_is_first(text@, open@, 0);
        }
        let start = match find(&text, open, 0) {
            Some(at) => at,
            None => {
                return text;
            },
        };
        let total = text.len();
        assert(start + open.len() <= total);
        proof {
            found_char_bounds(text@, close, start + open@.len());
        }
        let end = match find_char(&text, close, start + open.len()) {
            Some(at) => at,
            None => {
                return text;
            },
        };
        let name = slice(&text, start + open.len(), end);
        let value = match value_of(env, &name) {
            Some(v) => v,
            None => {
                return text;
            },
        };
        let mut next = slice(&text, 0, start);
        extend(&mut next, &value);
        let tail = slice(&text, end + 1, text.len());
        extend(&mut next, &tail);
        text = next;
        rounds = rounds - 1;
    }
    text
}

fn is_name_byte(b: u8) -> (yes: bool)
    ensures
        yes == name_byte(b),
{
    (97 <= b && b <= 122) || (65 <= b && b <= 90) || (48 <= b && b <= 57) || b == 95
}

fn expand_dollars(bytes: &Vec<u8>, env: &Vec<(String, String)>) -> (out: Vec<char>)
    ensures
        out@ == dollars_expanded(bytes@, table(env@), 0),
{
    let mut out: Vec<char> = Vec::new();
    let mut i: usize = 0;
    while i < bytes.len()
        invariant
            i <= bytes.len(),
            out@ + dollars_expanded(bytes@, table(env@), i as int) == dollars_expanded(
                bytes@,
                table(env@),
                0,
            ),
        decreases bytes.len() - i,
    {
        let mut end: usize = i + 1;
        if bytes[i] == 36 && i + 1 < bytes.len() && bytes[i + 1] != 123 {
            while end < bytes.len() && is_name_byte(bytes[end])
                invariant
                    i + 1 <= end <= bytes.len(),
                    name_end(bytes@, i + 1) == name_end(bytes@, end as int),
                decreases bytes.len() - end,
            {
                end = end + 1;
            }
        }
        if bytes[i] == 36 && i + 1 < bytes.len() && bytes[i + 1] != 123 && end > i + 1 {
            let mut name: Vec<char> = Vec::new();
            let mut k: usize = i + 1;
            while k < end
                invariant
                    i + 1 <= k <= end <= bytes.len(),
                    name@ == as_chars(bytes@.subrange(i + 1, k as int)),
                decreases end - k,
            {
                name.push(bytes[k] as char);
                k = k + 1;
            }
            match value_of(env, &name) {
                Some(value) => {
                    extend(&mut out, &value);
                },
                None => {
                    out.push('$');
                    extend(&mut out, &name);
                },
            }
            i = end;
        } else {
            out.push(bytes[i] as char);
            i = i + 1;
        }
    }
    out
}

fn expand_home(text: Vec<char>, home: Option<&str>) -> (out: Vec<char>)
    ensures
        out@ == home_expanded(text@, crate::text::str_text(home)),
{
    match home {
        Some(dir) => {
            let mut prefix: Vec<char> = Vec::new();
            prefix.push('~');
            prefix.push('/');
            assert(prefix@ =~= seq!['~', '/']);
            if starts_with(&text, &prefix) {
                let mut out = chars_of(dir);
                let rest = slice(&text, 1, text.len());
                extend(&mut out, &rest);
                out
            } else {
                text
            }
        },
        None => text,
    }
}

/// Expands the variables in `input`. `env` is the environment as a table
/// of names and values, `home` the home directory of the user if it is
/// known.
///
/// On Windows, `%NAME%` is replaced by the value of `NAME`. On macOS and Linux
/// `${NAME}` is replaced first, then `$NAME`, then a leading `~/` by the
/// home directory. A reference whose variable the table does not have ends
/// the replacing of `${NAME}` and `%NAME%` and is left as written.
pub fn expand_env_vars(
    input: &str,
    env: &Vec<(String, String)>,
    home: Option<&str>,
    platform: Platform,
) -> (output: String)
    ensures
        output@ == expanded(input@, table(env@), crate::text::str_text(home), platform),
{
    let text = chars_of(input);
    match platform {
        Platform::Windows => {
            let mut open: Vec<char> = Vec::new();
            open.push('%');
            string_of(&expand_delimited(text, &open, '%', env))
        },
        _ => {
            let mut open: Vec<char> = Vec::new();
            open.push('$');
            open.push('{');
            assert(open@ =~= seq!['$', '{']);
            let braces = string_of(&expand_delimited(text, &open, '}', env));
            let bytes = braces.as_str().as_bytes_vec();
            let dollars = expand_dollars(&bytes, env);
            string_of(&expand_home(dollars, home))
        },
    }
}

/// Asks `dirs::home_dir` for the home directory of the user and gives its
/// path as text. Nothing is claimed of the result: it depends on the
/// environment and on the user database of the machine.
#[verifier::external_body]
fn home_directory() -> (home: Option<String>) {
    dirs::home_dir().map(|dir| dir.display().to_string())
}

/// Expands the variables in `input` for the user who runs the program: as
/// `expand_env_vars` does, with the home directory that the system names
/// for that user. On Windows the home directory plays no part and is not
/// asked for.
pub fn expand_for_user(input: &str, env: &Vec<(String, String)>, platform: Platform) -> (output:
    String)
    ensures
        exists|home: Option<Seq<char>>|
            output@ == #[trigger] expanded(input@, table(env@), home, platform),
{
    match platform {
        Platform::Windows => {
            let output = expand_env_vars(input, env, None, platform);
            output
        },
        _ => {
            let home = home_directory();
            let output = match &home {
                Some(dir) => expand_env_vars(input, env, Some(dir.as_str()), platform),
                None => expand_env_vars(input, env, None, platform),
            };
            output
        },
    }
}

} // verus!
