//! Text as sequences of characters: the searching, cutting and replacing
//! that the parsers of this library are built from.
//!
//! The executable functions work on `Vec<char>`; each says what it returns
//! by a spec function on `Seq<char>`. Positions count characters, not bytes.

use vstd::prelude::*;

verus! {

/// What `str::to_lowercase` returns for a text.
pub uninterp spec fn lowercase(text: Seq<char>) -> Seq<char>;

/// Whether `char::is_whitespace` holds of a character.
pub uninterp spec fn whitespace(c: char) -> bool;

/// Lower-cases a text with `str::to_lowercase`, which follows the Unicode
/// case mapping. The contract only names the result: the same text always
/// gives the same lower-case text.
#[verifier::external_body]
pub(crate) fn to_lowercase(text: &str) -> (lower: String)
    ensures
        lower@ == lowercase(text@),
{
    text.to_lowercase()
}

/// Asks `char::is_whitespace` whether a character has the Unicode property
/// White_Space. The contract only names the answer.
#[verifier::external_body]
pub(crate) fn is_whitespace(c: char) -> (yes: bool)
    ensures
        yes == whitespace(c),
{
    c.is_whitespace()
}

/// Appends one character with `String::push`. Claimed of std: afterwards
/// the text is what it was, followed by `c`.
#[verifier::external_body]
pub(crate) fn push_char(text: &mut String, c: char)
    ensures
        final(text)@ == old(text)@.push(c),
{
    text.push(c);
}

/// The text of an optional string slice.
pub open spec fn str_text(o: Option<&str>) -> Option<Seq<char>> {
    match o {
        Some(s) => Some(s@),
        None => None,
    }
}

/// The texts of a sequence of strings, position by position.
pub open spec fn texts(list: Seq<String>) -> Seq<Seq<char>> {
    Seq::new(list.len(), |i: int| list[i]@)
}

/// The texts of a sequence of character vectors, position by position.
pub open spec fn rows(list: Seq<Vec<char>>) -> Seq<Seq<char>> {
    Seq::new(list.len(), |i: int| list[i]@)
}

/// The characters of `s`, in order.
pub fn chars_of(s: &str) -> (v: Vec<char>)
    ensures
        v@ == s@,
{
    let mut v: Vec<char> = Vec::new();
    for c in it: s.chars()
        invariant
            it.seq() == s@,
            v@ == s@.take(it.index() as int),
    {
        v.push(c);
    }
    v
}

/// The string that holds the characters of `chars`, in order.
pub fn string_of(chars: &Vec<char>) -> (s: String)
    ensures
        s@ == chars@,
{
    let mut s = String::new();
    let mut i: usize = 0;
    while i < chars.len()
        invariant
            i <= chars.len(),
            s@ == chars@.take(i as int),
        decreases chars.len() - i,
    {
        push_char(&mut s, chars[i]);
        i = i + 1;
    }
    s
}

/// Whether two character vectors hold the same characters.
pub fn same_chars(x: &Vec<char>, y: &Vec<char>) -> (r: bool)
    ensures
        r == (x@ == y@),
{
    if x.len() != y.len() {
        return false;
    }
    let mut i: usize = 0;
    while i < x.len()
        invariant
            x.len() == y.len(),
            i <= x.len(),
            forall|k: int| 0 <= k < i ==> x[k] == y[k],
        decreases x.len() - i,
    {
        if x[i] != y[i] {
            return false;
        }
        i = i + 1;
    }
    assert(x@ =~= y@);
    true
}

/// Whether two string slices hold the same text.
pub fn same_text(a: &str, b: &str) -> (r: bool)
    ensures
        r == (a@ == b@),
{
    let x = chars_of(a);
    let y = chars_of(b);
    same_chars(&x, &y)
}

/// The part of `s` from position `from` up to, not including, position
/// `to`. Bounds that lie outside the text or the wrong way round are cut
/// down to what the text has.
pub open spec fn part(s: Seq<char>, from: int, to: int) -> Seq<char> {
    let end = if to > s.len() {
        s.len() as int
    } else if to < 0 {
        0
    } else {
        to
    };
    let begin = if from > end {
        end
    } else if from < 0 {
        0
    } else {
        from
    };
    s.subrange(begin, end)
}

/// A copy of the characters of `v` from position `from` up to, not
/// including, position `to`.
pub fn slice(v: &Vec<char>, from: usize, to: usize) -> (out: Vec<char>)
    ensures
        out@ == part(v@, from as int, to as int),
        from <= to <= v.len() ==> out@ == v@.subrange(from as int, to as int),
{
    let end = if to > v.len() {
        v.len()
    } else {
        to
    };
    let begin = if from > end {
        end
    } else {
        from
    };
    let mut out: Vec<char> = Vec::new();
    let mut i: usize = begin;
    while i < end
        invariant
            begin <= i <= end <= v.len(),
            out@ == v@.subrange(begin as int, i as int),
        decreases end - i,
    {
        out.push(v[i]);
        i = i + 1;
    }
    out
}

/// Appends the characters of `more` to `v`.
pub fn extend(v: &mut Vec<char>, more: &Vec<char>)
    ensures
        final(v)@ == old(v)@ + more@,
{
    let mut i: usize = 0;
    while i < more.len()
        invariant
            i <= more.len(),
            v@ == old(v)@ + more@.take(i as int),
        decreases more.len() - i,
    {
        v.push(more[i]);
        i = i + 1;
    }
}

/// Whether `pattern` stands in `s` at position `at`.
pub open spec fn occurs_at(s: Seq<char>, pattern: Seq<char>, at: int) -> bool {
    &&& 0 <= at
    &&& at + pattern.len() <= s.len()
    &&& forall|k: int| 0 <= k < pattern.len() ==> s[at + k] == #[trigger] pattern[k]
}

/// Whether `s` begins with `prefix`.
pub open spec fn has_prefix(s: Seq<char>, prefix: Seq<char>) -> bool {
    occurs_at(s, prefix, 0)
}

/// Whether `s` ends with `suffix`.
pub open spec fn has_suffix(s: Seq<char>, suffix: Seq<char>) -> bool {
    occurs_at(s, suffix, s.len() - suffix.len())
}

/// The first position at or after `from` at which `pattern` stands in `s`.
pub open spec fn find_from(s: Seq<char>, pattern: Seq<char>, from: int) -> Option<int>
    decreases s.len() - from,
{
    if from < 0 || from + pattern.len() > s.len() {
        None
    } else if occurs_at(s, pattern, from) {
        Some(from)
    } else {
        find_from(s, pattern, from + 1)
    }
}

/// Whether `pattern` stands somewhere in `s`.
pub open spec fn holds(s: Seq<char>, pattern: Seq<char>) -> bool {
    find_from(s, pattern, 0) is Some
}

/// The first position at or after `from` at which `c` stands in `s`.
pub open spec fn find_char_from(s: Seq<char>, c: char, from: int) -> Option<int>
    decreases s.len() - from,
{
    if from < 0 || from >= s.len() {
        None
    } else if s[from] == c {
        Some(from)
    } else {
        find_char_from(s, c, from + 1)
    }
}

/// The last position before `end` at which `c` stands in `s`.
pub open spec fn rfind_char_before(s: Seq<char>, c: char, end: int) -> Option<int>
    decreases end,
{
    if end <= 0 || end > s.len() {
        None
    } else if s[end - 1] == c {
        Some(end - 1)
    } else {
        rfind_char_before(s, c, end - 1)
    }
}

/// Whether `pattern` stands in `v` at position `at`.
pub fn matches_at(v: &Vec<char>, pattern: &Vec<char>, at: usize) -> (yes: bool)
    ensures
        yes == occurs_at(v@, pattern@, at as int),
{
    if pattern.len() > v.len() || at > v.len() - pattern.len() {
        return false;
    }
    let mut k: usize = 0;
    while k < pattern.len()
        invariant
            k <= pattern.len(),
            at + pattern.len() <= v.len(),
            forall|j: int| 0 <= j < k ==> v@[at + j] == #[trigger] pattern@[j],
        decreases pattern.len() - k,
    {
        if v[at + k] != pattern[k] {
            return false;
        }
        k = k + 1;
    }
    true
}

/// Whether `v` begins with `prefix`.
pub fn starts_with(v: &Vec<char>, prefix: &Vec<char>) -> (yes: bool)
    ensures
        yes == has_prefix(v@, prefix@),
{
    matches_at(v, prefix, 0)
}

/// Whether `v` ends with `suffix`.
pub fn ends_with(v: &Vec<char>, suffix: &Vec<char>) -> (yes: bool)
    ensures
        yes == has_suffix(v@, suffix@),
{
    if suffix.len() > v.len() {
        return false;
    }
    matches_at(v, suffix, v.len() - suffix.len())
}

/// The first position at or after `from` at which `pattern` stands in `v`.
pub fn find(v: &Vec<char>, pattern: &Vec<char>, from: usize) -> (at: Option<usize>)
    ensures
        match at {
            Some(i) => find_from(v@, pattern@, from as int) == Some(i as int),
            None => find_from(v@, pattern@, from as int) is None,
        },
{
    if pattern.len() > v.len() {
        return None;
    }
    let last = v.len() - pattern.len();
    let mut i: usize = from;
    while i <= last
        invariant
            from <= i,
            last == v.len() - pattern.len(),
            pattern.len() <= v.len(),
            find_from(v@, pattern@, from as int) == find_from(v@, pattern@, i as int),
        decreases last + 1 - i,
    {
        if matches_at(v, pattern, i) {
            return Some(i);
        }
        i = i + 1;
    }
    None
}

/// Whether `pattern` stands somewhere in `v`.
pub fn contains(v: &Vec<char>, pattern: &Vec<char>) -> (yes: bool)
    ensures
        yes == holds(v@, pattern@),
{
    find(v, pattern, 0).is_some()
}

/// The first position at or after `from` at which `c` stands in `v`.
pub fn find_char(v: &Vec<char>, c: char, from: usize) -> (at: Option<usize>)
    ensures
        match at {
            Some(i) => find_char_from(v@, c, from as int) == Some(i as int),
            None => find_char_from(v@, c, from as int) is None,
        },
{
    let mut i: usize = from;
    while i < v.len()
        invariant
            from <= i,
            find_char_from(v@, c, from as int) == find_char_from(v@, c, i as int),
        decreases v.len() - i,
    {
        if v[i] == c {
            return Some(i);
        }
        i = i + 1;
    }
    None
}

/// The last position at which `c` stands in `v`.
pub fn rfind_char(v: &Vec<char>, c: char) -> (at: Option<usize>)
    ensures
        match at {
            Some(i) => rfind_char_before(v@, c, v@.len() as int) == Some(i as int),
            None => rfind_char_before(v@, c, v@.len() as int) is None,
        },
{
    let mut end: usize = v.len();
    while end > 0
        invariant
            end <= v.len(),
            rfind_char_before(v@, c, v@.len() as int) == rfind_char_before(v@, c, end as int),
        decreases end,
    {
        if v[end - 1] == c {
            return Some(end - 1);
        }
        end = end - 1;
    }
    None
}

/// `pattern` stands somewhere in `s` exactly if there is a position at
/// which it stands.
pub proof fn holds_means_occurs(s: Seq<char>, pattern: Seq<char>)
    ensures
        holds(s, pattern) <==> exists|at: int| occurs_at(s, pattern, at),
{
    if holds(s, pattern) {
        found_is_first(s, pattern, 0);
    }
    if exists|at: int| occurs_at(s, pattern, at) {
        found_is_first(s, pattern, 0);
    }
}

/// What `find_from` finds is the first occurrence at or after `from`, and it
/// finds nothing only where there is none.
pub proof fn found_is_first(s: Seq<char>, pattern: Seq<char>, from: int)
    requires
        0 <= from,
    ensures
        match find_from(s, pattern, from) {
            Some(at) => from <= at && occurs_at(s, pattern, at) && forall|k: int|
                from <= k < at ==> !occurs_at(s, pattern, k),
            None => forall|k: int| from <= k ==> !occurs_at(s, pattern, k),
        },
    decreases s.len() - from,
{
    if from + pattern.len() <= s.len() && !occurs_at(s, pattern, from) {
        found_is_first(s, pattern, from + 1);
    }
}

/// The first position at or after `from` that holds no whitespace, or the
/// length of `s` if there is none.
pub open spec fn first_non_space(s: Seq<char>, from: int) -> int
    decreases s.len() - from,
{
    if from < 0 || from >= s.len() || !whitespace(s[from]) {
        from
    } else {
        first_non_space(s, from + 1)
    }
}

/// The end of the last stretch without trailing whitespace that starts at
/// `low` and ends at or before `to`.
pub open spec fn end_non_space(s: Seq<char>, low: int, to: int) -> int
    decreases to,
{
    if to <= low || to > s.len() || to <= 0 || !whitespace(s[to - 1]) {
        to
    } else {
        end_non_space(s, low, to - 1)
    }
}

/// `s` without the whitespace at its beginning and at its end.
pub open spec fn trimmed(s: Seq<char>) -> Seq<char> {
    let from = first_non_space(s, 0);
    let to = end_non_space(s, from, s.len() as int);
    s.subrange(from, to)
}

/// The bounds of the trimmed text lie inside the text, in order.
pub proof fn trim_bounds(s: Seq<char>, from: int, to: int)
    requires
        0 <= from <= to <= s.len(),
    ensures
        from <= first_non_space(s, from) <= s.len(),
        from <= end_non_space(s, from, to) <= to,
    decreases s.len() - from, to,
{
    if from < s.len() && whitespace(s[from]) {
        trim_bounds(s, from + 1, s.len() as int);
    }
    if to > from && whitespace(s[to - 1]) {
        trim_bounds(s, from, to - 1);
    }
}

/// `v` without the whitespace at its beginning and at its end.
pub fn trim(v: &Vec<char>) -> (out: Vec<char>)
    ensures
        out@ == trimmed(v@),
{
    let mut from: usize = 0;
    while from < v.len() && is_whitespace(v[from])
        invariant
            from <= v.len(),
            first_non_space(v@, 0) == first_non_space(v@, from as int),
        decreases v.len() - from,
    {
        from = from + 1;
    }
    let mut to: usize = v.len();
    while to > from && is_whitespace(v[to - 1])
        invariant
            from <= to <= v.len(),
            end_non_space(v@, from as int, v@.len() as int) == end_non_space(
                v@,
                from as int,
                to as int,
            ),
        decreases to,
    {
        to = to - 1;
    }
    slice(v, from, to)
}

/// `s` from position `at` on, with every occurrence of `pattern` replaced
/// by `with`, going from left to right; occurrences do not overlap. An empty
/// pattern occurs nowhere.
pub open spec fn replaced_from(s: Seq<char>, pattern: Seq<char>, with: Seq<char>, at: int) -> Seq<
    char,
>
    decreases s.len() - at,
{
    if at < 0 || at >= s.len() {
        Seq::empty()
    } else if pattern.len() > 0 && occurs_at(s, pattern, at) {
        with + replaced_from(s, pattern, with, at + pattern.len())
    } else {
        seq![s[at]] + replaced_from(s, pattern, with, at + 1)
    }
}

/// `s` with every occurrence of `pattern` replaced by `with`.
pub open spec fn replaced(s: Seq<char>, pattern: Seq<char>, with: Seq<char>) -> Seq<char> {
    replaced_from(s, pattern, with, 0)
}

/// `v` with every occurrence of `pattern` replaced by `with`, going from
/// left to right. An empty pattern leaves the text as it is.
pub fn replace(v: &Vec<char>, pattern: &Vec<char>, with: &Vec<char>) -> (out: Vec<char>)
    ensures
        out@ == replaced(v@, pattern@, with@),
{
    let mut out: Vec<char> = Vec::new();
    let mut i: usize = 0;
    while i < v.len()
        invariant
            i <= v.len(),
            out@ + replaced_from(v@, pattern@, with@, i as int) == replaced(v@, pattern@, with@),
        decreases v.len() - i,
    {
        if pattern.len() > 0 && matches_at(v, pattern, i) {
            extend(&mut out, with);
            i = i + pattern.len();
        } else {
            out.push(v[i]);
            i = i + 1;
        }
    }
    out
}

/// The position of the line feed that ends the line starting at `from`, or
/// the length of `s` if the line runs to the end.
pub open spec fn line_end(s: Seq<char>, from: int) -> int {
    match find_char_from(s, '\n', from) {
        Some(at) => at,
        None => s.len() as int,
    }
}

/// The line that starts at `from`: up to the next line feed, without it and
/// without a carriage return right before it. A line that runs to the end
/// of the text keeps a carriage return at its end.
pub open spec fn line_at(s: Seq<char>, from: int) -> Seq<char> {
    let end = line_end(s, from);
    if end < s.len() && from < end && s[end - 1] == '\r' {
        s.subrange(from, end - 1)
    } else {
        s.subrange(from, end)
    }
}

/// The lines of `s` from position `from` on.
pub open spec fn lines_from(s: Seq<char>, from: int) -> Seq<Seq<char>>
    decreases s.len() - from,
{
    if from < 0 || from >= s.len() {
        Seq::empty()
    } else {
        let end = line_end(s, from);
        if from <= end < s.len() {
            seq![line_at(s, from)] + lines_from(s, end + 1)
        } else {
            seq![line_at(s, from)]
        }
    }
}

/// The lines of a text, as `str::lines` splits it: at every line feed, a
/// carriage return before the line feed not counted; a line feed at the very
/// end opens no further line.
pub open spec fn lines_of(s: Seq<char>) -> Seq<Seq<char>> {
    lines_from(s, 0)
}

/// What `find_char_from` finds lies at or after `from` and holds the
/// character.
pub proof fn found_char_bounds(s: Seq<char>, c: char, from: int)
    requires
        0 <= from,
    ensures
        match find_char_from(s, c, from) {
            Some(at) => from <= at < s.len() && s[at] == c && forall|k: int|
                from <= k < at ==> s[k] != c,
            None => forall|k: int| from <= k < s.len() ==> s[k] != c,
        },
    decreases s.len() - from,
{
    if from < s.len() && s[from] != c {
        found_char_bounds(s, c, from + 1);
    }
}

/// What `rfind_char_before` finds is the last position before `end` that
/// holds the character.
pub proof fn rfound_char_bounds(s: Seq<char>, c: char, end: int)
    requires
        0 <= end <= s.len(),
    ensures
        match rfind_char_before(s, c, end) {
            Some(at) => 0 <= at < end && s[at] == c && forall|k: int| at < k < end ==> s[k] != c,
            None => forall|k: int| 0 <= k < end ==> s[k] != c,
        },
    decreases end,
{
    if end > 0 && s[end - 1] != c {
        rfound_char_bounds(s, c, end - 1);
    }
}

/// The lines of `v`.
pub fn lines(v: &Vec<char>) -> (out: Vec<Vec<char>>)
    ensures
        rows(out@) == lines_of(v@),
{
    let mut out: Vec<Vec<char>> = Vec::new();
    let mut from: usize = 0;
    while from < v.len()
        invariant
            from <= v.len(),
            rows(out@) + lines_from(v@, from as int) == lines_of(v@),
        decreases v.len() - from,
    {
        proof {
            found_char_bounds(v@, '\n', from as int);
        }
        let end = match find_char(v, '\n', from) {
            Some(at) => at,
            None => v.len(),
        };
        let line = if end < v.len() && from < end && v[end - 1] == '\r' {
            slice(v, from, end - 1)
        } else {
            slice(v, from, end)
        };
        out.push(line);
        if end >= v.len() {
            from = v.len();
        } else {
            from = end + 1;
        }
    }
    out
}

/// The lower-case form of an ASCII capital letter; any other character
/// stays as it is.
pub open spec fn ascii_lower(c: char) -> char {
    if 'A' <= c && c <= 'Z' {
        ((c as u8) + 32) as char
    } else {
        c
    }
}

/// Whether two texts are equal up to the case of their ASCII letters.
pub open spec fn same_ignoring_ascii_case(a: Seq<char>, b: Seq<char>) -> bool {
    &&& a.len() == b.len()
    &&& forall|k: int| 0 <= k < a.len() ==> ascii_lower(#[trigger] a[k]) == ascii_lower(b[k])
}

/// The lower-case form of an ASCII capital letter; any other character
/// stays as it is.
pub fn to_ascii_lower(c: char) -> (lower: char)
    ensures
        lower == ascii_lower(c),
{
    if 'A' <= c && c <= 'Z' {
        ((c as u8) + 32) as char
    } else {
        c
    }
}

/// Whether two texts are equal up to the case of their ASCII letters.
pub fn eq_ignore_ascii_case(a: &Vec<char>, b: &Vec<char>) -> (yes: bool)
    ensures
        yes == same_ignoring_ascii_case(a@, b@),
{
    if a.len() != b.len() {
        return false;
    }
    let mut i: usize = 0;
    while i < a.len()
        invariant
            i <= a.len(),
            a.len() == b.len(),
            forall|k: int| 0 <= k < i ==> ascii_lower(#[trigger] a@[k]) == ascii_lower(b@[k]),
        decreases a.len() - i,
    {
        if to_ascii_lower(a[i]) != to_ascii_lower(b[i]) {
            return false;
        }
        i = i + 1;
    }
    true
}

/// The lower-case form of a text, by the Unicode case mapping.
pub fn lower(v: &Vec<char>) -> (out: Vec<char>)
    ensures
        out@ == lowercase(v@),
{
    let text = string_of(v);
    let low = to_lowercase(text.as_str());
    chars_of(low.as_str())
}

/// Trimming a trimmed text changes nothing.
pub proof fn trimmed_twice(s: Seq<char>)
    ensures
        trimmed(trimmed(s)) == trimmed(s),
{
    let from = first_non_space(s, 0);
    trim_bounds(s, 0, s.len() as int);
    trim_bounds(s, from, s.len() as int);
    first_non_space_stops(s, 0);
    end_non_space_stops(s, from, s.len() as int);
}

/// Where `first_non_space` stops, no whitespace stands, unless it ran to
/// the end.
pub proof fn first_non_space_stops(s: Seq<char>, from: int)
    requires
        0 <= from <= s.len(),
    ensures
        first_non_space(s, from) < s.len() ==> !whitespace(s[first_non_space(s, from)]),
        forall|k: int| from <= k < first_non_space(s, from) ==> whitespace(#[trigger] s[k]),
    decreases s.len() - from,
{
    if from < s.len() && whitespace(s[from]) {
        first_non_space_stops(s, from + 1);
    }
}

/// Where `end_non_space` stops, no whitespace stands right before, unless
/// it ran down to `low`.
pub proof fn end_non_space_stops(s: Seq<char>, low: int, to: int)
    requires
        0 <= low <= to <= s.len(),
    ensures
        end_non_space(s, low, to) > low ==> !whitespace(s[end_non_space(s, low, to) - 1]),
        forall|k: int| end_non_space(s, low, to) <= k < to ==> whitespace(#[trigger] s[k]),
    decreases to,
{
    if to > low && whitespace(s[to - 1]) {
        end_non_space_stops(s, low, to - 1);
    }
}

/// What trimming does: the text is the trimmed text with nothing but
/// whitespace before and after it, and the trimmed text neither begins nor
/// ends with whitespace.
pub proof fn trimmed_is_bare(s: Seq<char>)
    ensures
        ({
            let from = first_non_space(s, 0);
            let to = end_non_space(s, from, s.len() as int);
            &&& 0 <= from <= to <= s.len()
            &&& s == s.subrange(0, from) + trimmed(s) + s.subrange(to, s.len() as int)
            &&& forall|k: int| 0 <= k < from ==> whitespace(#[trigger] s[k])
            &&& forall|k: int| to <= k < s.len() ==> whitespace(#[trigger] s[k])
            &&& trimmed(s).len() > 0 ==> !whitespace(trimmed(s)[0]) && !whitespace(
                trimmed(s)[trimmed(s).len() - 1],
            )
        }),
{
    let from = first_non_space(s, 0);
    trim_bounds(s, 0, s.len() as int);
    trim_bounds(s, from, s.len() as int);
    first_non_space_stops(s, 0);
    end_non_space_stops(s, from, s.len() as int);
}

/// What follows `prefix` in `s`, if `s` begins with it.
pub open spec fn without_prefix(s: Seq<char>, prefix: Seq<char>) -> Option<Seq<char>> {
    if has_prefix(s, prefix) {
        Some(s.skip(prefix.len() as int))
    } else {
        None
    }
}

/// What follows `prefix` in `v`, if `v` begins with it.
pub fn strip_prefix(v: &Vec<char>, prefix: &Vec<char>) -> (rest: Option<Vec<char>>)
    ensures
        match rest {
            Some(r) => without_prefix(v@, prefix@) == Some(r@),
            None => without_prefix(v@, prefix@) is None,
        },
{
    if starts_with(v, prefix) {
        let r = slice(v, prefix.len(), v.len());
        Some(r)
    } else {
        None
    }
}

/// The end of the word that starts at `from`: the first position at or
/// after `from` that holds whitespace, or the length of `s`.
pub open spec fn word_end(s: Seq<char>, from: int) -> int
    decreases s.len() - from,
{
    if from < 0 || from >= s.len() || whitespace(s[from]) {
        from
    } else {
        word_end(s, from + 1)
    }
}

/// The first word of `s`: what stands between the whitespace at its
/// beginning and the next whitespace. Empty if `s` holds nothing else than
/// whitespace.
pub open spec fn first_word_of(s: Seq<char>) -> Seq<char> {
    let from = first_non_space(s, 0);
    s.subrange(from, word_end(s, from))
}

/// The first word of `v`.
pub fn first_word(v: &Vec<char>) -> (word: Vec<char>)
    ensures
        word@ == first_word_of(v@),
{
    let mut from: usize = 0;
    while from < v.len() && is_whitespace(v[from])
        invariant
            from <= v.len(),
            first_non_space(v@, 0) == first_non_space(v@, from as int),
        decreases v.len() - from,
    {
        from = from + 1;
    }
    let mut to: usize = from;
    while to < v.len() && !is_whitespace(v[to])
        invariant
            from <= to <= v.len(),
            word_end(v@, from as int) == word_end(v@, to as int),
        decreases v.len() - to,
    {
        to = to + 1;
    }
    slice(v, from, to)
}

/// The first position at or after `from` that does not hold `c`, or the
/// length of `s`.
pub open spec fn first_other(s: Seq<char>, c: char, from: int) -> int
    decreases s.len() - from,
{
    if from < 0 || from >= s.len() || s[from] != c {
        from
    } else {
        first_other(s, c, from + 1)
    }
}

/// The end of the last stretch that starts at `low`, ends at or before `to`
/// and does not end in `c`.
pub open spec fn end_other(s: Seq<char>, c: char, low: int, to: int) -> int
    decreases to,
{
    if to <= low || to > s.len() || to <= 0 || s[to - 1] != c {
        to
    } else {
        end_other(s, c, low, to - 1)
    }
}

/// `s` without the run of `c` at its beginning and the run of `c` at its
/// end.
pub open spec fn without_around(s: Seq<char>, c: char) -> Seq<char> {
    let from = first_other(s, c, 0);
    s.subrange(from, end_other(s, c, from, s.len() as int))
}

/// `v` without the run of `c` at its beginning and the run of `c` at its
/// end.
pub fn trim_matches(v: &Vec<char>, c: char) -> (out: Vec<char>)
    ensures
        out@ == without_around(v@, c),
{
    let mut from: usize = 0;
    while from < v.len() && v[from] == c
        invariant
            from <= v.len(),
            first_other(v@, c, 0) == first_other(v@, c, from as int),
        decreases v.len() - from,
    {
        from = from + 1;
    }
    let mut to: usize = v.len();
    while to > from && v[to - 1] == c
        invariant
            from <= to <= v.len(),
            end_other(v@, c, from as int, v@.len() as int) == end_other(
                v@,
                c,
                from as int,
                to as int,
            ),
        decreases to,
    {
        to = to - 1;
    }
    slice(v, from, to)
}

/// The last component of a path with `/` as separator, looked for before
/// position `end`: empty components and `.` are passed over, and `..` is no
/// file name.
pub open spec fn file_name_before(path: Seq<char>, end: int) -> Option<Seq<char>>
    decreases end,
{
    if end <= 0 || end > path.len() {
        None
    } else {
        let start = match rfind_char_before(path, '/', end) {
            Some(at) => at + 1,
            None => 0,
        };
        if start < 0 || start > end {
            None
        } else if start == end || path.subrange(start, end) == seq!['.'] {
            if start == 0 {
                None
            } else {
                file_name_before(path, start - 1)
            }
        } else if path.subrange(start, end) == seq!['.', '.'] {
            None
        } else {
            Some(path.subrange(start, end))
        }
    }
}

/// The file name of a path with `/` as separator: its last component, if
/// that is the name of a file or a directory. Separators at the end do not
/// count; a path that ends in `..`, the root and the empty path have none.
pub open spec fn file_name_of(path: Seq<char>) -> Option<Seq<char>> {
    file_name_before(path, path.len() as int)
}

/// The file name of a path with `/` as separator.
pub fn file_name(path: &Vec<char>) -> (name: Option<Vec<char>>)
    ensures
        match name {
            Some(n) => file_name_of(path@) == Some(n@),
            None => file_name_of(path@) is None,
        },
{
    let mut end: usize = path.len();
    while end > 0
        invariant
            end <= path.len(),
            file_name_of(path@) == file_name_before(path@, end as int),
        decreases end,
    {
        proof {
            rfound_char_bounds(path@, '/', end as int);
        }
        let head = slice(path, 0, end);
        proof {
            rfind_only_looks_before(path@, '/', end as int);
        }
        let start = match rfind_char(&head, '/') {
            Some(at) => at + 1,
            None => 0,
        };
        let part = slice(path, start, end);
        let is_dot = part.len() == 1 && part[0] == '.';
        let is_dots = part.len() == 2 && part[0] == '.' && part[1] == '.';
        assert(is_dot == (part@ == seq!['.'])) by {
            if is_dot {
                assert(part@ =~= seq!['.']);
            }
        }
        assert(is_dots == (part@ == seq!['.', '.'])) by {
            if is_dots {
                assert(part@ =~= seq!['.', '.']);
            }
        }
        if part.len() == 0 || is_dot {
            if start == 0 {
                return None;
            }
            end = start - 1;
        } else if is_dots {
            return None;
        } else {
            return Some(part);
        }
    }
    None
}

/// Looking backwards from `end` sees only what stands before `end`.
pub proof fn rfind_only_looks_before(s: Seq<char>, c: char, end: int)
    requires
        0 <= end <= s.len(),
    ensures
        rfind_char_before(s.subrange(0, end), c, end) == rfind_char_before(s, c, end),
    decreases end,
{
    rfind_in_prefix(s, c, end, end);
}

proof fn rfind_in_prefix(s: Seq<char>, c: char, cut: int, end: int)
    requires
        0 <= end <= cut <= s.len(),
    ensures
        rfind_char_before(s.subrange(0, cut), c, end) == rfind_char_before(s, c, end),
    decreases end,
{
    if end > 0 {
        if s[end - 1] != c {
            rfind_in_prefix(s, c, cut, end - 1);
        }
    }
}

/// The file name of a path in which both `/` and `\` separate
/// components, as in a Windows path without a drive or server prefix.
pub open spec fn file_name_either(path: Seq<char>) -> Option<Seq<char>> {
    file_name_of(replaced(path, seq!['\\'], seq!['/']))
}

/// The file name of a path in which both `/` and `\` separate components.
pub fn file_name_any_separator(path: &Vec<char>) -> (name: Option<Vec<char>>)
    ensures
        match name {
            Some(n) => file_name_either(path@) == Some(n@),
            None => file_name_either(path@) is None,
        },
{
    let mut back: Vec<char> = Vec::new();
    back.push('\\');
    let mut forward: Vec<char> = Vec::new();
    forward.push('/');
    file_name(&replace(path, &back, &forward))
}

/// The character of a decimal digit.
pub open spec fn digit_char(d: int) -> char {
    if d == 0 {
        '0'
    } else if d == 1 {
        '1'
    } else if d == 2 {
        '2'
    } else if d == 3 {
        '3'
    } else if d == 4 {
        '4'
    } else if d == 5 {
        '5'
    } else if d == 6 {
        '6'
    } else if d == 7 {
        '7'
    } else if d == 8 {
        '8'
    } else {
        '9'
    }
}

/// A number in decimal notation, without leading zeros.
pub open spec fn decimal(n: nat) -> Seq<char>
    decreases n,
{
    if n < 10 {
        seq![digit_char(n as int)]
    } else {
        decimal(n / 10).push(digit_char((n % 10) as int))
    }
}

/// The character of a decimal digit.
pub(crate) fn digit(d: usize) -> (c: char)
    requires
        d < 10,
    ensures
        c == digit_char(d as int),
{
    if d == 0 {
        '0'
    } else if d == 1 {
        '1'
    } else if d == 2 {
        '2'
    } else if d == 3 {
        '3'
    } else if d == 4 {
        '4'
    } else if d == 5 {
        '5'
    } else if d == 6 {
        '6'
    } else if d == 7 {
        '7'
    } else if d == 8 {
        '8'
    } else {
        '9'
    }
}

/// A number in decimal notation.
pub fn to_decimal(n: usize) -> (text: Vec<char>)
    ensures
        text@ == decimal(n as nat),
    decreases n,
{
    if n < 10 {
        let mut text: Vec<char> = Vec::new();
        text.push(digit(n));
        text
    } else {
        let mut text = to_decimal(n / 10);
        text.push(digit(n % 10));
        text
    }
}

} // verus!
