use workswitch::text::{
    chars_of, contains, ends_with, eq_ignore_ascii_case, file_name, file_name_any_separator, find,
    find_char, first_word, lines, lower, replace, rfind_char, same_text, slice, starts_with,
    string_of, strip_prefix, to_ascii_lower, to_decimal, trim, trim_matches,
};

fn c(s: &str) -> Vec<char> {
    s.chars().collect()
}

fn s(v: Vec<char>) -> String {
    v.into_iter().collect()
}

const SAMPLES: [&str; 14] = [
    "",
    " ",
    "a",
    "  a b  ",
    "\t\r\nx\u{a0}",
    "äöü ß",
    "a\nb",
    "a\r\nb\n",
    "\n",
    "\n\n",
    "a\r",
    "a\rb\r\n\r\nc",
    "x%fy%F%f",
    "日本語\u{3000}",
];

#[test]
fn conversion_goes_there_and_back() {
    for x in SAMPLES {
        assert_eq!(chars_of(x), c(x));
        assert_eq!(string_of(&c(x)), x);
        for y in SAMPLES {
            assert_eq!(same_text(x, y), x == y);
        }
    }
}

#[test]
fn trim_is_that_of_str() {
    for x in SAMPLES {
        assert_eq!(s(trim(&c(x))), x.trim(), "{:?}", x);
        assert_eq!(s(trim(&trim(&c(x)))), x.trim());
    }
}

#[test]
fn lines_are_those_of_str() {
    for x in SAMPLES {
        let ours: Vec<String> = lines(&c(x)).into_iter().map(s).collect();
        let theirs: Vec<String> = x.lines().map(|l| l.to_string()).collect();
        assert_eq!(ours, theirs, "{:?}", x);
    }
}

#[test]
fn first_word_is_that_of_split_whitespace() {
    for x in SAMPLES {
        assert_eq!(s(first_word(&c(x))), x.split_whitespace().next().unwrap_or(""), "{:?}", x);
    }
}

#[test]
fn searching_is_that_of_str() {
    let patterns = ["", "a", "b", "ab", "%f", "\n", "语", " "];
    for x in SAMPLES {
        for p in patterns {
            assert_eq!(starts_with(&c(x), &c(p)), x.starts_with(p), "{:?} {:?}", x, p);
            assert_eq!(ends_with(&c(x), &c(p)), x.ends_with(p), "{:?} {:?}", x, p);
            assert_eq!(contains(&c(x), &c(p)), x.contains(p), "{:?} {:?}", x, p);
            let at = x.find(p).map(|b| x[..b].chars().count());
            assert_eq!(find(&c(x), &c(p), 0), at, "{:?} {:?}", x, p);
            assert_eq!(
                strip_prefix(&c(x), &c(p)).map(s),
                x.strip_prefix(p).map(|r| r.to_string())
            );
            if !p.is_empty() {
                assert_eq!(s(replace(&c(x), &c(p), &c("<>"))), x.replace(p, "<>"), "{:?} {:?}", x, p);
                assert_eq!(s(replace(&c(x), &c(p), &c(""))), x.replace(p, ""));
            }
        }
        for ch in ['a', ' ', '\n', '%'] {
            assert_eq!(find_char(&c(x), ch, 0), x.find(ch).map(|b| x[..b].chars().count()));
            assert_eq!(rfind_char(&c(x), ch), x.rfind(ch).map(|b| x[..b].chars().count()));
            assert_eq!(s(trim_matches(&c(x), ch)), x.trim_matches(ch));
        }
    }
    assert_eq!(find(&c("abcabc"), &c("bc"), 2), Some(4));
    assert_eq!(find(&c("abc"), &c("bc"), 3), None);
    assert_eq!(find_char(&c("a,b,c"), ',', 2), Some(3));
    assert_eq!(s(replace(&c("aaa"), &c("aa"), &c("b"))), "ba");
    assert_eq!(s(replace(&c("abc"), &c(""), &c("x"))), "abc");
    assert_eq!(s(slice(&c("hello"), 1, 3)), "el");
    assert_eq!(s(trim_matches(&c("\"\"a\"b\"\""), '"')), "a\"b");
    assert_eq!(s(trim_matches(&c("\"\""), '"')), "");
}

#[test]
fn lower_case_is_that_of_str() {
    for x in ["", "ABC", "Straße", "ÄÖÜ", "İstanbul", "ΣΑΣ", "mixed Case 123"] {
        assert_eq!(s(lower(&c(x))), x.to_lowercase());
        for y in ["abc", "Abc", "ABC", "straße", "äöü", ""] {
            assert_eq!(eq_ignore_ascii_case(&c(x), &c(y)), x.eq_ignore_ascii_case(y));
        }
    }
    for ch in ['A', 'Z', 'a', 'z', '@', '[', 'Ä', '0'] {
        assert_eq!(to_ascii_lower(ch), ch.to_ascii_lowercase());
    }
}

#[test]
fn file_name_is_that_of_a_unix_path() {
    for x in [
        "", "/", "//", ".", "..", "./", "a", "a/", "a//", "/a", "/a/b", "a/b/", "a/.", "a/./", "a/..",
        "a/b/..", "../a", "./a", "/usr/bin/gimp-2.10", "a b/c d", "a/./.", "/.", "/..", "...", "a/...",
        ".hidden", "dir.d/file.txt", "//a//b//",
    ] {
        let expected = std::path::Path::new(x).file_name().map(|f| f.to_str().unwrap().to_string());
        assert_eq!(file_name(&c(x)).map(s), expected, "{:?}", x);
    }
    assert_eq!(file_name_any_separator(&c("C:\\a\\b.exe")).map(s), Some("b.exe".to_string()));
    assert_eq!(file_name_any_separator(&c("a/b\\c")).map(s), Some("c".to_string()));
    assert_eq!(file_name_any_separator(&c("a\\")).map(s), Some("a".to_string()));
    assert_eq!(file_name_any_separator(&c("")).map(s), None);
}

#[test]
fn decimal_is_that_of_display() {
    for n in [0usize, 1, 9, 10, 11, 99, 100, 101, 12345, usize::MAX] {
        assert_eq!(s(to_decimal(n)), n.to_string());
    }
}
