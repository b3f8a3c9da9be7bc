use workswitch::expansion::{expand_env_vars, expand_for_user, MAX_EXPANSIONS};
use workswitch::spawn::Platform;

fn env(pairs: &[(&str, &str)]) -> Vec<(String, String)> {
    pairs.iter().map(|(k, v)| (k.to_string(), v.to_string())).collect()
}

#[test]
fn windows_expands_percent_names() {
    let e = env(&[("APPDATA", "C:\\Users\\a\\AppData"), ("X", "1")]);
    assert_eq!(
        expand_env_vars("%APPDATA%\\Tool\\%X%.exe", &e, None, Platform::Windows),
        "C:\\Users\\a\\AppData\\Tool\\1.exe"
    );
    assert_eq!(expand_env_vars("%NOPE%\\%X%", &e, None, Platform::Windows), "%NOPE%\\%X%");
    assert_eq!(expand_env_vars("100%", &e, None, Platform::Windows), "100%");
    assert_eq!(expand_env_vars("$X ${X} ~/x", &e, Some("/h"), Platform::Windows), "$X ${X} ~/x");
    assert_eq!(expand_env_vars("", &e, None, Platform::Windows), "");
}

#[test]
fn unix_expands_braces_then_dollars_then_home() {
    let e = env(&[("HOME", "/home/a"), ("APP", "tool"), ("DIR", "${HOME}/opt"), ("N1", "one")]);
    for platform in [Platform::Linux, Platform::MacOs] {
        assert_eq!(expand_env_vars("${HOME}/bin/$APP", &e, None, platform), "/home/a/bin/tool");
        assert_eq!(expand_env_vars("${DIR}/x", &e, None, platform), "/home/a/opt/x");
        assert_eq!(expand_env_vars("$APP-$N1.$NOPE/$", &e, None, platform), "tool-one.$NOPE/$");
        assert_eq!(expand_env_vars("${NOPE}/${APP}", &e, None, platform), "${NOPE}/${APP}");
        assert_eq!(expand_env_vars("${APP", &e, None, platform), "${APP");
        assert_eq!(expand_env_vars("$APPX", &e, None, platform), "$APPX");
        assert_eq!(expand_env_vars("~/x", &e, Some("/home/b"), platform), "/home/b/x");
        assert_eq!(expand_env_vars("~/x", &e, None, platform), "~/x");
        assert_eq!(expand_env_vars("~x", &e, Some("/home/b"), platform), "~x");
        assert_eq!(expand_env_vars("a/~/x", &e, Some("/home/b"), platform), "a/~/x");
        assert_eq!(expand_env_vars("%APP%", &e, None, platform), "%APP%");
    }
}

#[test]
fn unix_takes_other_text_byte_by_byte() {
    let e = env(&[("A", "ä")]);
    // outside a reference each byte of the UTF-8 form becomes one character
    assert_eq!(expand_env_vars("é/$A", &e, None, Platform::Linux), "Ã©/ä");
    assert_eq!(expand_env_vars("plain", &e, None, Platform::Linux), "plain");
}

#[test]
fn expansion_that_goes_in_circles_ends() {
    let e = env(&[("X", "${X}"), ("Y", "a${Y}")]);
    assert_eq!(expand_env_vars("${X}", &e, None, Platform::Linux), "${X}");
    let grown = expand_env_vars("${Y}", &e, None, Platform::Linux);
    assert_eq!(grown, format!("{}${{Y}}", "a".repeat(MAX_EXPANSIONS)));
    let w = env(&[("X", "%X%")]);
    assert_eq!(expand_env_vars("%X%", &w, None, Platform::Windows), "%X%");
}

#[test]
fn first_entry_of_a_name_counts() {
    let e = env(&[("A", "1"), ("A", "2")]);
    assert_eq!(expand_env_vars("$A ${A}", &e, None, Platform::Linux), "1 1");
}

#[test]
fn expansion_for_the_user_uses_the_table() {
    let e = env(&[("APP", "tool")]);
    assert_eq!(expand_for_user("/opt/$APP", &e, Platform::Linux), "/opt/tool");
    assert_eq!(expand_for_user("%APP%", &e, Platform::Windows), "tool");
    let home = expand_for_user("~/x", &e, Platform::Linux);
    assert!(home == "~/x" || home.ends_with("/x"));
}
