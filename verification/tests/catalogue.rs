use workswitch::desktop_entry::parse_desktop_file;
use workswitch::discovery::{comes_before, dedup_by_target, scan_all, sort_by_name, DiscoveredApp};
use workswitch::scanners::{
    read_all, read_one, scan_epic, scan_installed_apps, scan_steam, Source,
};
use workswitch::steam::{extract_vdf_value, glob_match, library_folders, parse_acf};

fn app(name: &str, target: &str, source: &str) -> DiscoveredApp {
    DiscoveredApp {
        name: name.to_string(),
        target: target.to_string(),
        process_name: String::new(),
        source: source.to_string(),
    }
}

fn names(apps: &[DiscoveredApp]) -> Vec<(String, String)> {
    apps.iter().map(|a| (a.name.clone(), a.source.clone())).collect()
}

fn pairs(items: &[(&str, &str)]) -> Vec<(String, String)> {
    items.iter().map(|(a, b)| (a.to_string(), b.to_string())).collect()
}

#[test]
fn catalogue_is_merged_deduplicated_and_ordered() {
    let steam = vec![app("Portal", "steam://rungameid/400", "steam"), app("zed", "steam://rungameid/1", "steam")];
    let epic = vec![app("Alan Wake", "com.epicgames.launcher://apps/a", "epic")];
    let installed = vec![
        app("firefox", "/usr/bin/firefox", "linux"),
        app("Portal launcher", "STEAM://RUNGAMEID/400", "linux"),
        app("Firefox", "/usr/bin/firefox-esr", "linux"),
        app("Émile", "/usr/bin/emile", "linux"),
    ];
    let all = scan_all(steam, epic, installed);
    assert_eq!(
        names(&all),
        pairs(&[
            ("Alan Wake", "epic"),
            ("firefox", "linux"),
            ("Firefox", "linux"),
            ("Portal", "steam"),
            ("zed", "steam"),
            ("Émile", "linux"),
        ])
    );
}

#[test]
fn catalogue_of_nothing_is_empty() {
    assert!(scan_all(vec![], vec![], vec![]).is_empty());
}

#[test]
fn dedup_keeps_the_first_of_each_target() {
    let kept = dedup_by_target(vec![
        app("a", "/X", "1"),
        app("b", "/x", "2"),
        app("c", "/y", "3"),
        app("d", "/X", "4"),
    ]);
    assert_eq!(names(&kept), pairs(&[("a", "1"), ("c", "3")]));
}

#[test]
fn sort_is_stable_and_ignores_case() {
    let sorted = sort_by_name(vec![
        app("b", "1", "first b"),
        app("A", "2", "first a"),
        app("B", "3", "second b"),
        app("a", "4", "second a"),
        app("", "5", "empty"),
        app("ab", "6", "ab"),
    ]);
    assert_eq!(
        names(&sorted),
        pairs(&[
            ("", "empty"),
            ("A", "first a"),
            ("a", "second a"),
            ("ab", "ab"),
            ("b", "first b"),
            ("B", "second b"),
        ])
    );
}

#[test]
fn text_order_is_that_of_str() {
    let cases = ["", "a", "ab", "b", "B", "é", "z", "abc", "abd", "ab ", "日本"];
    for x in cases {
        for y in cases {
            let a: Vec<char> = x.chars().collect();
            let b: Vec<char> = y.chars().collect();
            assert_eq!(comes_before(&a, &b), x < y, "{:?} < {:?}", x, y);
        }
    }
}

#[test]
fn vdf_value_is_read_between_quotes() {
    assert_eq!(extract_vdf_value("\t\"appid\"\t\t\"440\"", "appid"), Some("440".to_string()));
    assert_eq!(extract_vdf_value("\"name\" \"Team Fortress 2\"", "name"), Some("Team Fortress 2".to_string()));
    assert_eq!(extract_vdf_value("\"name\"\"x\"", "name"), Some("x".to_string()));
    assert_eq!(extract_vdf_value("\"name\" \"\"", "name"), Some(String::new()));
    assert_eq!(extract_vdf_value("\"name\" \"open", "name"), None);
    assert_eq!(extract_vdf_value("\"name\" \"", "name"), None);
    assert_eq!(extract_vdf_value("\"name\" value", "name"), None);
    assert_eq!(extract_vdf_value("\"names\" \"x\"", "name"), None);
    assert_eq!(extract_vdf_value("name \"x\"", "name"), None);
    assert_eq!(extract_vdf_value("", "name"), None);
    assert_eq!(extract_vdf_value("\"path\"\t\t\"D:\\\\Games\" \"more\"", "path"), Some("D:\\\\Games".to_string()));
}

const MANIFEST: &str = "\"AppState\"\n{\n\t\"appid\"\t\t\"440\"\n\t\"Universe\"\t\t\"1\"\n\t\"name\"\t\t\"Team Fortress 2\"\n\t\"StateFlags\"\t\t\"4\"\n}\n";

#[test]
fn app_manifest_gives_a_steam_launch() {
    assert_eq!(
        parse_acf(MANIFEST),
        Some(DiscoveredApp {
            name: "Team Fortress 2".to_string(),
            target: "steam://rungameid/440".to_string(),
            process_name: String::new(),
            source: "steam".to_string(),
        })
    );
    let crlf = MANIFEST.replace('\n', "\r\n");
    assert_eq!(parse_acf(&crlf).map(|a| a.target), Some("steam://rungameid/440".to_string()));
}

#[test]
fn app_manifest_of_a_tool_is_passed_over() {
    let tool = |id: &str, name: &str| format!("\"appid\" \"{}\"\n\"name\" \"{}\"\n", id, name);
    assert_eq!(parse_acf(&tool("228980", "Steamworks Common Redistributables")), None);
    assert_eq!(parse_acf(&tool("250820", "SteamVR")), None);
    assert_eq!(parse_acf(&tool("5", "Some Redist Pack")), None);
    assert_eq!(parse_acf(&tool("5", "DirectX Runtime")), None);
    assert_eq!(parse_acf(&tool("5", "Proton 8.0")), None);
    assert_eq!(parse_acf(&tool("5", "Steamworks SDK")), None);
    assert_eq!(parse_acf(&tool("5", "")), None);
    assert_eq!(parse_acf(&tool("", "Game")), None);
    assert_eq!(parse_acf("\"name\" \"Game\"\n"), None);
    assert_eq!(parse_acf(""), None);
    assert!(parse_acf(&tool("5", "Protonic")).is_some());
    assert!(parse_acf(&tool("5", "My Steamworks")).is_some());
}

#[test]
fn last_of_repeated_keys_counts_in_a_manifest() {
    let text = "\"appid\" \"1\"\n\"name\" \"One\"\n\"appid\" \"2\"\n\"name\" \"Two\"\n";
    let found = parse_acf(text).unwrap();
    assert_eq!(found.name, "Two");
    assert_eq!(found.target, "steam://rungameid/2");
}

#[test]
fn library_list_names_its_folders() {
    let text = "\"libraryfolders\"\n{\n\t\"0\"\n\t{\n\t\t\"path\"\t\t\"C:\\\\Program Files (x86)\\\\Steam\"\n\t}\n\t\"1\"\n\t{\n\t\t\"path\"\t\t\"D:\\\\Games\\\\\\\\Lib\"\n\t}\n}\n";
    assert_eq!(
        library_folders(text),
        vec!["C:\\Program Files (x86)\\Steam".to_string(), "D:\\Games\\\\Lib".to_string()]
    );
    assert!(library_folders("").is_empty());
}

#[test]
fn glob_fits_prefix_and_suffix() {
    assert!(glob_match("appmanifest_440.acf", "appmanifest_*.acf"));
    assert!(glob_match("appmanifest_.acf", "appmanifest_*.acf"));
    assert!(!glob_match("appmanifest_440.acf.tmp", "appmanifest_*.acf"));
    assert!(!glob_match("manifest_440.acf", "appmanifest_*.acf"));
    assert!(!glob_match("appmanifest_440.acf", "appmanifest_440.acf"));
    assert!(glob_match("anything", "*"));
    assert!(glob_match("a*b", "a**b"));
    assert!(glob_match("aba", "ab*ba"));
}

const ENTRY: &str = "[Desktop Entry]\nVersion=1.0\nName=Firefox\nName[de]=Feuerfuchs\nExec=/usr/lib/firefox/firefox %u\nType=Application\nIcon=firefox\n\n[Desktop Action new-window]\nName=New Window\nExec=firefox --new-window %u\n";

#[test]
fn desktop_entry_gives_name_command_and_process() {
    assert_eq!(
        parse_desktop_file(ENTRY),
        Some(DiscoveredApp {
            name: "Firefox".to_string(),
            target: "/usr/lib/firefox/firefox".to_string(),
            process_name: "firefox".to_string(),
            source: "linux".to_string(),
        })
    );
}

#[test]
fn desktop_entry_that_is_hidden_or_no_application_is_passed_over() {
    assert_eq!(parse_desktop_file("[Desktop Entry]\nName=X\nExec=x\nType=Link\n"), None);
    assert_eq!(parse_desktop_file("[Desktop Entry]\nName=X\nExec=x\nType=Application\nNoDisplay=true\n"), None);
    assert_eq!(parse_desktop_file("[Desktop Entry]\nExec=x\nType=Application\n"), None);
    assert_eq!(parse_desktop_file("[Desktop Entry]\nName=X\nType=Application\n"), None);
    assert_eq!(parse_desktop_file("Name=X\nExec=x\nType=Application\n"), None);
    assert_eq!(parse_desktop_file("[Other]\nName=X\nExec=x\nType=Application\n"), None);
    assert_eq!(parse_desktop_file(""), None);
}

#[test]
fn desktop_entry_reads_only_its_own_group() {
    let text = "[Other]\nName=Wrong\n[Desktop Entry]\n  Name=Right  \nName=Later\nExec=env A=1 %F /opt/app/run.sh --flag %k\nExec=/opt/tool%i/bin/tool  %f %U\nType=Application\n[Next]\nNoDisplay=true\nType=Link\n";
    assert_eq!(
        parse_desktop_file(text),
        Some(DiscoveredApp {
            name: "Right".to_string(),
            target: "/opt/tool/bin/tool".to_string(),
            process_name: "tool".to_string(),
            source: "linux".to_string(),
        })
    );
}

#[test]
fn desktop_entry_process_name_follows_the_path_rules() {
    let entry = |exec: &str| format!("[Desktop Entry]\nName=X\nType=Application\nExec={}\n", exec);
    let process = |exec: &str| parse_desktop_file(&entry(exec)).map(|a| a.process_name);
    for exec in ["gimp %U", "/usr/bin/gimp-2.10 %U", "/opt/x/./run/ arg", "../x/..", "/", ".", "./tool", "a//b///", "sh -c \"x\""] {
        let clean = exec.replace("%U", "");
        let first = clean.trim().split_whitespace().next().unwrap_or("");
        let expected = std::path::Path::new(first)
            .file_name()
            .and_then(|f| f.to_str())
            .unwrap_or("")
            .to_string();
        assert_eq!(process(exec), Some(expected), "Exec={}", exec);
    }
}

#[test]
fn scanners_read_what_their_files_describe() {
    let steam = vec![
        MANIFEST.to_string(),
        "garbage".to_string(),
        "\"appid\" \"228980\"\n\"name\" \"Steamworks Common Redistributables\"\n".to_string(),
        "\"appid\" \"620\"\n\"name\" \"Portal 2\"\n".to_string(),
    ];
    let found: Vec<String> = scan_steam(&steam).into_iter().map(|a| a.target).collect();
    assert_eq!(found, vec!["steam://rungameid/440".to_string(), "steam://rungameid/620".to_string()]);
    assert!(scan_steam(&vec![]).is_empty());

    let epic = vec![
        "{".to_string(),
        r#"{"DisplayName":"G","AppName":"a","CatalogNamespace":"n","CatalogItemId":"i"}"#.to_string(),
    ];
    let found: Vec<String> = scan_epic(&epic).into_iter().map(|a| a.name).collect();
    assert_eq!(found, vec!["G".to_string()]);

    let entries = vec![
        ENTRY.to_string(),
        "[Desktop Entry]\nName=firefox\nExec=/opt/other/firefox\nType=Application\n".to_string(),
        "[Desktop Entry]\nName=Gimp\nExec=gimp %U\nType=Application\n".to_string(),
        "[Desktop Entry]\nName=Hidden\nExec=x\nType=Application\nNoDisplay=true\n".to_string(),
    ];
    let found: Vec<(String, String)> =
        scan_installed_apps(&entries).into_iter().map(|a| (a.name, a.target)).collect();
    assert_eq!(
        found,
        pairs(&[("Firefox", "/usr/lib/firefox/firefox"), ("Gimp", "gimp")])
    );
    assert_eq!(read_one(Source::DesktopEntry, ENTRY).map(|a| a.source), Some("linux".to_string()));
    assert_eq!(read_one(Source::SteamManifest, ENTRY), None);
    assert_eq!(read_all(Source::EpicManifest, &epic).len(), 1);
}
