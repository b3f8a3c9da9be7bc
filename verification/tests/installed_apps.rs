use workswitch::discovery::DiscoveredApp;
use workswitch::epic::{app_of_manifest, is_manifest_file, parse_epic_manifest, EpicManifest};
use workswitch::installed::{
    bundle_name, dedup_by_name, extract_exe_from_icon, find_largest, is_program_file,
    parse_uninstall_entry,
};

const MANIFEST: &str = r#"{
    "FormatVersion": 0,
    "bIsApplication": true,
    "LaunchExecutable": "Game/Binaries/Win64/Game.exe",
    "DisplayName": "The Game",
    "AppName": "abc123",
    "CatalogNamespace": "ns",
    "CatalogItemId": "item"
}"#;

#[test]
fn epic_manifest_gives_a_launcher_uri() {
    assert_eq!(
        parse_epic_manifest(MANIFEST),
        Some(DiscoveredApp {
            name: "The Game".to_string(),
            target: "com.epicgames.launcher://apps/ns%3Aitem%3Aabc123?action=launch".to_string(),
            process_name: "Game.exe".to_string(),
            source: "epic".to_string(),
        })
    );
}

#[test]
fn epic_manifest_that_is_no_application_or_lacks_a_field_is_passed_over() {
    assert_eq!(parse_epic_manifest(&MANIFEST.replace("true", "false")), None);
    assert_eq!(parse_epic_manifest(&MANIFEST.replace("\"The Game\"", "\"\"")), None);
    assert_eq!(parse_epic_manifest(&MANIFEST.replace("\"The Game\"", "7")), None);
    assert_eq!(parse_epic_manifest(&MANIFEST.replace("AppName", "Other")), None);
    assert_eq!(parse_epic_manifest(&MANIFEST.replace("CatalogNamespace", "Other")), None);
    assert_eq!(parse_epic_manifest(&MANIFEST.replace("CatalogItemId", "Other")), None);
    assert_eq!(parse_epic_manifest("not json"), None);
    assert_eq!(parse_epic_manifest("[1, 2]"), None);
    assert_eq!(parse_epic_manifest(""), None);
}

#[test]
fn epic_manifest_without_flag_or_executable_still_counts() {
    let text = r#"{"DisplayName":"G","AppName":"a","CatalogNamespace":"n","CatalogItemId":"i","bIsApplication":"no"}"#;
    let app = parse_epic_manifest(text).unwrap();
    assert_eq!(app.process_name, "");
    assert_eq!(app.target, "com.epicgames.launcher://apps/n%3Ai%3Aa?action=launch");
}

#[test]
fn fields_of_a_manifest_decide_alone() {
    let full = EpicManifest {
        is_application: None,
        display_name: Some("G".to_string()),
        app_name: Some("a".to_string()),
        catalog_namespace: Some("n".to_string()),
        catalog_item_id: Some("i".to_string()),
        launch_executable: Some("Bin\\Win64\\G.exe".to_string()),
    };
    assert_eq!(app_of_manifest(&full).unwrap().process_name, "G.exe");
    let mut off = full.clone();
    off.is_application = Some(false);
    assert_eq!(app_of_manifest(&off), None);
    let mut nameless = full.clone();
    nameless.display_name = None;
    assert_eq!(app_of_manifest(&nameless), None);
    assert!(is_manifest_file("ABCDEF.item"));
    assert!(!is_manifest_file("ABCDEF.items"));
    assert!(!is_manifest_file(".item"));
    assert!(!is_manifest_file("item"));
}

#[test]
fn uninstall_entry_of_a_program_is_listed() {
    assert_eq!(
        parse_uninstall_entry("  Mozilla Firefox ", 0, Some("C:\\Program Files\\Mozilla Firefox\\firefox.exe")),
        Some(DiscoveredApp {
            name: "Mozilla Firefox".to_string(),
            target: "C:\\Program Files\\Mozilla Firefox\\firefox.exe".to_string(),
            process_name: "firefox.exe".to_string(),
            source: "windows".to_string(),
        })
    );
}

#[test]
fn uninstall_entry_of_a_patch_or_component_is_passed_over() {
    let exe = Some("C:\\x\\app.exe");
    for name in [
        "",
        "   ",
        "KB5001234",
        "{1234-ABCD}",
        "Security Update for Windows",
        "Update for Office",
        "Hotfix for Something",
        "Microsoft Visual C++ 2019 Redistributable",
        "Microsoft .NET Framework 4.8",
        "Windows SDK AddOn",
    ] {
        assert_eq!(parse_uninstall_entry(name, 0, exe), None, "{}", name);
    }
    assert_eq!(parse_uninstall_entry("App", 1, exe), None);
    assert_eq!(parse_uninstall_entry("App", 0, None), None);
    assert_eq!(parse_uninstall_entry("App", 0, Some("C:\\x\\Unins000.exe")), None);
    assert_eq!(parse_uninstall_entry("App", 0, Some("C:/x/uninstall.exe")), None);
    assert!(parse_uninstall_entry("App", 2, exe).is_some());
    assert!(parse_uninstall_entry("My KB tool", 0, exe).is_some());
}

#[test]
fn icon_value_names_its_executable() {
    assert_eq!(extract_exe_from_icon("C:\\App\\app.exe,0"), Some("C:\\App\\app.exe".to_string()));
    assert_eq!(extract_exe_from_icon("\"C:\\App\\app.exe\",-101"), Some("C:\\App\\app.exe".to_string()));
    assert_eq!(extract_exe_from_icon("  \"C:\\App\\App.EXE\"  "), Some("C:\\App\\App.EXE".to_string()));
    assert_eq!(extract_exe_from_icon("C:\\App\\app.exe, 3 "), Some("C:\\App\\app.exe".to_string()));
    assert_eq!(extract_exe_from_icon("C:\\App,x\\app.exe"), Some("C:\\App,x\\app.exe".to_string()));
    assert_eq!(extract_exe_from_icon("C:\\App\\app.exe,"), Some("C:\\App\\app.exe".to_string()));
    assert_eq!(extract_exe_from_icon("C:\\App\\app.ico"), None);
    assert_eq!(extract_exe_from_icon("C:\\App\\app.ico,0"), None);
    assert_eq!(extract_exe_from_icon(""), None);
}

#[test]
fn program_file_is_an_exe_that_is_no_helper() {
    assert!(is_program_file("game.exe"));
    assert!(is_program_file("Game Launcher.exe"));
    assert!(!is_program_file("game.EXE"));
    assert!(!is_program_file("game.dll"));
    assert!(!is_program_file(".exe"));
    assert!(!is_program_file("unins000.exe"));
    assert!(!is_program_file("Uninstall.exe"));
    assert!(!is_program_file("AutoUpdate.exe"));
    assert!(!is_program_file("CrashReporter.exe"));
    assert!(!is_program_file("helper.exe"));
    assert!(!is_program_file("Setup.exe"));
}

#[test]
fn largest_file_is_picked_first_of_equals() {
    assert_eq!(find_largest(&vec![]), None);
    assert_eq!(find_largest(&vec![5]), Some(0));
    assert_eq!(find_largest(&vec![1, 9, 3, 9]), Some(1));
    assert_eq!(find_largest(&vec![0, 0]), Some(0));
    assert_eq!(find_largest(&vec![1, 2, 3]), Some(2));
}

#[test]
fn bundle_name_drops_the_ending() {
    assert_eq!(bundle_name("Safari.app"), Some("Safari".to_string()));
    assert_eq!(bundle_name("X.app.app"), Some("X".to_string()));
    assert_eq!(bundle_name(".app"), Some(String::new()));
    assert_eq!(bundle_name("Safari"), None);
    assert_eq!(bundle_name("Safari.App"), None);
    for name in ["Safari.app", "X.app.app", ".app", "a.appx.app"] {
        assert_eq!(bundle_name(name), Some(name.trim_end_matches(".app").to_string()));
    }
}

#[test]
fn installed_apps_are_listed_once_by_name() {
    let app = |name: &str, target: &str| DiscoveredApp {
        name: name.to_string(),
        target: target.to_string(),
        process_name: String::new(),
        source: "linux".to_string(),
    };
    let kept = dedup_by_name(vec![app("Gimp", "1"), app("gimp", "2"), app("Inkscape", "3"), app("GIMP", "4")]);
    let targets: Vec<String> = kept.iter().map(|a| a.target.clone()).collect();
    assert_eq!(targets, vec!["1".to_string(), "3".to_string()]);
}
