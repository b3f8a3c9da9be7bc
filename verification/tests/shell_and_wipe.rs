use workswitch::config::{AppConfig, Profile, Step};
use workswitch::kill_wipe::StageResult;
use workswitch::shell::{
    autostart_desktop_entry, build_tray_menu, close_apps_on_exit, create_default_icon,
    find_profile, launch_agent_plist, menu_action, on_close_requested, startup_steps,
    CloseAction, MenuEntry, TrayAction, ICON_SIZE,
};
use workswitch::wipe::{
    clear_chromium_profiles, clear_firefox_profiles, create_desktop_shortcut, failure,
    failures_of, is_profile_dir, kill_user_processes, shortcut_file_name, undeleted, KillAttempt,
};

fn profile(id: &str, name: &str) -> Profile {
    Profile {
        id: id.to_string(),
        name: name.to_string(),
        description: String::new(),
        steps: vec![],
        schedule: None,
    }
}

fn item(id: &str, label: &str) -> MenuEntry {
    MenuEntry::Item { id: id.to_string(), label: label.to_string() }
}

#[test]
fn tray_menu_lists_the_profiles_between_show_and_quit() {
    assert_eq!(
        build_tray_menu(&vec![profile("w", "Work"), profile("g", "Games")]),
        vec![
            item("show", "Show WorkSwitch"),
            MenuEntry::Separator,
            item("profile-w", "Launch: Work"),
            item("profile-g", "Launch: Games"),
            MenuEntry::Separator,
            item("quit", "Quit"),
        ]
    );
    assert_eq!(
        build_tray_menu(&vec![]),
        vec![item("show", "Show WorkSwitch"), MenuEntry::Separator, MenuEntry::Separator, item("quit", "Quit")]
    );
}

#[test]
fn menu_ids_are_read_back() {
    assert_eq!(menu_action("show"), TrayAction::Show);
    assert_eq!(menu_action("quit"), TrayAction::Quit);
    assert_eq!(menu_action("profile-w"), TrayAction::Launch("w".to_string()));
    assert_eq!(menu_action("profile-"), TrayAction::Launch(String::new()));
    assert_eq!(menu_action("profile"), TrayAction::Ignore);
    assert_eq!(menu_action(""), TrayAction::Ignore);
    assert_eq!(menu_action("Show"), TrayAction::Ignore);
}

#[test]
fn default_icon_is_a_blue_square() {
    let rgba = create_default_icon();
    assert_eq!(ICON_SIZE, 32);
    assert_eq!(rgba.len(), 32 * 32 * 4);
    for pixel in rgba.chunks(4) {
        assert_eq!(pixel, &[37, 99, 235, 255]);
    }
}

#[test]
fn autostart_files_name_the_program() {
    assert_eq!(
        autostart_desktop_entry("/opt/ws/workswitch"),
        "[Desktop Entry]\nType=Application\nName=WorkSwitch\nExec=/opt/ws/workswitch\nX-GNOME-Autostart-enabled=true\nHidden=false\n"
    );
    let plist = launch_agent_plist("/Applications/WorkSwitch.app/Contents/MacOS/workswitch");
    let expected = format!(
        r#"<?xml version="1.0" encoding="UTF-8"?>
<!DOCTYPE plist PUBLIC "-//Apple//DTD PLIST 1.0//EN" "http://www.apple.com/DTDs/PropertyList-1.0.dtd">
<plist version="1.0">
<dict>
    <key>Label</key>
    <string>com.workswitch.app</string>
    <key>ProgramArguments</key>
    <array>
        <string>{}</string>
    </array>
    <key>RunAtLoad</key>
    <true/>
</dict>
</plist>"#,
        "/Applications/WorkSwitch.app/Contents/MacOS/workswitch"
    );
    assert_eq!(plist, expected);
}

#[test]
fn closing_the_window_hides_or_exits() {
    let mut config = AppConfig::default();
    assert_eq!(on_close_requested(&config.settings), CloseAction::HideToTray);
    config.settings.minimize_to_tray = false;
    assert_eq!(on_close_requested(&config.settings), CloseAction::Exit);
    let last = vec!["a.exe".to_string(), "b.exe".to_string()];
    assert!(close_apps_on_exit(&config.settings, last.clone()).is_empty());
    config.settings.close_on_exit = true;
    assert_eq!(close_apps_on_exit(&config.settings, last.clone()), last);
}

#[test]
fn startup_launches_the_enabled_steps() {
    let step = |enabled: bool| Step {
        id: String::new(),
        name: String::new(),
        step_type: "app".to_string(),
        enabled,
        delay_after: 0,
        process_name: String::new(),
        target: None,
        check_running: None,
        command: None,
        working_dir: None,
        keep_open: None,
    };
    assert_eq!(startup_steps(&vec![step(true), step(false), step(true)]), vec![0, 2]);
    assert!(startup_steps(&vec![]).is_empty());
}

#[test]
fn profile_is_found_by_its_id() {
    let profiles = vec![profile("a", "A"), profile("b", "B"), profile("a", "Again")];
    assert_eq!(find_profile(&profiles, "a"), Some(0));
    assert_eq!(find_profile(&profiles, "b"), Some(1));
    assert_eq!(find_profile(&profiles, "c"), None);
    assert_eq!(find_profile(&vec![], "a"), None);
}

#[test]
fn browser_items_are_the_caches_history_and_cookies() {
    let chromium = clear_chromium_profiles();
    assert_eq!(chromium.len(), 13);
    assert_eq!(chromium[0], vec!["Cache".to_string()]);
    assert_eq!(chromium[9], vec!["Network".to_string(), "Cookies".to_string()]);
    assert_eq!(chromium[12], vec!["Service Worker".to_string(), "CacheStorage".to_string()]);
    let firefox = clear_firefox_profiles();
    assert_eq!(firefox.len(), 7);
    assert_eq!(firefox[0], vec!["cache2".to_string()]);
    assert_eq!(firefox[6], vec!["places.sqlite-shm".to_string()]);
    assert!(is_profile_dir("Default"));
    assert!(is_profile_dir("Profile 1"));
    assert!(is_profile_dir("Profile "));
    assert!(!is_profile_dir("Profile"));
    assert!(!is_profile_dir("default"));
    assert!(!is_profile_dir("System Profile"));
}

#[test]
fn failures_are_reported_under_their_subject() {
    assert_eq!(failure("Chrome", "busy"), "Chrome: busy");
    assert_eq!(
        failures_of("Firefox", &vec!["a: x".to_string(), "b".to_string()]),
        vec!["Firefox: a: x".to_string(), "Firefox: b".to_string()]
    );
    assert!(failures_of("Firefox", &vec![]).is_empty());
    assert_eq!(undeleted(0), "Failed to delete 0 items");
    assert_eq!(undeleted(7), "Failed to delete 7 items");
    assert_eq!(undeleted(1203), "Failed to delete 1203 items");
    assert_eq!(undeleted(usize::MAX), format!("Failed to delete {} items", usize::MAX));
}

#[test]
fn kill_stage_counts_and_lists() {
    let attempts = vec![
        KillAttempt { image: "a.exe".to_string(), error: None },
        KillAttempt { image: "b.exe".to_string(), error: Some("Access is denied.".to_string()) },
        KillAttempt { image: "c.exe".to_string(), error: None },
    ];
    assert_eq!(
        kill_user_processes(&attempts),
        StageResult::Killed { count: 2, failures: vec!["b.exe: Access is denied.".to_string()] }
    );
    assert_eq!(kill_user_processes(&vec![]), StageResult::Killed { count: 0, failures: vec![] });
}

#[test]
fn shortcut_script_quotes_its_paths() {
    assert_eq!(shortcut_file_name(), "WorkSwitch Kill & Wipe.lnk");
    let script = create_desktop_shortcut(
        "C:\\Users\\O'Neil\\Desktop\\WorkSwitch Kill & Wipe.lnk",
        "C:\\ws\\workswitch.exe",
        true,
        "C:\\ws",
    );
    assert_eq!(
        script,
        "$WshShell = New-Object -ComObject WScript.Shell; $Shortcut = $WshShell.CreateShortcut('C:\\Users\\O''Neil\\Desktop\\WorkSwitch Kill & Wipe.lnk'); $Shortcut.TargetPath = 'C:\\ws\\workswitch.exe'; $Shortcut.Arguments = '--kill-and-wipe-immediate'; $Shortcut.WorkingDirectory = 'C:\\ws'; $Shortcut.IconLocation = 'C:\\ws\\workswitch.exe'; $Shortcut.Save();"
    );
    assert!(create_desktop_shortcut("a", "b", false, "c").contains("$Shortcut.Arguments = '--kill-and-wipe';"));
}
