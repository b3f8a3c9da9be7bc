use workswitch::config::{
    default_delay, default_theme, default_true, AppConfig, Step, StepKind, DEFAULT_DELAY_MS,
};
use workswitch::launcher::{
    is_uri, launch_app, launch_folder, launch_step, launch_terminal, launch_url, route_app,
    AppRoute, Launch, LaunchError,
};

fn step_of(kind: &str) -> Step {
    Step {
        id: "s".to_string(),
        name: "S".to_string(),
        step_type: kind.to_string(),
        enabled: true,
        delay_after: 0,
        process_name: String::new(),
        target: None,
        check_running: None,
        command: None,
        working_dir: None,
        keep_open: None,
    }
}

#[test]
fn unknown_type_is_rejected_with_its_tag() {
    let plan = launch_step(&step_of("script"));
    assert_eq!(plan, Err(LaunchError::UnknownStepType("script".to_string())));
    assert_eq!(plan.unwrap_err().message(), "Unknown step type: script");
    assert_eq!(
        launch_step(&step_of("App")),
        Err(LaunchError::UnknownStepType("App".to_string()))
    );
}

#[test]
fn app_without_target_is_rejected() {
    assert_eq!(launch_step(&step_of("app")), Err(LaunchError::NoTarget));
    let mut s = step_of("app");
    s.target = Some(String::new());
    assert_eq!(launch_app(&s), Err(LaunchError::NoTarget));
    assert_eq!(LaunchError::NoTarget.message(), "No target specified");
}

#[test]
fn app_probes_its_process_unless_switched_off() {
    let mut s = step_of("app");
    s.target = Some("/usr/bin/firefox".to_string());
    s.process_name = "firefox".to_string();
    assert_eq!(
        launch_step(&s),
        Ok(Launch::App {
            target: "/usr/bin/firefox".to_string(),
            probe: Some("firefox".to_string())
        })
    );
    s.check_running = Some(false);
    assert_eq!(
        launch_step(&s),
        Ok(Launch::App { target: "/usr/bin/firefox".to_string(), probe: None })
    );
    s.check_running = Some(true);
    s.process_name = String::new();
    assert_eq!(
        launch_step(&s),
        Ok(Launch::App { target: "/usr/bin/firefox".to_string(), probe: None })
    );
}

#[test]
fn terminal_needs_a_command_and_keeps_open_by_default() {
    assert_eq!(launch_step(&step_of("terminal")), Err(LaunchError::NoCommand));
    assert_eq!(LaunchError::NoCommand.message(), "No command specified");
    let mut s = step_of("terminal");
    s.command = Some("make test".to_string());
    assert_eq!(
        launch_terminal(&s),
        Ok(Launch::Terminal {
            command: "make test".to_string(),
            working_dir: String::new(),
            keep_open: true
        })
    );
    s.working_dir = Some("~/src".to_string());
    s.keep_open = Some(false);
    assert_eq!(
        launch_step(&s),
        Ok(Launch::Terminal {
            command: "make test".to_string(),
            working_dir: "~/src".to_string(),
            keep_open: false
        })
    );
}

#[test]
fn folder_and_url_need_a_target() {
    assert_eq!(launch_step(&step_of("folder")), Err(LaunchError::NoFolder));
    assert_eq!(launch_step(&step_of("url")), Err(LaunchError::NoUrl));
    assert_eq!(LaunchError::NoFolder.message(), "No folder specified");
    assert_eq!(LaunchError::NoUrl.message(), "No URL specified");
    let mut f = step_of("folder");
    f.target = Some("/tmp".to_string());
    assert_eq!(launch_folder(&f), Ok(Launch::Folder { target: "/tmp".to_string() }));
    let mut u = step_of("url");
    u.target = Some("https://example.org".to_string());
    assert_eq!(launch_url(&u), Ok(Launch::Url { target: "https://example.org".to_string() }));
    assert_eq!(launch_step(&u), Ok(Launch::Url { target: "https://example.org".to_string() }));
}

#[test]
fn uri_needs_a_scheme_of_two_characters() {
    assert!(is_uri("steam://rungameid/440"));
    assert!(is_uri("com.epicgames.launcher://apps/x"));
    assert!(is_uri("mailto:someone@example.org"));
    assert!(is_uri("ab:"));
    assert!(is_uri("git+ssh://host/repo"));
    assert!(!is_uri("C:\\Program Files\\App\\app.exe"));
    assert!(!is_uri("c:"));
    assert!(!is_uri(":x"));
    assert!(!is_uri("/usr/bin/firefox"));
    assert!(!is_uri("firefox"));
    assert!(!is_uri(""));
    assert!(!is_uri("my app:thing"));
    assert!(!is_uri("é:x"));
    assert!(!is_uri("ht_tp://x"));
}

#[test]
fn uri_wins_over_existing_file() {
    assert_eq!(route_app("steam://run/1", true), AppRoute::Uri);
    assert_eq!(route_app("steam://run/1", false), AppRoute::Uri);
    assert_eq!(route_app("/usr/bin/firefox", true), AppRoute::Executable);
    assert_eq!(route_app("firefox", false), AppRoute::Command);
}

#[test]
fn step_kind_reads_the_four_tags() {
    assert_eq!(StepKind::parse("app"), Some(StepKind::App));
    assert_eq!(StepKind::parse("terminal"), Some(StepKind::Terminal));
    assert_eq!(StepKind::parse("folder"), Some(StepKind::Folder));
    assert_eq!(StepKind::parse("url"), Some(StepKind::Url));
    assert_eq!(StepKind::parse(""), None);
    assert_eq!(StepKind::parse("URL"), None);
    for kind in [StepKind::App, StepKind::Terminal, StepKind::Folder, StepKind::Url] {
        assert_eq!(StepKind::parse(kind.tag()), Some(kind));
    }
    assert_eq!(step_of("folder").kind(), Some(StepKind::Folder));
    assert_eq!(step_of("other").kind(), None);
}

#[test]
fn defaults_of_a_fresh_configuration() {
    assert_eq!(default_theme(), "dark");
    assert_eq!(default_delay(), 500);
    assert_eq!(DEFAULT_DELAY_MS, 500);
    assert!(default_true());
    let config = AppConfig::default();
    assert_eq!(config.settings.theme, "dark");
    assert_eq!(config.settings.launch_delay_ms, 500);
    assert!(!config.settings.start_minimized);
    assert!(config.settings.close_on_switch);
    assert!(config.settings.minimize_to_tray);
    assert!(!config.settings.close_on_exit);
    assert!(config.profiles.is_empty());
    assert!(config.startup_apps.is_empty());
}

#[test]
fn step_clone_keeps_every_field() {
    let mut s = step_of("terminal");
    s.command = Some("ls".to_string());
    s.working_dir = Some("/".to_string());
    s.keep_open = Some(false);
    s.check_running = Some(true);
    s.delay_after = 42;
    let c = s.clone();
    assert_eq!(c.id, s.id);
    assert_eq!(c.name, s.name);
    assert_eq!(c.step_type, s.step_type);
    assert_eq!(c.enabled, s.enabled);
    assert_eq!(c.delay_after, 42);
    assert_eq!(c.process_name, s.process_name);
    assert_eq!(c.target, s.target);
    assert_eq!(c.check_running, s.check_running);
    assert_eq!(c.command, s.command);
    assert_eq!(c.working_dir, s.working_dir);
    assert_eq!(c.keep_open, s.keep_open);
}
