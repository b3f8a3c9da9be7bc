use workswitch::kill_wipe::{
    critical_processes, escape_ps_string, is_current_user, is_system_user, kill_target,
    kill_targets, parse_csv_line, run, stages, wants, KillWipeOptions, KillWipeReport, Stage,
    StageResult,
};

fn options(kill: bool, temp: bool, browsers: bool, dns: bool) -> KillWipeOptions {
    KillWipeOptions {
        kill_processes: kill,
        clear_temp: temp,
        clear_browsers: browsers,
        flush_dns: dns,
        logout: false,
    }
}

fn strings(items: &[&str]) -> Vec<String> {
    items.iter().map(|s| s.to_string()).collect()
}

#[test]
fn stages_follow_the_options_in_order() {
    assert_eq!(
        stages(&options(true, true, true, true)),
        vec![Stage::KillProcesses, Stage::ClearTemp, Stage::ClearBrowsers, Stage::FlushDns]
    );
    assert_eq!(stages(&options(false, true, false, true)), vec![Stage::ClearTemp, Stage::FlushDns]);
    assert_eq!(stages(&options(false, false, false, false)), Vec::<Stage>::new());
    assert!(wants(&options(true, false, false, false), Stage::KillProcesses));
    assert!(!wants(&options(true, false, false, false), Stage::FlushDns));
}

#[test]
fn report_of_no_stage_is_blank() {
    let report = run(&options(false, false, false, false), vec![]);
    assert_eq!(report, KillWipeReport::new());
    assert_eq!(report.killed_count, 0);
    assert!(!report.dns_flushed);
    assert!(report.kill_failures.is_empty());
}

#[test]
fn report_holds_what_the_stages_returned() {
    let results = vec![
        StageResult::Killed { count: 3, failures: strings(&["a.exe: denied"]) },
        StageResult::TempCleared { failures: strings(&["C:\\Temp: Failed to delete 2 items"]) },
        StageResult::BrowsersCleared {
            cleared: strings(&["Chrome", "Firefox"]),
            failures: strings(&["Chrome: x: busy"]),
        },
        StageResult::DnsFlushed { done: true },
    ];
    let report = run(&options(true, true, true, true), results);
    assert_eq!(
        report,
        KillWipeReport {
            killed_count: 3,
            kill_failures: strings(&["a.exe: denied"]),
            temp_failures: strings(&["C:\\Temp: Failed to delete 2 items"]),
            browser_cleared: strings(&["Chrome", "Firefox"]),
            browser_failures: strings(&["Chrome: x: busy"]),
            dns_flushed: true,
        }
    );
}

#[test]
fn result_of_a_stage_not_asked_for_is_left_out() {
    let results = vec![
        StageResult::Killed { count: 3, failures: vec![] },
        StageResult::DnsFlushed { done: true },
    ];
    let report = run(&options(false, false, false, true), results);
    assert_eq!(report.killed_count, 0);
    assert!(report.dns_flushed);
}

#[test]
fn temp_failures_add_up() {
    let mut report = KillWipeReport::new();
    report.enter(StageResult::TempCleared { failures: strings(&["a"]) });
    report.enter(StageResult::TempCleared { failures: strings(&["b", "c"]) });
    assert_eq!(report.temp_failures, strings(&["a", "b", "c"]));
    report.enter(StageResult::Killed { count: 1, failures: strings(&["x"]) });
    report.enter(StageResult::Killed { count: 2, failures: vec![] });
    assert_eq!(report.killed_count, 2);
    assert!(report.kill_failures.is_empty());
    assert_eq!(StageResult::DnsFlushed { done: false }.stage(), Stage::FlushDns);
}

#[test]
fn csv_line_splits_outside_quotes() {
    assert_eq!(
        parse_csv_line("\"chrome.exe\",\"1234\",\"Console\",\"1\",\"10,000 K\""),
        strings(&["chrome.exe", "1234", "Console", "1", "10,000 K"])
    );
    assert_eq!(parse_csv_line(""), strings(&[""]));
    assert_eq!(parse_csv_line("a,b"), strings(&["a", "b"]));
    assert_eq!(parse_csv_line("a,,b,"), strings(&["a", "", "b", ""]));
    assert_eq!(parse_csv_line("\"a,b"), strings(&["a,b"]));
    assert_eq!(parse_csv_line("a\"b\"c"), strings(&["abc"]));
}

#[test]
fn current_user_matches_plain_or_qualified_name() {
    assert!(is_current_user("alice", "alice"));
    assert!(is_current_user("desktop-1\\alice", "alice"));
    assert!(is_current_user("DESKTOP\\Alice", "alice"));
    assert!(is_current_user("a\\b\\alice", "alice"));
    assert!(!is_current_user("Alice", "alice"));
    assert!(!is_current_user("desktop\\bob", "alice"));
    assert!(!is_current_user("", "alice"));
    assert!(!is_current_user("alice", ""));
    assert!(!is_current_user("desktop\\", "alice"));
    assert!(!is_current_user("alicex", "alice"));
}

#[test]
fn system_accounts_are_recognised_in_any_case() {
    assert!(is_system_user("SYSTEM"));
    assert!(is_system_user("system"));
    assert!(is_system_user("Local Service"));
    assert!(is_system_user("NETWORK SERVICE"));
    assert!(!is_system_user("nt authority\\system"));
    assert!(!is_system_user("alice"));
    assert!(!is_system_user(""));
}

#[test]
fn critical_processes_are_the_seventeen() {
    let names = critical_processes();
    assert_eq!(names.len(), 17);
    assert_eq!(names[0], "system");
    assert_eq!(names[16], "ctfmon.exe");
    assert!(names.contains(&"svchost.exe".to_string()));
    assert!(names.contains(&"system idle process".to_string()));
    assert!(!names.contains(&"chrome.exe".to_string()));
}

#[test]
fn single_quotes_are_doubled() {
    assert_eq!(escape_ps_string("C:\\Users\\O'Brien\\Desktop"), "C:\\Users\\O''Brien\\Desktop");
    assert_eq!(escape_ps_string("''"), "''''");
    assert_eq!(escape_ps_string(""), "");
    assert_eq!(escape_ps_string("plain"), "plain");
}

fn line(image: &str, user: &str) -> String {
    format!("\"{}\",\"10\",\"Console\",\"1\",\"5,000 K\",\"Running\",\"{}\",\"0:00:01\",\"N/A\"", image, user)
}

#[test]
fn kill_target_passes_over_what_must_stay() {
    assert_eq!(
        kill_target(&line("Chrome.exe", "PC\\Alice"), "workswitch.exe", "alice"),
        Some("chrome.exe".to_string())
    );
    assert_eq!(kill_target(&line("WorkSwitch.exe", "PC\\Alice"), "workswitch.exe", "alice"), None);
    assert_eq!(kill_target(&line("svchost.exe", "PC\\Alice"), "workswitch.exe", "alice"), None);
    assert_eq!(kill_target(&line("thing.exe", "SYSTEM"), "workswitch.exe", "system"), None);
    assert_eq!(kill_target(&line("thing.exe", "PC\\Bob"), "workswitch.exe", "alice"), None);
    assert_eq!(kill_target(&line("", "PC\\Alice"), "workswitch.exe", "alice"), None);
    assert_eq!(kill_target("\"a.exe\",\"1\"", "workswitch.exe", "alice"), None);
    assert_eq!(
        kill_target(&line("  Spaced.exe ", " PC\\Alice "), "workswitch.exe", "alice"),
        Some("spaced.exe".to_string())
    );
}

#[test]
fn kill_targets_name_each_image_once() {
    let lines = vec![
        line("chrome.exe", "PC\\alice"),
        line("notepad.exe", "PC\\alice"),
        line("CHROME.EXE", "PC\\alice"),
        line("lsass.exe", "PC\\alice"),
        "garbage".to_string(),
        line("code.exe", "PC\\bob"),
    ];
    assert_eq!(
        kill_targets(&lines, "workswitch.exe", "alice"),
        strings(&["chrome.exe", "notepad.exe"])
    );
    assert_eq!(kill_targets(&vec![], "workswitch.exe", "alice"), Vec::<String>::new());
}
