use workswitch::process::{
    get_running_processes, names_to_try, pkill_failure, running_among, strip_exe, taskkill_failure,
    tasklist_filter, tasklist_shows,
};
use workswitch::spawn::Platform;

fn strings(items: &[&str]) -> Vec<String> {
    items.iter().map(|s| s.to_string()).collect()
}

#[test]
fn tasklist_output_gives_lower_case_names_once() {
    let out = "\"System Idle Process\",\"0\",\"Services\",\"0\",\"8 K\"\r\n\"Chrome.exe\",\"100\",\"Console\",\"1\",\"10,000 K\"\r\n\"chrome.exe\",\"101\",\"Console\",\"1\",\"9,000 K\"\r\n\"\",\"1\"\r\nnotepad.exe\r\n";
    assert_eq!(
        get_running_processes(out, Platform::Windows),
        strings(&["system idle process", "chrome.exe", "notepad.exe"])
    );
    assert!(get_running_processes("", Platform::Windows).is_empty());
}

#[test]
fn ps_output_gives_base_names_without_the_header() {
    let out = "COMMAND\nsystemd\n/usr/lib/firefox/firefox\n  Xorg  \n\nfirefox\n/usr/bin/Code\n";
    for platform in [Platform::Linux, Platform::MacOs] {
        assert_eq!(
            get_running_processes(out, platform),
            strings(&["systemd", "firefox", "xorg", "code"])
        );
    }
    assert!(get_running_processes("", Platform::Linux).is_empty());
    assert!(get_running_processes("COMMAND\n", Platform::Linux).is_empty());
    // a name that is no path with a file name stays as it is
    assert_eq!(get_running_processes("C\n..\n", Platform::Linux), strings(&[".."]));
}

#[test]
fn tasklist_answer_shows_the_process_or_says_none() {
    assert!(tasklist_shows("\"Chrome.exe\",\"100\",\"Console\",\"1\",\"10 K\"\r\n", "chrome.exe"));
    assert!(!tasklist_shows("INFO: No tasks are running which match the specified criteria.\r\n", "chrome.exe"));
    assert!(!tasklist_shows("\"other.exe\",\"1\"", "chrome.exe"));
    assert!(!tasklist_shows("chrome.exe No tasks are running", "chrome.exe"));
    assert!(tasklist_shows("anything", ""));
    assert_eq!(tasklist_filter("chrome.exe"), "IMAGENAME eq chrome.exe");
}

#[test]
fn exe_ending_is_taken_off_for_the_second_try() {
    assert_eq!(strip_exe("firefox.exe"), Some("firefox".to_string()));
    assert_eq!(strip_exe(".exe"), Some(String::new()));
    assert_eq!(strip_exe("firefox"), None);
    assert_eq!(strip_exe("firefox.EXE"), None);
    assert_eq!(strip_exe("a.exe.bak"), None);
    assert_eq!(strip_exe(""), None);
}

#[test]
fn kill_failures_are_worded() {
    assert_eq!(pkill_failure("firefox"), "pkill failed for 'firefox'");
    assert_eq!(taskkill_failure("  ERROR: not found.\r\n"), "taskkill failed: ERROR: not found.");
    assert_eq!(taskkill_failure(""), "taskkill failed: ");
}

#[test]
fn running_step_processes_are_found_up_to_case() {
    let running = strings(&["chrome.exe", "code.exe"]);
    assert_eq!(
        running_among(&strings(&["Chrome.exe", "slack.exe", "CODE.EXE", "chrome.exe"]), &running),
        strings(&["Chrome.exe", "CODE.EXE", "chrome.exe"])
    );
    assert!(running_among(&vec![], &running).is_empty());
    assert!(running_among(&strings(&["a"]), &vec![]).is_empty());
}

#[test]
fn names_to_try_are_the_name_and_its_short_form() {
    assert_eq!(names_to_try("firefox.exe"), strings(&["firefox.exe", "firefox"]));
    assert_eq!(names_to_try("firefox"), strings(&["firefox"]));
    assert_eq!(names_to_try(""), strings(&[""]));
}
