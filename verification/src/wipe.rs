//! What kill-and-wipe removes and how it reports: the files of the browsers,
//! the lines of its failures, and the script that puts its shortcut on the
//! desktop.
//!
//! Deleting the files and running the script is the caller's part.

use vstd::prelude::*;
use vstd::string::*;
use crate::kill_wipe::{escape_ps_string, quotes_doubled};
use crate::text::{
    chars_of, decimal, extend, has_prefix, same_text, starts_with, string_of, texts,
    to_decimal,
};

verus! {

/// The paths of a list of lists of strings.
pub open spec fn paths(list: Seq<Vec<String>>) -> Seq<Seq<Seq<char>>> {
    Seq::new(list.len(), |i: int| texts(list[i]@))
}

/// What is removed from a profile of a Chromium browser: caches, history
/// and cookies, each as the components of its path below the profile.
pub open spec fn chromium_items() -> Seq<Seq<Seq<char>>> {
    seq![
        seq!["Cache"@],
        seq!["Code Cache"@],
        seq!["GPUCache"@],
        seq!["History"@],
        seq!["History-wal"@],
        seq!["History-journal"@],
        seq!["Cookies"@],
        seq!["Cookies-wal"@],
        seq!["Cookies-journal"@],
        seq!["Network"@, "Cookies"@],
        seq!["Network"@, "Cookies-wal"@],
        seq!["Network"@, "Cookies-journal"@],
        seq!["Service Worker"@, "CacheStorage"@],
    ]
}

/// What is removed from a profile of Firefox: the cache, the cookies and
/// the history.
pub open spec fn firefox_items() -> Seq<Seq<Seq<char>>> {
    seq![
        seq!["cache2"@],
        seq!["cookies.sqlite"@],
        seq!["cookies.sqlite-wal"@],
        seq!["cookies.sqlite-shm"@],
        seq!["places.sqlite"@],
        seq!["places.sqlite-wal"@],
        seq!["places.sqlite-shm"@],
    ]
}

fn single(name: &str) -> (path: Vec<String>)
    ensures
        texts(path@) == seq![name@],
{
    let mut path: Vec<String> = Vec::new();
    path.push(name.to_string());
    path
}

fn nested(outer: &str, inner: &str) -> (path: Vec<String>)
    ensures
        texts(path@) == seq![outer@, inner@],
{
    let mut path: Vec<String> = Vec::new();
    path.push(outer.to_string());
    path.push(inner.to_string());
    path
}

/// What is removed from each profile of a Chromium browser, as path
/// components below the profile directory.
pub fn clear_chromium_profiles() -> (items: Vec<Vec<String>>)
    ensures
        paths(items@) == chromium_items(),
{
    let mut items: Vec<Vec<String>> = Vec::new();
    items.push(single("Cache"));
    items.push(single("Code Cache"));
    items.push(single("GPUCache"));
    items.push(single("History"));
    items.push(single("History-wal"));
    items.push(single("History-journal"));
    items.push(single("Cookies"));
    items.push(single("Cookies-wal"));
    items.push(single("Cookies-journal"));
    items.push(nested("Network", "Cookies"));
    items.push(nested("Network", "Cookies-wal"));
    items.push(nested("Network", "Cookies-journal"));
    items.push(nested("Service Worker", "CacheStorage"));
    items
}

/// What is removed from each profile of Firefox, as path components below
/// the profile directory.
pub fn clear_firefox_profiles() -> (items: Vec<Vec<String>>)
    ensures
        paths(items@) == firefox_items(),
{
    let mut items: Vec<Vec<String>> = Vec::new();
    items.push(single("cache2"));
    items.push(single("cookies.sqlite"));
    items.push(single("cookies.sqlite-wal"));
    items.push(single("cookies.sqlite-shm"));
    items.push(single("places.sqlite"));
    items.push(single("places.sqlite-wal"));
    items.push(single("places.sqlite-shm"));
    items
}

/// Whether a directory below the user data of a Chromium browser is a
/// profile: `Default`, or a name that begins with `Profile `.
pub fn is_profile_dir(name: &str) -> (yes: bool)
    ensures
        yes == (name@ == "Default"@ || has_prefix(name@, "Profile "@)),
{
    same_text(name, "Default") || starts_with(&chars_of(name), &chars_of("Profile "))
}

/// One line of a report: the subject, a colon and what went wrong.
pub open spec fn failure_line(subject: Seq<char>, reason: Seq<char>) -> Seq<char> {
    subject + ": "@ + reason
}

/// The lines for a list of reasons under one subject.
pub open spec fn failure_lines(subject: Seq<char>, reasons: Seq<Seq<char>>) -> Seq<Seq<char>> {
    Seq::new(reasons.len(), |i: int| failure_line(subject, reasons[i]))
}

/// One line of a report: the subject, a colon and what went wrong.
pub fn failure(subject: &str, reason: &str) -> (line: String)
    ensures
        line@ == failure_line(subject@, reason@),
{
    let mut line = subject.to_string();
    line.append(": ");
    line.append(reason);
    line
}

/// The lines of a report for a list of reasons under one subject, such as
/// the failures of one browser.
pub fn failures_of(subject: &str, reasons: &Vec<String>) -> (lines: Vec<String>)
    ensures
        texts(lines@) == failure_lines(subject@, texts(reasons@)),
{
    let mut lines: Vec<String> = Vec::new();
    let mut i: usize = 0;
    while i < reasons.len()
        invariant
            i <= reasons.len(),
            lines@.len() == i,
            forall|k: int|
                0 <= k < i ==> (#[trigger] lines@[k])@ == failure_line(subject@, reasons@[k]@),
        decreases reasons.len() - i,
    {
        lines.push(failure(subject, reasons[i].as_str()));
        i = i + 1;
    }
    lines
}

/// What is reported of a folder in which `count` entries could not be
/// deleted.
pub fn undeleted(count: usize) -> (text: String)
    ensures
        text@ == "Failed to delete "@ + decimal(count as nat) + " items"@,
{
    let mut text = chars_of("Failed to delete ");
    extend(&mut text, &to_decimal(count));
    extend(&mut text, &chars_of(" items"));
    string_of(&text)
}

/// How one attempt to kill a process ended.
#[derive(Clone, Debug, PartialEq, Eq)]
pub struct KillAttempt {
    pub image: String,
    /// `None` if the process was killed, else what the tool said.
    pub error: Option<String>,
}

pub struct KillAttemptView {
    pub image: Seq<char>,
    pub error: Option<Seq<char>>,
}

impl View for KillAttempt {
    type V = KillAttemptView;

    open spec fn view(&self) -> KillAttemptView {
        KillAttemptView { image: self.image@, error: crate::config::text_of(self.error) }
    }
}

/// The views of a sequence of attempts, position by position.
pub open spec fn attempt_views(list: Seq<KillAttempt>) -> Seq<KillAttemptView> {
    Seq::new(list.len(), |i: int| list[i]@)
}

/// Number of attempts that killed their process.
pub open spec fn killed(attempts: Seq<KillAttemptView>) -> nat
    decreases attempts.len(),
{
    if attempts.len() == 0 {
        0
    } else {
        killed(attempts.drop_last()) + if attempts.last().error is None {
            1nat
        } else {
            0nat
        }
    }
}

/// The lines for the attempts that failed, in order.
pub open spec fn kill_failures(attempts: Seq<KillAttemptView>) -> Seq<Seq<char>>
    decreases attempts.len(),
{
    if attempts.len() == 0 {
        seq![]
    } else {
        let earlier = kill_failures(attempts.drop_last());
        match attempts.last().error {
            Some(reason) => earlier.push(failure_line(attempts.last().image, reason)),
            None => earlier,
        }
    }
}

proof fn killed_at_most(attempts: Seq<KillAttemptView>)
    ensures
        killed(attempts) <= attempts.len(),
    decreases attempts.len(),
{
    if attempts.len() > 0 {
        killed_at_most(attempts.drop_last());
    }
}

/// The outcome of the kill stage: how many processes were killed, and a
/// line for each that could not be.
pub fn kill_user_processes(attempts: &Vec<KillAttempt>) -> (result: crate::kill_wipe::StageResult)
    ensures
        result@ == (crate::kill_wipe::StageResultView::Killed {
            count: killed(attempt_views(attempts@)),
            failures: kill_failures(attempt_views(attempts@)),
        }),
{
    let ghost all = attempt_views(attempts@);
    let mut count: usize = 0;
    let mut failures: Vec<String> = Vec::new();
    let mut i: usize = 0;
    while i < attempts.len()
        invariant
            i <= attempts.len(),
            all == attempt_views(attempts@),
            count == killed(all.take(i as int)),
            texts(failures@) == kill_failures(all.take(i as int)),
        decreases attempts.len() - i,
    {
        assert(all.take(i + 1).drop_last() =~= all.take(i as int));
        proof {
            killed_at_most(all.take(i as int));
        }
        match &attempts[i].error {
            Some(reason) => {
                let line = failure(attempts[i].image.as_str(), reason.as_str());
                failures.push(line);
            },
            None => {
                count = count + 1;
            },
        }
        i = i + 1;
    }
    assert(all.take(attempts@.len() as int) =~= all);
    crate::kill_wipe::StageResult::Killed { count, failures }
}

/// The argument that the shortcut passes to the program.
pub open spec fn shortcut_argument(immediate: bool) -> Seq<char> {
    if immediate {
        "--kill-and-wipe-immediate"@
    } else {
        "--kill-and-wipe"@
    }
}

/// The PowerShell command that creates the shortcut. Every path stands
/// between single quotes, with the single quotes in it doubled.
pub open spec fn shortcut_command(
    shortcut: Seq<char>,
    exe: Seq<char>,
    immediate: bool,
    working_dir: Seq<char>,
) -> Seq<char> {
    "$WshShell = New-Object -ComObject WScript.Shell; $Shortcut = $WshShell.CreateShortcut('"@
        + quotes_doubled(shortcut) + "'); $Shortcut.TargetPath = '"@ + quotes_doubled(exe)
        + "'; $Shortcut.Arguments = '"@ + shortcut_argument(immediate)
        + "'; $Shortcut.WorkingDirectory = '"@ + quotes_doubled(working_dir)
        + "'; $Shortcut.IconLocation = '"@ + quotes_doubled(exe) + "'; $Shortcut.Save();"@
}

/// The name of the shortcut file on the desktop.
pub fn shortcut_file_name() -> (name: &'static str)
    ensures
        name@ == "WorkSwitch Kill & Wipe.lnk"@,
{
    "WorkSwitch Kill & Wipe.lnk"
}

/// The PowerShell command that puts a shortcut to the program on the
/// desktop. `shortcut` is the path of the shortcut file, `exe` that of the
/// program and `working_dir` the directory of the program.
pub fn create_desktop_shortcut(shortcut: &str, exe: &str, immediate: bool, working_dir: &str) -> (script:
    String)
    ensures
        script@ == shortcut_command(shortcut@, exe@, immediate, working_dir@),
{
    let mut script =
        "$WshShell = New-Object -ComObject WScript.Shell; $Shortcut = $WshShell.CreateShortcut('".to_string();
    script.append(escape_ps_string(shortcut).as_str());
    script.append("'); $Shortcut.TargetPath = '");
    script.append(escape_ps_string(exe).as_str());
    script.append("'; $Shortcut.Arguments = '");
    script.append(
        if immediate {
            "--kill-and-wipe-immediate"
        } else {
            "--kill-and-wipe"
        },
    );
    script.append("'; $Shortcut.WorkingDirectory = '");
    script.append(escape_ps_string(working_dir).as_str());
    script.append("'; $Shortcut.IconLocation = '");
    script.append(escape_ps_string(exe).as_str());
    script.append("'; $Shortcut.Save();");
    script
}

} // verus!
