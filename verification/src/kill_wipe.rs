//! Kill-and-wipe: which stages a request asks for, what the report says once
//! they have run, and the rules by which running processes are chosen for
//! killing.
//!
//! Listing and killing processes, deleting files and flushing the resolver
//! cache are the caller's part. It runs the stages that `stages` names and
//! hands what each of them returned to `run`.

use vstd::prelude::*;
use crate::text::{
    chars_of, eq_ignore_ascii_case, lower, lowercase, rfind_char, rfind_char_before, same_chars, same_ignoring_ascii_case, slice, string_of, texts, to_lowercase, trim, trimmed,
};

verus! {

/// What a kill-and-wipe request asks for.
#[derive(Clone, Copy, Debug, PartialEq, Eq, Structural)]
pub struct KillWipeOptions {
    pub kill_processes: bool,
    pub clear_temp: bool,
    pub clear_browsers: bool,
    pub flush_dns: bool,
    /// Log the user out afterwards. No stage of the run itself.
    pub logout: bool,
}

/// What a kill-and-wipe run did.
#[derive(Clone, Debug, PartialEq, Eq)]
pub struct KillWipeReport {
    pub killed_count: usize,
    pub kill_failures: Vec<String>,
    pub temp_failures: Vec<String>,
    pub browser_cleared: Vec<String>,
    pub browser_failures: Vec<String>,
    pub dns_flushed: bool,
}

/// One stage of a run.
#[derive(Clone, Copy, Debug, PartialEq, Eq, Structural)]
pub enum Stage {
    KillProcesses,
    ClearTemp,
    ClearBrowsers,
    FlushDns,
}

/// What one stage returned.
#[derive(Clone, Debug, PartialEq, Eq)]
pub enum StageResult {
    /// Processes killed, and a line for each that could not be.
    Killed { count: usize, failures: Vec<String> },
    /// A line for each temporary folder that could not be emptied.
    TempCleared { failures: Vec<String> },
    /// The browsers whose data was found, and a line for each path that
    /// could not be removed.
    BrowsersCleared { cleared: Vec<String>, failures: Vec<String> },
    /// Whether the resolver cache was flushed.
    DnsFlushed { done: bool },
}

pub struct KillWipeReportView {
    pub killed_count: nat,
    pub kill_failures: Seq<Seq<char>>,
    pub temp_failures: Seq<Seq<char>>,
    pub browser_cleared: Seq<Seq<char>>,
    pub browser_failures: Seq<Seq<char>>,
    pub dns_flushed: bool,
}

pub enum StageResultView {
    Killed { count: nat, failures: Seq<Seq<char>> },
    TempCleared { failures: Seq<Seq<char>> },
    BrowsersCleared { cleared: Seq<Seq<char>>, failures: Seq<Seq<char>> },
    DnsFlushed { done: bool },
}

impl View for KillWipeReport {
    type V = KillWipeReportView;

    open spec fn view(&self) -> KillWipeReportView {
        KillWipeReportView {
            killed_count: self.killed_count as nat,
            kill_failures: texts(self.kill_failures@),
            temp_failures: texts(self.temp_failures@),
            browser_cleared: texts(self.browser_cleared@),
            browser_failures: texts(self.browser_failures@),
            dns_flushed: self.dns_flushed,
        }
    }
}

impl View for StageResult {
    type V = StageResultView;

    open spec fn view(&self) -> StageResultView {
        match *self {
            StageResult::Killed { count, failures } => StageResultView::Killed {
                count: count as nat,
                failures: texts(failures@),
            },
            StageResult::TempCleared { failures } => StageResultView::TempCleared {
                failures: texts(failures@),
            },
            StageResult::BrowsersCleared { cleared, failures } => StageResultView::BrowsersCleared {
                cleared: texts(cleared@),
                failures: texts(failures@),
            },
            StageResult::DnsFlushed { done } => StageResultView::DnsFlushed { done },
        }
    }
}

/// The views of a sequence of stage results, position by position.
pub open spec fn result_views(results: Seq<StageResult>) -> Seq<StageResultView> {
    Seq::new(results.len(), |i: int| results[i]@)
}

/// The stage that a result belongs to.
pub open spec fn stage_of(result: StageResultView) -> Stage {
    match result {
        StageResultView::Killed { .. } => Stage::KillProcesses,
        StageResultView::TempCleared { .. } => Stage::ClearTemp,
        StageResultView::BrowsersCleared { .. } => Stage::ClearBrowsers,
        StageResultView::DnsFlushed { .. } => Stage::FlushDns,
    }
}

/// Whether the options ask for a stage.
pub open spec fn asks_for(options: KillWipeOptions, stage: Stage) -> bool {
    match stage {
        Stage::KillProcesses => options.kill_processes,
        Stage::ClearTemp => options.clear_temp,
        Stage::ClearBrowsers => options.clear_browsers,
        Stage::FlushDns => options.flush_dns,
    }
}

/// The stages that the options ask for, in the order in which they run.
pub open spec fn stages_of(options: KillWipeOptions) -> Seq<Stage> {
    (if options.kill_processes {
        seq![Stage::KillProcesses]
    } else {
        seq![]
    }) + (if options.clear_temp {
        seq![Stage::ClearTemp]
    } else {
        seq![]
    }) + (if options.clear_browsers {
        seq![Stage::ClearBrowsers]
    } else {
        seq![]
    }) + (if options.flush_dns {
        seq![Stage::FlushDns]
    } else {
        seq![]
    })
}

/// The report before any stage has run.
pub open spec fn blank_report() -> KillWipeReportView {
    KillWipeReportView {
        killed_count: 0,
        kill_failures: seq![],
        temp_failures: seq![],
        browser_cleared: seq![],
        browser_failures: seq![],
        dns_flushed: false,
    }
}

/// The report with the result of one stage entered. Failures of the
/// temporary folders add up; everything else is replaced.
pub open spec fn entered(report: KillWipeReportView, result: StageResultView) -> KillWipeReportView {
    match result {
        StageResultView::Killed { count, failures } => KillWipeReportView {
            killed_count: count,
            kill_failures: failures,
            ..report
        },
        StageResultView::TempCleared { failures } => KillWipeReportView {
            temp_failures: report.temp_failures + failures,
            ..report
        },
        StageResultView::BrowsersCleared { cleared, failures } => KillWipeReportView {
            browser_cleared: cleared,
            browser_failures: failures,
            ..report
        },
        StageResultView::DnsFlushed { done } => KillWipeReportView { dns_flushed: done, ..report },
    }
}

/// The report of a run with these options in which the stages returned
/// `results`. The result of a stage that the options do not ask for is left
/// out.
pub open spec fn report_of(options: KillWipeOptions, results: Seq<StageResultView>) -> KillWipeReportView
    decreases results.len(),
{
    if results.len() == 0 {
        blank_report()
    } else {
        let earlier = report_of(options, results.drop_last());
        if asks_for(options, stage_of(results.last())) {
            entered(earlier, results.last())
        } else {
            earlier
        }
    }
}

/// The stages to run for these options, in order.
pub fn stages(options: &KillWipeOptions) -> (list: Vec<Stage>)
    ensures
        list@ == stages_of(*options),
{
    let mut list: Vec<Stage> = Vec::new();
    if options.kill_processes {
        list.push(Stage::KillProcesses);
    }
    if options.clear_temp {
        list.push(Stage::ClearTemp);
    }
    if options.clear_browsers {
        list.push(Stage::ClearBrowsers);
    }
    if options.flush_dns {
        list.push(Stage::FlushDns);
    }
    list
}

impl KillWipeReport {
    /// The report before any stage has run.
    pub fn new() -> (report: KillWipeReport)
        ensures
            report@ == blank_report(),
    {
        let report = KillWipeReport {
            killed_count: 0,
            kill_failures: Vec::new(),
            temp_failures: Vec::new(),
            browser_cleared: Vec::new(),
            browser_failures: Vec::new(),
            dns_flushed: false,
        };
        assert(texts(report.kill_failures@) =~= Seq::<Seq<char>>::empty());
        report
    }

    /// Enters the result of one stage.
    pub fn enter(&mut self, result: StageResult)
        ensures
            final(self)@ == entered(old(self)@, result@),
    {
        match result {
            StageResult::Killed { count, failures } => {
                self.killed_count = count;
                self.kill_failures = failures;
            },
            StageResult::TempCleared { failures } => {
                let ghost before = self.temp_failures@;
                let mut failures = failures;
                let ghost added = failures@;
                self.temp_failures.append(&mut failures);
                assert(texts(self.temp_failures@) =~= texts(before) + texts(added));
            },
            StageResult::BrowsersCleared { cleared, failures } => {
                self.browser_cleared = cleared;
                self.browser_failures = failures;
            },
            StageResult::DnsFlushed { done } => {
                self.dns_flushed = done;
            },
        }
    }
}

impl StageResult {
    /// The stage that this result belongs to.
    pub fn stage(&self) -> (stage: Stage)
        ensures
            stage == stage_of(self@),
    {
        match self {
            StageResult::Killed { .. } => Stage::KillProcesses,
            StageResult::TempCleared { .. } => Stage::ClearTemp,
            StageResult::BrowsersCleared { .. } => Stage::ClearBrowsers,
            StageResult::DnsFlushed { .. } => Stage::FlushDns,
        }
    }
}

/// Whether the options ask for a stage.
pub fn wants(options: &KillWipeOptions, stage: Stage) -> (yes: bool)
    ensures
        yes == asks_for(*options, stage),
{
    match stage {
        Stage::KillProcesses => options.kill_processes,
        Stage::ClearTemp => options.clear_temp,
        Stage::ClearBrowsers => options.clear_browsers,
        Stage::FlushDns => options.flush_dns,
    }
}

/// The report of a run with these options, from what its stages returned,
/// in the order in which they ran.
pub fn run(options: &KillWipeOptions, results: Vec<StageResult>) -> (report: KillWipeReport)
    ensures
        report@ == report_of(*options, result_views(results@)),
{
    let ghost all = result_views(results@);
    let mut report = KillWipeReport::new();
    let mut results = results;
    let total = results.len();
    let mut i: usize = 0;
    while i < total
        invariant
            i <= total,
            total == all.len(),
            results@.len() == total - i,
            forall|k: int| 0 <= k < results@.len() ==> (#[trigger] results@[k])@ == all[i + k],
            report@ == report_of(*options, all.take(i as int)),
        decreases total - i,
    {
        let result = results.remove(0);
        assert(all.take(i + 1).drop_last() =~= all.take(i as int));
        if wants(options, result.stage()) {
            report.enter(result);
        }
        i = i + 1;
    }
    assert(all.take(total as int) =~= all);
    report
}

/// Where a scan of one line of comma-separated values stands.
pub struct CsvScan {
    /// The fields that a comma has closed.
    pub fields: Seq<Seq<char>>,
    /// The field being read.
    pub current: Seq<char>,
    /// Whether the scan is inside double quotes.
    pub in_quotes: bool,
}

/// The scan after the characters of `line`: a double quote switches
/// quoting on or off and is dropped; a comma outside quotes closes the
/// field; any other character joins the field.
pub open spec fn csv_scan(line: Seq<char>) -> CsvScan
    decreases line.len(),
{
    if line.len() == 0 {
        CsvScan { fields: seq![], current: seq![], in_quotes: false }
    } else {
        let before = csv_scan(line.drop_last());
        let c = line.last();
        if c == '"' {
            CsvScan { in_quotes: !before.in_quotes, ..before }
        } else if c == ',' && !before.in_quotes {
            CsvScan {
                fields: before.fields.push(before.current),
                current: seq![],
                in_quotes: before.in_quotes,
            }
        } else {
            CsvScan { current: before.current.push(c), ..before }
        }
    }
}

/// The fields of one line of comma-separated values.
pub open spec fn csv_fields(line: Seq<char>) -> Seq<Seq<char>> {
    csv_scan(line).fields.push(csv_scan(line).current)
}

/// Splits one line of comma-separated values into its fields. Commas inside
/// double quotes do not split; the quotes themselves are dropped. There is
/// always at least one field.
pub fn parse_csv_line(line: &str) -> (fields: Vec<String>)
    ensures
        texts(fields@) == csv_fields(line@),
{
    let chars = chars_of(line);
    let mut fields: Vec<String> = Vec::new();
    let mut current: Vec<char> = Vec::new();
    let mut in_quotes = false;
    let mut i: usize = 0;
    while i < chars.len()
        invariant
            i <= chars.len(),
            chars@ == line@,
            texts(fields@) == csv_scan(chars@.take(i as int)).fields,
            current@ == csv_scan(chars@.take(i as int)).current,
            in_quotes == csv_scan(chars@.take(i as int)).in_quotes,
        decreases chars.len() - i,
    {
        let ch = chars[i];
        assert(chars@.take(i + 1).drop_last() =~= chars@.take(i as int));
        if ch == '"' {
            in_quotes = !in_quotes;
        } else if ch == ',' && !in_quotes {
            fields.push(string_of(&current));
            current = Vec::new();
        } else {
            current.push(ch);
        }
        i = i + 1;
    }
    assert(chars@.take(chars@.len() as int) =~= chars@);
    fields.push(string_of(&current));
    fields
}

/// No field of a line holds a double quote.
pub proof fn fields_hold_no_quote(line: Seq<char>, field: int, at: int)
    requires
        0 <= field < csv_fields(line).len(),
        0 <= at < csv_fields(line)[field].len(),
    ensures
        csv_fields(line)[field][at] != '"',
{
    scan_holds_no_quote(line);
}

proof fn scan_holds_no_quote(line: Seq<char>)
    ensures
        forall|k: int| 0 <= k < csv_scan(line).current.len() ==> csv_scan(line).current[k] != '"',
        forall|f: int, k: int|
            0 <= f < csv_scan(line).fields.len() && 0 <= k < csv_scan(line).fields[f].len()
                ==> csv_scan(line).fields[f][k] != '"',
    decreases line.len(),
{
    if line.len() > 0 {
        scan_holds_no_quote(line.drop_last());
        let before = csv_scan(line.drop_last());
        let after = csv_scan(line);
        assert forall|k: int| 0 <= k < after.current.len() implies after.current[k] != '"' by {
            if k < before.current.len() {
                assert(before.current[k] != '"');
            }
        }
        assert forall|f: int, k: int|
            0 <= f < after.fields.len() && 0 <= k < after.fields[f].len() implies after.fields[f][k]
            != '"' by {
            if f < before.fields.len() {
                assert(before.fields[f][k] != '"');
            } else {
                assert(before.current[k] != '"');
            }
        }
    }
}

/// Whether the owner of a process, as the process list names it, is the
/// current user: the two names are the same, or the owner is qualified by a
/// domain or machine (`DOMAIN\name`) and what follows the last backslash is
/// the current user's name up to the case of ASCII letters. An empty name
/// on either side is nobody.
pub open spec fn is_current_user_spec(user: Seq<char>, current: Seq<char>) -> bool {
    &&& user.len() > 0
    &&& current.len() > 0
    &&& (user == current || match rfind_char_before(user, '\\', user.len() as int) {
        Some(at) => same_ignoring_ascii_case(user.subrange(at + 1, user.len() as int), current),
        None => false,
    })
}

/// Whether the owner of a process is the current user.
pub fn is_current_user(user: &str, current: &str) -> (yes: bool)
    ensures
        yes == is_current_user_spec(user@, current@),
{
    let user = chars_of(user);
    let current = chars_of(current);
    if current.len() == 0 || user.len() == 0 {
        return false;
    }
    if same_chars(&user, &current) {
        return true;
    }
    proof {
        crate::text::rfound_char_bounds(user@, '\\', user@.len() as int);
    }
    match rfind_char(&user, '\\') {
        Some(at) => {
            let name = slice(&user, at + 1, user.len());
            eq_ignore_ascii_case(&name, &current)
        },
        None => false,
    }
}

/// Whether a lower-cased owner name is one of the accounts of the system
/// itself.
pub open spec fn names_system_account(lower: Seq<char>) -> bool {
    lower == "system"@ || lower == "local service"@ || lower == "network service"@
}

/// Whether the owner of a process is an account of the system itself,
/// whatever the case of its letters.
pub fn is_system_user(user: &str) -> (yes: bool)
    ensures
        yes == names_system_account(lowercase(user@)),
{
    let u = to_lowercase(user);
    crate::text::same_text(u.as_str(), "system") || crate::text::same_text(
        u.as_str(),
        "local service",
    ) || crate::text::same_text(u.as_str(), "network service")
}

/// The image names of the processes that are never killed, in lower case.
pub open spec fn critical_names() -> Seq<Seq<char>> {
    seq![
        "system"@,
        "system idle process"@,
        "smss.exe"@,
        "csrss.exe"@,
        "wininit.exe"@,
        "winlogon.exe"@,
        "services.exe"@,
        "lsass.exe"@,
        "lsm.exe"@,
        "svchost.exe"@,
        "fontdrvhost.exe"@,
        "dwm.exe"@,
        "registry"@,
        "memcompression"@,
        "securityhealthservice.exe"@,
        "sihost.exe"@,
        "ctfmon.exe"@,
    ]
}

/// The image names of the processes that are never killed, in lower case.
pub fn critical_processes() -> (names: Vec<String>)
    ensures
        texts(names@) == critical_names(),
{
    let mut names: Vec<String> = Vec::new();
    names.push("system".to_string());
    names.push("system idle process".to_string());
    names.push("smss.exe".to_string());
    names.push("csrss.exe".to_string());
    names.push("wininit.exe".to_string());
    names.push("winlogon.exe".to_string());
    names.push("services.exe".to_string());
    names.push("lsass.exe".to_string());
    names.push("lsm.exe".to_string());
    names.push("svchost.exe".to_string());
    names.push("fontdrvhost.exe".to_string());
    names.push("dwm.exe".to_string());
    names.push("registry".to_string());
    names.push("memcompression".to_string());
    names.push("securityhealthservice.exe".to_string());
    names.push("sihost.exe".to_string());
    names.push("ctfmon.exe".to_string());
    names
}

/// Whether `name` is among `list`.
pub fn lists_text(list: &Vec<String>, name: &str) -> (found: bool)
    ensures
        found == texts(list@).contains(name@),
{
    let mut i: usize = 0;
    while i < list.len()
        invariant
            i <= list.len(),
            forall|k: int| 0 <= k < i ==> texts(list@)[k] != name@,
        decreases list.len() - i,
    {
        if crate::text::same_text(list[i].as_str(), name) {
            assert(texts(list@)[i as int] == name@);
            return true;
        }
        i = i + 1;
    }
    false
}

/// A text with every single quote doubled.
pub open spec fn quotes_doubled(text: Seq<char>) -> Seq<char>
    decreases text.len(),
{
    if text.len() == 0 {
        seq![]
    } else if text.last() == '\'' {
        quotes_doubled(text.drop_last()) + seq!['\'', '\'']
    } else {
        quotes_doubled(text.drop_last()).push(text.last())
    }
}

/// Makes a text safe to stand between single quotes in a PowerShell
/// command: every single quote is doubled.
pub fn escape_ps_string(input: &str) -> (escaped: String)
    ensures
        escaped@ == quotes_doubled(input@),
{
    let chars = chars_of(input);
    let mut out: Vec<char> = Vec::new();
    let mut i: usize = 0;
    while i < chars.len()
        invariant
            i <= chars.len(),
            chars@ == input@,
            out@ == quotes_doubled(chars@.take(i as int)),
        decreases chars.len() - i,
    {
        assert(chars@.take(i + 1).drop_last() =~= chars@.take(i as int));
        if chars[i] == '\'' {
            out.push('\'');
            out.push('\'');
        } else {
            out.push(chars[i]);
        }
        i = i + 1;
    }
    assert(chars@.take(chars@.len() as int) =~= chars@);
    string_of(&out)
}

/// The image name to kill for one line of the verbose process list, if the
/// line names a process to kill. The line must have at least seven fields;
/// the first is the image, the seventh the owner, both taken trimmed and in
/// lower case. The process is passed over if the image is empty, is this
/// program's own, or is critical, or if the owner is an account of the
/// system or is not the current user.
pub open spec fn kill_target_spec(
    line: Seq<char>,
    own_image: Seq<char>,
    current_user: Seq<char>,
) -> Option<Seq<char>> {
    let fields = csv_fields(line);
    if fields.len() < 7 {
        None
    } else {
        let image = lowercase(trimmed(fields[0]));
        let user = lowercase(trimmed(fields[6]));
        if image.len() == 0 || image == own_image || critical_names().contains(image)
            || names_system_account(lowercase(user)) || !is_current_user_spec(user, current_user) {
            None
        } else {
            Some(image)
        }
    }
}

/// The image name to kill for one line of the verbose process list, if the
/// line names a process to kill. `own_image` is this program's image name
/// and `current_user` the name of the user, both in lower case.
pub fn kill_target(line: &str, own_image: &str, current_user: &str) -> (target: Option<String>)
    ensures
        crate::config::text_of(target) == kill_target_spec(line@, own_image@, current_user@),
{
    let fields = parse_csv_line(line);
    if fields.len() < 7 {
        return None;
    }
    let image = string_of(&lower(&trim(&chars_of(fields[0].as_str()))));
    let user = string_of(&lower(&trim(&chars_of(fields[6].as_str()))));
    if image.as_str().is_empty() {
        return None;
    }
    if crate::text::same_text(image.as_str(), own_image) {
        return None;
    }
    let critical = critical_processes();
    if lists_text(&critical, image.as_str()) {
        return None;
    }
    if is_system_user(user.as_str()) {
        return None;
    }
    if !is_current_user(user.as_str(), current_user) {
        return None;
    }
    Some(image)
}

/// The targets of a list of lines: for each line that names a process to
/// kill its image name, each name once, in the order of first appearance.
pub open spec fn kill_targets_spec(
    lines: Seq<Seq<char>>,
    own_image: Seq<char>,
    current_user: Seq<char>,
) -> Seq<Seq<char>>
    decreases lines.len(),
{
    if lines.len() == 0 {
        seq![]
    } else {
        let earlier = kill_targets_spec(lines.drop_last(), own_image, current_user);
        match kill_target_spec(lines.last(), own_image, current_user) {
            Some(image) => if earlier.contains(image) {
                earlier
            } else {
                earlier.push(image)
            },
            None => earlier,
        }
    }
}

/// The image names to kill, given the lines of the verbose process list:
/// every process of the current user that is neither critical nor this
/// program itself, each image name once.
pub fn kill_targets(lines: &Vec<String>, own_image: &str, current_user: &str) -> (targets: Vec<
    String,
>)
    ensures
        texts(targets@) == kill_targets_spec(texts(lines@), own_image@, current_user@),
{
    let ghost all = texts(lines@);
    let mut targets: Vec<String> = Vec::new();
    let mut i: usize = 0;
    while i < lines.len()
        invariant
            i <= lines.len(),
            all == texts(lines@),
            texts(targets@) == kill_targets_spec(all.take(i as int), own_image@, current_user@),
        decreases lines.len() - i,
    {
        assert(all.take(i + 1).drop_last() =~= all.take(i as int));
        match kill_target(lines[i].as_str(), own_image, current_user) {
            Some(image) => {
                if !lists_text(&targets, image.as_str()) {
                    targets.push(image);
                }
            },
            None => {},
        }
        i = i + 1;
    }
    assert(all.take(lines@.len() as int) =~= all);
    targets
}

} // verus!
