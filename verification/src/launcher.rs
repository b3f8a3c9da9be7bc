//! What launching one step means: which action a step asks for, and on which
//! steps nothing can be launched at all.
//!
//! Starting the process is the caller's part. The functions here turn a
//! configured step into a `Launch` that names the action with everything it
//! needs, or into the error that the step is reported with.

use vstd::prelude::*;
use vstd::string::*;
use crate::config::{kind_of, Step, StepKind, StepView};
use crate::text::chars_of;

verus! {

/// The action that a step asks for.
#[derive(Clone, Debug, PartialEq, Eq)]
pub enum Launch {
    /// Start the application `target`, after variable expansion. If `probe`
    /// names a process and that process is running, nothing is started.
    App { target: String, probe: Option<String> },
    /// Run `command` in a new terminal window, in `working_dir` (after
    /// variable expansion) unless that is empty; `keep_open` leaves the
    /// window open when the command ends.
    Terminal { command: String, working_dir: String, keep_open: bool },
    /// Open the folder `target`, after variable expansion, in the file
    /// manager.
    Folder { target: String },
    /// Open `target`, as written, in the default browser.
    Url { target: String },
}

/// Why nothing can be launched for a step.
#[derive(Clone, Debug, PartialEq, Eq)]
pub enum LaunchError {
    /// The type tag is none of the four known ones.
    UnknownStepType(String),
    NoTarget,
    NoCommand,
    NoFolder,
    NoUrl,
}

pub enum LaunchView {
    App { target: Seq<char>, probe: Option<Seq<char>> },
    Terminal { command: Seq<char>, working_dir: Seq<char>, keep_open: bool },
    Folder { target: Seq<char> },
    Url { target: Seq<char> },
}

pub enum LaunchErrorView {
    UnknownStepType(Seq<char>),
    NoTarget,
    NoCommand,
    NoFolder,
    NoUrl,
}

impl View for Launch {
    type V = LaunchView;

    open spec fn view(&self) -> LaunchView {
        match *self {
            Launch::App { target, probe } => LaunchView::App {
                target: target@,
                probe: crate::config::text_of(probe),
            },
            Launch::Terminal { command, working_dir, keep_open } => LaunchView::Terminal {
                command: command@,
                working_dir: working_dir@,
                keep_open,
            },
            Launch::Folder { target } => LaunchView::Folder { target: target@ },
            Launch::Url { target } => LaunchView::Url { target: target@ },
        }
    }
}

impl View for LaunchError {
    type V = LaunchErrorView;

    open spec fn view(&self) -> LaunchErrorView {
        match *self {
            LaunchError::UnknownStepType(tag) => LaunchErrorView::UnknownStepType(tag@),
            LaunchError::NoTarget => LaunchErrorView::NoTarget,
            LaunchError::NoCommand => LaunchErrorView::NoCommand,
            LaunchError::NoFolder => LaunchErrorView::NoFolder,
            LaunchError::NoUrl => LaunchErrorView::NoUrl,
        }
    }
}

/// A result of planning a launch, as mathematical values.
pub open spec fn plan_view(plan: Result<Launch, LaunchError>) -> Result<LaunchView, LaunchErrorView> {
    match plan {
        Ok(launch) => Ok(launch@),
        Err(error) => Err(error@),
    }
}

/// The text of an optional field, empty where the field is missing.
pub open spec fn or_empty(field: Option<Seq<char>>) -> Seq<char> {
    match field {
        Some(text) => text,
        None => Seq::empty(),
    }
}

/// The process to look for before an application is started: the step's
/// process name, if the step has one and does not switch the check off.
pub open spec fn probe_of(step: StepView) -> Option<Seq<char>> {
    let wanted = match step.check_running {
        Some(on) => on,
        None => true,
    };
    if wanted && step.process_name.len() > 0 {
        Some(step.process_name)
    } else {
        None
    }
}

/// The launch of an application step.
pub open spec fn app_plan(step: StepView) -> Result<LaunchView, LaunchErrorView> {
    if or_empty(step.target).len() == 0 {
        Err(LaunchErrorView::NoTarget)
    } else {
        Ok(LaunchView::App { target: or_empty(step.target), probe: probe_of(step) })
    }
}

/// The launch of a terminal step.
pub open spec fn terminal_plan(step: StepView) -> Result<LaunchView, LaunchErrorView> {
    if or_empty(step.command).len() == 0 {
        Err(LaunchErrorView::NoCommand)
    } else {
        Ok(
            LaunchView::Terminal {
                command: or_empty(step.command),
                working_dir: or_empty(step.working_dir),
                keep_open: match step.keep_open {
                    Some(keep) => keep,
                    None => true,
                },
            },
        )
    }
}

/// The launch of a folder step.
pub open spec fn folder_plan(step: StepView) -> Result<LaunchView, LaunchErrorView> {
    if or_empty(step.target).len() == 0 {
        Err(LaunchErrorView::NoFolder)
    } else {
        Ok(LaunchView::Folder { target: or_empty(step.target) })
    }
}

/// The launch of a URL step.
pub open spec fn url_plan(step: StepView) -> Result<LaunchView, LaunchErrorView> {
    if or_empty(step.target).len() == 0 {
        Err(LaunchErrorView::NoUrl)
    } else {
        Ok(LaunchView::Url { target: or_empty(step.target) })
    }
}

/// The launch that a step asks for, by its type tag.
pub open spec fn plan_of(step: StepView) -> Result<LaunchView, LaunchErrorView> {
    match kind_of(step.step_type) {
        Some(StepKind::App) => app_plan(step),
        Some(StepKind::Terminal) => terminal_plan(step),
        Some(StepKind::Folder) => folder_plan(step),
        Some(StepKind::Url) => url_plan(step),
        None => Err(LaunchErrorView::UnknownStepType(step.step_type)),
    }
}

/// The text under which an error is reported.
pub open spec fn message_of(error: LaunchErrorView) -> Seq<char> {
    match error {
        LaunchErrorView::UnknownStepType(tag) => "Unknown step type: "@ + tag,
        LaunchErrorView::NoTarget => "No target specified"@,
        LaunchErrorView::NoCommand => "No command specified"@,
        LaunchErrorView::NoFolder => "No folder specified"@,
        LaunchErrorView::NoUrl => "No URL specified"@,
    }
}

impl LaunchError {
    /// The text under which this error is reported.
    pub fn message(&self) -> (text: String)
        ensures
            text@ == message_of(self@),
    {
        match self {
            LaunchError::UnknownStepType(tag) => {
                let mut text = "Unknown step type: ".to_string();
                text.append(tag.as_str());
                text
            },
            LaunchError::NoTarget => "No target specified".to_string(),
            LaunchError::NoCommand => "No command specified".to_string(),
            LaunchError::NoFolder => "No folder specified".to_string(),
            LaunchError::NoUrl => "No URL specified".to_string(),
        }
    }
}

/// A copy of an optional field, empty where the field is missing.
fn field_or_empty(field: &Option<String>) -> (text: String)
    ensures
        text@ == or_empty(crate::config::text_of(*field)),
{
    match field {
        Some(text) => text.clone(),
        None => String::new(),
    }
}

/// The launch of an application step: fails without a target; otherwise
/// names the target and the process to look for first.
pub fn launch_app(step: &Step) -> (plan: Result<Launch, LaunchError>)
    ensures
        plan_view(plan) == app_plan(step@),
{
    let target = field_or_empty(&step.target);
    if target.as_str().is_empty() {
        return Err(LaunchError::NoTarget);
    }
    let wanted = match step.check_running {
        Some(on) => on,
        None => true,
    };
    let probe = if wanted && !step.process_name.as_str().is_empty() {
        Some(step.process_name.clone())
    } else {
        None
    };
    Ok(Launch::App { target, probe })
}

/// The launch of a terminal step: fails without a command; the window stays
/// open unless the step says otherwise.
pub fn launch_terminal(step: &Step) -> (plan: Result<Launch, LaunchError>)
    ensures
        plan_view(plan) == terminal_plan(step@),
{
    let command = field_or_empty(&step.command);
    if command.as_str().is_empty() {
        return Err(LaunchError::NoCommand);
    }
    let working_dir = field_or_empty(&step.working_dir);
    let keep_open = match step.keep_open {
        Some(keep) => keep,
        None => true,
    };
    Ok(Launch::Terminal { command, working_dir, keep_open })
}

/// The launch of a folder step: fails without a target.
pub fn launch_folder(step: &Step) -> (plan: Result<Launch, LaunchError>)
    ensures
        plan_view(plan) == folder_plan(step@),
{
    let target = field_or_empty(&step.target);
    if target.as_str().is_empty() {
        return Err(LaunchError::NoFolder);
    }
    Ok(Launch::Folder { target })
}

/// The launch of a URL step: fails without a target.
pub fn launch_url(step: &Step) -> (plan: Result<Launch, LaunchError>)
    ensures
        plan_view(plan) == url_plan(step@),
{
    let target = field_or_empty(&step.target);
    if target.as_str().is_empty() {
        return Err(LaunchError::NoUrl);
    }
    Ok(Launch::Url { target })
}

/// The launch that a step asks for, chosen by its type tag, or the error
/// with which the step fails before anything is started.
pub fn launch_step(step: &Step) -> (plan: Result<Launch, LaunchError>)
    ensures
        plan_view(plan) == plan_of(step@),
{
    match step.kind() {
        Some(StepKind::App) => launch_app(step),
        Some(StepKind::Terminal) => launch_terminal(step),
        Some(StepKind::Folder) => launch_folder(step),
        Some(StepKind::Url) => launch_url(step),
        None => Err(LaunchError::UnknownStepType(step.step_type.clone())),
    }
}

/// Whether a character may stand in the scheme of a URI.
pub open spec fn scheme_char(c: char) -> bool {
    ('a' <= c && c <= 'z') || ('A' <= c && c <= 'Z') || ('0' <= c && c <= '9') || c == '+' || c
        == '.' || c == '-'
}

/// Whether a target has the form of a URI: a scheme of at least two
/// characters, all of them letters, digits, `+`, `.` or `-`, followed by a
/// colon. A single letter before the colon is a drive letter, not a scheme.
pub open spec fn is_uri_spec(target: Seq<char>) -> bool {
    exists|colon: int|
        2 <= colon < target.len() && #[trigger] target[colon] == ':' && forall|k: int|
            0 <= k < colon ==> scheme_char(#[trigger] target[k])
}

fn is_scheme_char(c: char) -> (yes: bool)
    ensures
        yes == scheme_char(c),
{
    ('a' <= c && c <= 'z') || ('A' <= c && c <= 'Z') || ('0' <= c && c <= '9') || c == '+' || c
        == '.' || c == '-'
}

/// Whether a target has the form of a URI rather than of a path or a
/// command.
pub fn is_uri(target: &str) -> (yes: bool)
    ensures
        yes == is_uri_spec(target@),
{
    let chars = chars_of(target);
    let mut i: usize = 0;
    while i < chars.len()
        invariant
            i <= chars.len(),
            chars@ == target@,
            forall|k: int| 0 <= k < i ==> scheme_char(#[trigger] chars@[k]),
        decreases chars.len() - i,
    {
        if chars[i] == ':' {
            if i >= 2 {
                return true;
            } else {
                return false;
            }
        }
        if !is_scheme_char(chars[i]) {
            return false;
        }
        i = i + 1;
    }
    false
}

/// How an application target is started.
#[derive(Clone, Copy, Debug, PartialEq, Eq, Structural)]
pub enum AppRoute {
    /// The target is a URI and goes to the handler of its scheme.
    Uri,
    /// The target is a file that exists and is started directly.
    Executable,
    /// The target is taken as the name of a command or an application.
    Command,
}

/// How an application target is started, given whether a file of that name
/// exists: a URI goes to its handler even if such a file exists.
pub open spec fn route_of(target: Seq<char>, exists: bool) -> AppRoute {
    if is_uri_spec(target) {
        AppRoute::Uri
    } else if exists {
        AppRoute::Executable
    } else {
        AppRoute::Command
    }
}

/// How the expanded target of an application step is started. `exists`
/// says whether a file of that name exists.
pub fn route_app(target: &str, exists: bool) -> (route: AppRoute)
    ensures
        route == route_of(target@, exists),
{
    if is_uri(target) {
        AppRoute::Uri
    } else if exists {
        AppRoute::Executable
    } else {
        AppRoute::Command
    }
}

} // verus!
