//! The configuration that the launcher reads: profiles, their steps and
//! schedules, and the application settings. The sequencing code never changes
//! a value of these types.

use vstd::prelude::*;
use crate::text::same_text;

verus! {

/// Delay after a step, in milliseconds, where the configuration names none.
pub const DEFAULT_DELAY_MS: u64 = 500;

/// The closed set of things a step can launch.
#[derive(Clone, Copy, Debug, PartialEq, Eq, Structural)]
pub enum StepKind {
    App,
    Terminal,
    Folder,
    Url,
}

/// One launchable action of a profile.
#[derive(Debug)]
pub struct Step {
    pub id: String,
    pub name: String,
    /// The type tag as configured: `app`, `terminal`, `folder` or `url`.
    pub step_type: String,
    pub enabled: bool,
    /// Milliseconds to wait once this step has finished.
    pub delay_after: u64,
    /// Name under which the launched process shows up, empty if unknown.
    pub process_name: String,
    pub target: Option<String>,
    pub check_running: Option<bool>,
    pub command: Option<String>,
    pub working_dir: Option<String>,
    pub keep_open: Option<bool>,
}

/// A time-of-day trigger of a profile.
#[derive(Debug)]
pub struct Schedule {
    pub enabled: bool,
    /// Hour and minute as `HH:MM`, 24-hour clock.
    pub time: String,
    /// Weekdays on which the trigger applies, counted from Sunday = 0;
    /// empty means every day.
    pub days: Vec<u8>,
}

/// A named, ordered list of steps.
#[derive(Debug)]
pub struct Profile {
    pub id: String,
    pub name: String,
    pub description: String,
    /// The steps in execution order.
    pub steps: Vec<Step>,
    pub schedule: Option<Schedule>,
}

#[derive(Debug)]
pub struct Settings {
    pub theme: String,
    pub launch_delay_ms: u64,
    pub start_minimized: bool,
    pub close_on_switch: bool,
    pub minimize_to_tray: bool,
    pub close_on_exit: bool,
}

#[derive(Debug)]
pub struct AppConfig {
    pub settings: Settings,
    pub profiles: Vec<Profile>,
    /// Steps launched once when the application starts.
    pub startup_apps: Vec<Step>,
}

/// What a `Step` is, as mathematical values.
pub struct StepView {
    pub id: Seq<char>,
    pub name: Seq<char>,
    pub step_type: Seq<char>,
    pub enabled: bool,
    pub delay_after: u64,
    pub process_name: Seq<char>,
    pub target: Option<Seq<char>>,
    pub check_running: Option<bool>,
    pub command: Option<Seq<char>>,
    pub working_dir: Option<Seq<char>>,
    pub keep_open: Option<bool>,
}

pub struct ScheduleView {
    pub enabled: bool,
    pub time: Seq<char>,
    pub days: Seq<u8>,
}

pub struct ProfileView {
    pub id: Seq<char>,
    pub name: Seq<char>,
    pub description: Seq<char>,
    pub steps: Seq<StepView>,
    pub schedule: Option<ScheduleView>,
}

pub struct SettingsView {
    pub theme: Seq<char>,
    pub launch_delay_ms: u64,
    pub start_minimized: bool,
    pub close_on_switch: bool,
    pub minimize_to_tray: bool,
    pub close_on_exit: bool,
}

pub struct AppConfigView {
    pub settings: SettingsView,
    pub profiles: Seq<ProfileView>,
    pub startup_apps: Seq<StepView>,
}

/// The text of an optional string.
pub open spec fn text_of(o: Option<String>) -> Option<Seq<char>> {
    match o {
        Some(s) => Some(s@),
        None => None,
    }
}

/// The views of a sequence of steps, position by position.
pub open spec fn step_views(steps: Seq<Step>) -> Seq<StepView> {
    Seq::new(steps.len(), |i: int| steps[i]@)
}

/// The views of a sequence of profiles, position by position.
pub open spec fn profile_views(profiles: Seq<Profile>) -> Seq<ProfileView> {
    Seq::new(profiles.len(), |i: int| profiles[i]@)
}

impl View for Step {
    type V = StepView;

    open spec fn view(&self) -> StepView {
        StepView {
            id: self.id@,
            name: self.name@,
            step_type: self.step_type@,
            enabled: self.enabled,
            delay_after: self.delay_after,
            process_name: self.process_name@,
            target: text_of(self.target),
            check_running: self.check_running,
            command: text_of(self.command),
            working_dir: text_of(self.working_dir),
            keep_open: self.keep_open,
        }
    }
}

impl View for Schedule {
    type V = ScheduleView;

    open spec fn view(&self) -> ScheduleView {
        ScheduleView { enabled: self.enabled, time: self.time@, days: self.days@ }
    }
}

impl View for Profile {
    type V = ProfileView;

    open spec fn view(&self) -> ProfileView {
        ProfileView {
            id: self.id@,
            name: self.name@,
            description: self.description@,
            steps: step_views(self.steps@),
            schedule: match self.schedule {
                Some(s) => Some(s@),
                None => None,
            },
        }
    }
}

impl View for Settings {
    type V = SettingsView;

    open spec fn view(&self) -> SettingsView {
        SettingsView {
            theme: self.theme@,
            launch_delay_ms: self.launch_delay_ms,
            start_minimized: self.start_minimized,
            close_on_switch: self.close_on_switch,
            minimize_to_tray: self.minimize_to_tray,
            close_on_exit: self.close_on_exit,
        }
    }
}

impl View for AppConfig {
    type V = AppConfigView;

    open spec fn view(&self) -> AppConfigView {
        AppConfigView {
            settings: self.settings@,
            profiles: profile_views(self.profiles@),
            startup_apps: step_views(self.startup_apps@),
        }
    }
}

/// The kind that a type tag names, if it names one.
pub open spec fn kind_of(tag: Seq<char>) -> Option<StepKind> {
    if tag == "app"@ {
        Some(StepKind::App)
    } else if tag == "terminal"@ {
        Some(StepKind::Terminal)
    } else if tag == "folder"@ {
        Some(StepKind::Folder)
    } else if tag == "url"@ {
        Some(StepKind::Url)
    } else {
        None
    }
}

/// The type tag under which a kind is configured.
pub open spec fn tag_of(kind: StepKind) -> Seq<char> {
    match kind {
        StepKind::App => "app"@,
        StepKind::Terminal => "terminal"@,
        StepKind::Folder => "folder"@,
        StepKind::Url => "url"@,
    }
}

impl StepKind {
    /// Reads a type tag; `None` for a tag outside the four known ones.
    pub fn parse(tag: &str) -> (kind: Option<StepKind>)
        ensures
            kind == kind_of(tag@),
    {
        if same_text(tag, "app") {
            Some(StepKind::App)
        } else if same_text(tag, "terminal") {
            Some(StepKind::Terminal)
        } else if same_text(tag, "folder") {
            Some(StepKind::Folder)
        } else if same_text(tag, "url") {
            Some(StepKind::Url)
        } else {
            None
        }
    }

    /// The type tag of this kind.
    pub fn tag(&self) -> (tag: &'static str)
        ensures
            tag@ == tag_of(*self),
    {
        match self {
            StepKind::App => "app",
            StepKind::Terminal => "terminal",
            StepKind::Folder => "folder",
            StepKind::Url => "url",
        }
    }
}

/// Every kind is found again from its own tag.
pub proof fn kind_of_tag(kind: StepKind)
    ensures
        kind_of(tag_of(kind)) == Some(kind),
{
    reveal_strlit("app");
    reveal_strlit("terminal");
    reveal_strlit("folder");
    reveal_strlit("url");
    assert("app"@.len() == 3);
    assert("terminal"@.len() == 8);
    assert("url"@[0] == 'u');
}

fn clone_text(o: &Option<String>) -> (r: Option<String>)
    ensures
        text_of(r) == text_of(*o),
{
    match o {
        Some(s) => Some(s.clone()),
        None => None,
    }
}

impl Clone for Step {
    fn clone(&self) -> (r: Self)
        ensures
            r@ == self@,
    {
        Step {
            id: self.id.clone(),
            name: self.name.clone(),
            step_type: self.step_type.clone(),
            enabled: self.enabled,
            delay_after: self.delay_after,
            process_name: self.process_name.clone(),
            target: clone_text(&self.target),
            check_running: self.check_running,
            command: clone_text(&self.command),
            working_dir: clone_text(&self.working_dir),
            keep_open: self.keep_open,
        }
    }
}

impl Step {
    /// The kind that this step's type tag names, if any.
    pub fn kind(&self) -> (kind: Option<StepKind>)
        ensures
            kind == kind_of(self@.step_type),
    {
        StepKind::parse(self.step_type.as_str())
    }
}

/// The theme of a configuration that names none.
pub fn default_theme() -> (theme: String)
    ensures
        theme@ == "dark"@,
{
    "dark".to_string()
}

/// The delay after a step, in milliseconds, where the configuration names none.
pub fn default_delay() -> (delay: u64)
    ensures
        delay == DEFAULT_DELAY_MS,
{
    DEFAULT_DELAY_MS
}

/// The value of a switch that is on unless the configuration says otherwise.
pub fn default_true() -> (on: bool)
    ensures
        on,
{
    true
}

/// The settings of a fresh installation.
pub open spec fn default_settings() -> SettingsView {
    SettingsView {
        theme: "dark"@,
        launch_delay_ms: DEFAULT_DELAY_MS,
        start_minimized: false,
        close_on_switch: true,
        minimize_to_tray: true,
        close_on_exit: false,
    }
}

impl Default for AppConfig {
    /// The configuration used when none can be read: default settings and no
    /// profiles.
    fn default() -> (config: Self)
        ensures
            config@.settings == default_settings(),
            config@.profiles.len() == 0,
            config@.startup_apps.len() == 0,
    {
        AppConfig {
            settings: Settings {
                theme: default_theme(),
                launch_delay_ms: default_delay(),
                start_minimized: false,
                close_on_switch: default_true(),
                minimize_to_tray: default_true(),
                close_on_exit: false,
            },
            profiles: Vec::new(),
            startup_apps: Vec::new(),
        }
    }
}

} // verus!
