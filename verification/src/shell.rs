//! The desktop shell around the launcher: the tray menu, the files that
//! start the program with the session, and what closing the window means.
//!
//! Drawing the menu and writing the files is the caller's part.

use vstd::prelude::*;
use vstd::string::*;
use crate::config::{profile_views, step_views, Profile, ProfileView, Settings, Step, StepView};
use crate::text::{chars_of, has_prefix, same_text, slice, starts_with, string_of, texts};

verus! {

/// An entry of the tray menu.
#[derive(Clone, Debug, PartialEq, Eq)]
pub enum MenuEntry {
    Item { id: String, label: String },
    Separator,
}

pub enum MenuEntryView {
    Item { id: Seq<char>, label: Seq<char> },
    Separator,
}

impl View for MenuEntry {
    type V = MenuEntryView;

    open spec fn view(&self) -> MenuEntryView {
        match *self {
            MenuEntry::Item { id, label } => MenuEntryView::Item { id: id@, label: label@ },
            MenuEntry::Separator => MenuEntryView::Separator,
        }
    }
}

/// The views of a sequence of menu entries, position by position.
pub open spec fn entry_views(entries: Seq<MenuEntry>) -> Seq<MenuEntryView> {
    Seq::new(entries.len(), |i: int| entries[i]@)
}

/// The menu item that launches a profile.
pub open spec fn profile_item(profile: ProfileView) -> MenuEntryView {
    MenuEntryView::Item { id: "profile-"@ + profile.id, label: "Launch: "@ + profile.name }
}

/// The menu items of the profiles, in the order of the configuration.
pub open spec fn profile_items(profiles: Seq<ProfileView>) -> Seq<MenuEntryView> {
    Seq::new(profiles.len(), |i: int| profile_item(profiles[i]))
}

/// The tray menu: the item that shows the window, the profiles between two
/// separators, and the item that quits.
pub open spec fn tray_menu(profiles: Seq<ProfileView>) -> Seq<MenuEntryView> {
    seq![
        MenuEntryView::Item { id: "show"@, label: "Show WorkSwitch"@ },
        MenuEntryView::Separator,
    ] + profile_items(profiles) + seq![
        MenuEntryView::Separator,
        MenuEntryView::Item { id: "quit"@, label: "Quit"@ },
    ]
}

/// The entries of the tray menu for these profiles.
pub fn build_tray_menu(profiles: &Vec<Profile>) -> (entries: Vec<MenuEntry>)
    ensures
        entry_views(entries@) == tray_menu(profile_views(profiles@)),
{
    let ghost all = profile_views(profiles@);
    let ghost head = seq![
        MenuEntryView::Item { id: "show"@, label: "Show WorkSwitch"@ },
        MenuEntryView::Separator,
    ];
    let mut entries: Vec<MenuEntry> = Vec::new();
    entries.push(MenuEntry::Item { id: "show".to_string(), label: "Show WorkSwitch".to_string() });
    entries.push(MenuEntry::Separator);
    let mut i: usize = 0;
    while i < profiles.len()
        invariant
            i <= profiles.len(),
            all == profile_views(profiles@),
            head == seq![
                MenuEntryView::Item { id: "show"@, label: "Show WorkSwitch"@ },
                MenuEntryView::Separator,
            ],
            entry_views(entries@) == head + profile_items(all).take(i as int),
        decreases profiles.len() - i,
    {
        let ghost before = entry_views(entries@);
        let mut id = "profile-".to_string();
        id.append(profiles[i].id.as_str());
        let mut label = "Launch: ".to_string();
        label.append(profiles[i].name.as_str());
        entries.push(MenuEntry::Item { id, label });
        assert(entry_views(entries@) =~= before.push(profile_item(all[i as int])));
        i = i + 1;
    }
    assert(profile_items(all).take(profiles@.len() as int) =~= profile_items(all));
    entries.push(MenuEntry::Separator);
    entries.push(MenuEntry::Item { id: "quit".to_string(), label: "Quit".to_string() });
    entries
}

/// What a click on a menu item asks for.
#[derive(Clone, Debug, PartialEq, Eq)]
pub enum TrayAction {
    /// Show the window.
    Show,
    /// Close the launched applications if so configured, then quit.
    Quit,
    /// Launch the profile with this id.
    Launch(String),
    /// Nothing: the id is none of the menu.
    Ignore,
}

pub enum TrayActionView {
    Show,
    Quit,
    Launch(Seq<char>),
    Ignore,
}

impl View for TrayAction {
    type V = TrayActionView;

    open spec fn view(&self) -> TrayActionView {
        match *self {
            TrayAction::Show => TrayActionView::Show,
            TrayAction::Quit => TrayActionView::Quit,
            TrayAction::Launch(id) => TrayActionView::Launch(id@),
            TrayAction::Ignore => TrayActionView::Ignore,
        }
    }
}

/// What the menu item with this id asks for.
pub open spec fn action_of(id: Seq<char>) -> TrayActionView {
    if id == "show"@ {
        TrayActionView::Show
    } else if id == "quit"@ {
        TrayActionView::Quit
    } else if has_prefix(id, "profile-"@) {
        TrayActionView::Launch(id.skip("profile-"@.len() as int))
    } else {
        TrayActionView::Ignore
    }
}

/// What a click on the menu item with this id asks for.
pub fn menu_action(id: &str) -> (action: TrayAction)
    ensures
        action@ == action_of(id@),
{
    if same_text(id, "show") {
        TrayAction::Show
    } else if same_text(id, "quit") {
        TrayAction::Quit
    } else {
        let chars = chars_of(id);
        let prefix = chars_of("profile-");
        if starts_with(&chars, &prefix) {
            let rest = slice(&chars, prefix.len(), chars.len());
            TrayAction::Launch(string_of(&rest))
        } else {
            TrayAction::Ignore
        }
    }
}

/// Side length of the tray icon, in pixels.
pub const ICON_SIZE: u32 = 32;

/// The pixels of the default icon: a square of one colour, `#2563eb`, as
/// red, green, blue and alpha of each pixel.
pub open spec fn icon_pixels() -> Seq<u8> {
    Seq::new(
        (ICON_SIZE * ICON_SIZE * 4) as nat,
        |i: int|
            if i % 4 == 0 {
                37u8
            } else if i % 4 == 1 {
                99u8
            } else if i % 4 == 2 {
                235u8
            } else {
                255u8
            },
    )
}

/// The pixels of the default tray icon.
pub fn create_default_icon() -> (rgba: Vec<u8>)
    ensures
        rgba@ == icon_pixels(),
{
    let mut rgba: Vec<u8> = Vec::new();
    let mut n: u32 = 0;
    while n < ICON_SIZE * ICON_SIZE
        invariant
            n <= ICON_SIZE * ICON_SIZE,
            rgba@.len() == 4 * n,
            forall|i: int| 0 <= i < rgba@.len() ==> rgba@[i] == icon_pixels()[i],
        decreases ICON_SIZE * ICON_SIZE - n,
    {
        rgba.push(37);
        rgba.push(99);
        rgba.push(235);
        rgba.push(255);
        n = n + 1;
    }
    rgba
}

/// The launch agent that starts `exe` when the user logs in on macOS.
pub open spec fn launch_agent(exe: Seq<char>) -> Seq<char> {
    "<?xml version=\"1.0\" encoding=\"UTF-8\"?>\n<!DOCTYPE plist PUBLIC \"-//Apple//DTD PLIST 1.0//EN\" \"http://www.apple.com/DTDs/PropertyList-1.0.dtd\">\n<plist version=\"1.0\">\n<dict>\n    <key>Label</key>\n    <string>com.workswitch.app</string>\n    <key>ProgramArguments</key>\n    <array>\n        <string>"@
        + exe
        + "</string>\n    </array>\n    <key>RunAtLoad</key>\n    <true/>\n</dict>\n</plist>"@
}

/// The desktop entry that starts `exe` with the session on Linux.
pub open spec fn autostart_entry(exe: Seq<char>) -> Seq<char> {
    "[Desktop Entry]\nType=Application\nName=WorkSwitch\nExec="@ + exe
        + "\nX-GNOME-Autostart-enabled=true\nHidden=false\n"@
}

/// The text of the launch agent that starts `exe` when the user logs in on
/// macOS. It belongs in `Library/LaunchAgents/com.workswitch.app.plist`
/// under the home directory.
pub fn launch_agent_plist(exe: &str) -> (text: String)
    ensures
        text@ == launch_agent(exe@),
{
    let mut text =
        "<?xml version=\"1.0\" encoding=\"UTF-8\"?>\n<!DOCTYPE plist PUBLIC \"-//Apple//DTD PLIST 1.0//EN\" \"http://www.apple.com/DTDs/PropertyList-1.0.dtd\">\n<plist version=\"1.0\">\n<dict>\n    <key>Label</key>\n    <string>com.workswitch.app</string>\n    <key>ProgramArguments</key>\n    <array>\n        <string>".to_string();
    text.append(exe);
    text.append(
        "</string>\n    </array>\n    <key>RunAtLoad</key>\n    <true/>\n</dict>\n</plist>",
    );
    text
}

/// The text of the desktop entry that starts `exe` with the session on
/// Linux. It belongs in `.config/autostart/workswitch.desktop` under the
/// home directory.
pub fn autostart_desktop_entry(exe: &str) -> (text: String)
    ensures
        text@ == autostart_entry(exe@),
{
    let mut text = "[Desktop Entry]\nType=Application\nName=WorkSwitch\nExec=".to_string();
    text.append(exe);
    text.append("\nX-GNOME-Autostart-enabled=true\nHidden=false\n");
    text
}

/// What a request to close the window leads to.
#[derive(Clone, Copy, Debug, PartialEq, Eq, Structural)]
pub enum CloseAction {
    /// Keep running in the tray: refuse the close and hide the window.
    HideToTray,
    /// Let the window close, after closing the launched applications if so
    /// configured.
    Exit,
}

/// What a request to close the window leads to.
pub fn on_close_requested(settings: &Settings) -> (action: CloseAction)
    ensures
        action == if settings.minimize_to_tray {
            CloseAction::HideToTray
        } else {
            CloseAction::Exit
        },
{
    if settings.minimize_to_tray {
        CloseAction::HideToTray
    } else {
        CloseAction::Exit
    }
}

/// The processes to kill when the program exits: those of the last launch
/// if the settings say so, else none.
pub fn close_apps_on_exit(settings: &Settings, last_launch: Vec<String>) -> (names: Vec<String>)
    ensures
        texts(names@) == if settings.close_on_exit {
            texts(last_launch@)
        } else {
            Seq::<Seq<char>>::empty()
        },
{
    if settings.close_on_exit {
        last_launch
    } else {
        let names: Vec<String> = Vec::new();
        names
    }
}

/// The positions of the enabled steps among `steps`, in order.
pub open spec fn enabled_positions(steps: Seq<StepView>) -> Seq<int>
    decreases steps.len(),
{
    if steps.len() == 0 {
        seq![]
    } else if steps.last().enabled {
        enabled_positions(steps.drop_last()).push(steps.len() - 1)
    } else {
        enabled_positions(steps.drop_last())
    }
}

/// The positions of the steps to launch when the program starts: the
/// enabled ones among the startup steps, in order.
pub fn startup_steps(steps: &Vec<Step>) -> (at: Vec<usize>)
    ensures
        crate::scheduler::positions(at@) == enabled_positions(step_views(steps@)),
{
    let ghost all = step_views(steps@);
    let mut at: Vec<usize> = Vec::new();
    let mut i: usize = 0;
    while i < steps.len()
        invariant
            i <= steps.len(),
            all == step_views(steps@),
            crate::scheduler::positions(at@) == enabled_positions(all.take(i as int)),
        decreases steps.len() - i,
    {
        assert(all.take(i + 1).drop_last() =~= all.take(i as int));
        if steps[i].enabled {
            at.push(i);
        }
        i = i + 1;
    }
    assert(all.take(steps@.len() as int) =~= all);
    at
}

/// The position of the first profile with this id.
pub open spec fn position_of(profiles: Seq<ProfileView>, id: Seq<char>, from: int) -> Option<int>
    decreases profiles.len() - from,
{
    if from < 0 || from >= profiles.len() {
        None
    } else if profiles[from].id == id {
        Some(from)
    } else {
        position_of(profiles, id, from + 1)
    }
}

/// The position of the profile with this id, the first one if several have
/// it. `None` is reported as `Profile not found`.
pub fn find_profile(profiles: &Vec<Profile>, id: &str) -> (at: Option<usize>)
    ensures
        match at {
            Some(i) => position_of(profile_views(profiles@), id@, 0) == Some(i as int),
            None => position_of(profile_views(profiles@), id@, 0) is None,
        },
{
    let mut i: usize = 0;
    while i < profiles.len()
        invariant
            i <= profiles.len(),
            position_of(profile_views(profiles@), id@, 0) == position_of(
                profile_views(profiles@),
                id@,
                i as int,
            ),
        decreases profiles.len() - i,
    {
        if same_text(profiles[i].id.as_str(), id) {
            return Some(i);
        }
        i = i + 1;
    }
    None
}

} // verus!
