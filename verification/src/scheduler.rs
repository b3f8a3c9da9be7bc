//! The time-based trigger: which scheduled profiles are due at a wake-up, and
//! what a scheduled run consists of.
//!
//! The loop that sleeps between wake-ups, reloads the configuration and
//! carries out the runs belongs to the caller. The trigger remembers which
//! profiles it has fired during the current minute, so that waking up twice
//! within one minute fires a schedule once.

use vstd::prelude::*;
use crate::config::{profile_views, Profile, ProfileView, Schedule, ScheduleView, StepView};
use crate::orchestrator::{effective_delay, effective_delay_spec};
use crate::text::{digit, digit_char, same_text, string_of};

verus! {

/// Seconds between two wake-ups of the trigger loop.
pub const POLL_INTERVAL_SECS: u64 = 30;

/// Least delay after a step of a scheduled run, in milliseconds.
pub const SCHEDULED_DELAY_FLOOR_MS: u64 = 500;

/// Whether a schedule applies at `time` on weekday `day` (Sunday = 0). An
/// empty day list applies on every day.
pub open spec fn applies(schedule: ScheduleView, time: Seq<char>, day: u8) -> bool {
    &&& schedule.enabled
    &&& schedule.time == time
    &&& (schedule.days.len() == 0 || schedule.days.contains(day))
}

/// Whether a profile is to be fired at `time` on `day`, given the ids fired
/// earlier in the same minute.
pub open spec fn due(fired: Set<Seq<char>>, profile: ProfileView, time: Seq<char>, day: u8) -> bool {
    &&& profile.schedule matches Some(schedule)
    &&& applies(schedule, time, day)
    &&& !fired.contains(profile.id)
}

/// The ids fired this minute once `profiles` have been gone through in
/// order, starting from `fired`.
pub open spec fn fired_after(
    fired: Set<Seq<char>>,
    profiles: Seq<ProfileView>,
    time: Seq<char>,
    day: u8,
) -> Set<Seq<char>>
    decreases profiles.len(),
{
    if profiles.len() == 0 {
        fired
    } else {
        let before = fired_after(fired, profiles.drop_last(), time, day);
        if due(before, profiles.last(), time, day) {
            before.insert(profiles.last().id)
        } else {
            before
        }
    }
}

/// The positions in `profiles` of those that are fired when the list is gone
/// through in order, starting from `fired`. A profile is judged against the
/// ids fired before it, those of earlier profiles of the same list included.
pub open spec fn due_positions(
    fired: Set<Seq<char>>,
    profiles: Seq<ProfileView>,
    time: Seq<char>,
    day: u8,
) -> Seq<int>
    decreases profiles.len(),
{
    if profiles.len() == 0 {
        seq![]
    } else {
        let earlier = due_positions(fired, profiles.drop_last(), time, day);
        let before = fired_after(fired, profiles.drop_last(), time, day);
        if due(before, profiles.last(), time, day) {
            earlier.push(profiles.len() - 1)
        } else {
            earlier
        }
    }
}

/// What the trigger remembers between wake-ups.
pub struct TriggerMemoryView {
    /// The minute seen at the last wake-up, as `HH:MM`; empty before the
    /// first.
    pub last_minute: Seq<char>,
    /// The ids of the profiles fired during that minute.
    pub fired: Set<Seq<char>>,
}

impl TriggerMemoryView {
    /// The memory after a wake-up at `time`: a new minute empties the set of
    /// fired ids.
    pub open spec fn observed(self, time: Seq<char>) -> TriggerMemoryView {
        if time == self.last_minute {
            self
        } else {
            TriggerMemoryView { last_minute: time, fired: Set::empty() }
        }
    }

    /// The memory after the profiles due at `time` on `day` have been fired.
    pub open spec fn fired_all(self, profiles: Seq<ProfileView>, time: Seq<char>, day: u8) -> TriggerMemoryView {
        TriggerMemoryView {
            last_minute: self.last_minute,
            fired: fired_after(self.fired, profiles, time, day),
        }
    }
}

/// The ids that a list of strings holds.
pub open spec fn ids_of(list: Seq<String>) -> Set<Seq<char>> {
    Set::new(|id: Seq<char>| exists|i: int| 0 <= i < list.len() && #[trigger] list[i]@ == id)
}

/// The positions held by a vector, as integers.
pub open spec fn positions(list: Seq<usize>) -> Seq<int> {
    Seq::new(list.len(), |i: int| list[i] as int)
}

/// The memory of the trigger loop: the last minute seen and the profiles
/// fired during it.
pub struct TriggerMemory {
    last_minute: String,
    fired: Vec<String>,
}

impl View for TriggerMemory {
    type V = TriggerMemoryView;

    closed spec fn view(&self) -> TriggerMemoryView {
        TriggerMemoryView { last_minute: self.last_minute@, fired: ids_of(self.fired@) }
    }
}

/// Whether `day` is among `days`.
pub fn lists_day(days: &Vec<u8>, day: u8) -> (found: bool)
    ensures
        found == days@.contains(day),
{
    let mut i: usize = 0;
    while i < days.len()
        invariant
            i <= days.len(),
            forall|k: int| 0 <= k < i ==> days[k] != day,
        decreases days.len() - i,
    {
        if days[i] == day {
            return true;
        }
        i = i + 1;
    }
    false
}

/// Whether a schedule applies at `time` on weekday `day` (Sunday = 0).
pub fn schedule_applies(schedule: &Schedule, time: &str, day: u8) -> (yes: bool)
    ensures
        yes == applies(schedule@, time@, day),
{
    if !schedule.enabled {
        return false;
    }
    if !same_text(schedule.time.as_str(), time) {
        return false;
    }
    schedule.days.len() == 0 || lists_day(&schedule.days, day)
}

impl TriggerMemory {
    /// No id is held twice.
    #[verifier::type_invariant]
    spec fn distinct(self) -> bool {
        forall|i: int, j: int|
            0 <= i < j < self.fired@.len() ==> self.fired@[i]@ != self.fired@[j]@
    }

    /// The memory before the first wake-up: no minute seen, nothing fired.
    pub fn new() -> (memory: TriggerMemory)
        ensures
            memory@.last_minute.len() == 0,
            memory@.fired == Set::<Seq<char>>::empty(),
    {
        let memory = TriggerMemory { last_minute: String::new(), fired: Vec::new() };
        memory
    }

    /// The minute seen at the last wake-up.
    pub fn last_minute(&self) -> (minute: &str)
        ensures
            minute@ == self@.last_minute,
    {
        self.last_minute.as_str()
    }

    /// Whether the profile with this id was fired during the current minute.
    pub fn has_fired(&self, id: &str) -> (found: bool)
        ensures
            found == self@.fired.contains(id@),
    {
        let mut i: usize = 0;
        while i < self.fired.len()
            invariant
                i <= self.fired.len(),
                forall|k: int| 0 <= k < i ==> self.fired@[k]@ != id@,
            decreases self.fired.len() - i,
        {
            if same_text(self.fired[i].as_str(), id) {
                return true;
            }
            i = i + 1;
        }
        false
    }

    /// Takes note of the minute of a wake-up. A minute other than the last
    /// one seen empties the set of fired profiles.
    pub fn observe(&mut self, time: &str)
        ensures
            final(self)@ == old(self)@.observed(time@),
    {
        if !same_text(self.last_minute.as_str(), time) {
            let fresh = TriggerMemory { last_minute: time.to_string(), fired: Vec::new() };
            assert(ids_of(fresh.fired@) =~= Set::<Seq<char>>::empty());
            *self = fresh;
        }
    }

    /// Whether `profile` is to be fired at `time` on `day`: its schedule
    /// applies and it has not been fired during the current minute.
    pub fn is_due(&self, profile: &Profile, time: &str, day: u8) -> (yes: bool)
        ensures
            yes == due(self@.fired, profile@, time@, day),
    {
        match &profile.schedule {
            Some(schedule) => schedule_applies(schedule, time, day) && !self.has_fired(
                profile.id.as_str(),
            ),
            None => false,
        }
    }

    /// Records that the profile with this id has been fired.
    fn remember(&mut self, id: &String)
        requires
            !old(self)@.fired.contains(id@),
        ensures
            final(self)@.fired == old(self)@.fired.insert(id@),
            final(self)@.last_minute == old(self)@.last_minute,
    {
        proof {
            use_type_invariant(&*self);
        }
        let ghost before = self.fired@;
        let mut fired: Vec<String> = Vec::new();
        std::mem::swap(&mut fired, &mut self.fired);
        fired.push(id.clone());
        assert(ids_of(fired@) =~= ids_of(before).insert(id@)) by {
            assert forall|t: Seq<char>| ids_of(fired@).contains(t) implies ids_of(before).insert(
                id@,
            ).contains(t) by {
                let i = choose|i: int| 0 <= i < fired@.len() && #[trigger] fired@[i]@ == t;
            }
            assert forall|t: Seq<char>| ids_of(before).insert(id@).contains(t) implies ids_of(
                fired@,
            ).contains(t) by {
                if t == id@ {
                    assert(fired@[before.len() as int]@ == t);
                } else {
                    let i = choose|i: int| 0 <= i < before.len() && #[trigger] before[i]@ == t;
                    assert(fired@[i]@ == t);
                }
            }
        }
        let last_minute = self.last_minute.clone();
        *self = TriggerMemory { last_minute, fired };
    }

    /// Goes through `profiles` in order and fires those that are due at
    /// `time` on `day`: returns their positions in the list, in order, and
    /// remembers their ids. Each profile is judged against what has been
    /// fired before it during the current minute.
    pub fn fire_due(&mut self, time: &str, day: u8, profiles: &Vec<Profile>) -> (due_now: Vec<usize>)
        ensures
            positions(due_now@) == due_positions(
                old(self)@.fired,
                profile_views(profiles@),
                time@,
                day,
            ),
            final(self)@ == old(self)@.fired_all(profile_views(profiles@), time@, day),
    {
        let ghost all = profile_views(profiles@);
        let ghost start = self@;
        let mut due_now: Vec<usize> = Vec::new();
        let mut i: usize = 0;
        while i < profiles.len()
            invariant
                i <= profiles.len(),
                all == profile_views(profiles@),
                positions(due_now@) == due_positions(start.fired, all.take(i as int), time@, day),
                self@.fired == fired_after(start.fired, all.take(i as int), time@, day),
                self@.last_minute == start.last_minute,
            decreases profiles.len() - i,
        {
            let ghost seen = all.take(i as int);
            let ghost next = all.take(i + 1);
            assert(next.drop_last() =~= seen);
            if self.is_due(&profiles[i], time, day) {
                self.remember(&profiles[i].id);
                due_now.push(i);
            }
            i = i + 1;
        }
        assert(all.take(i as int) =~= all);
        due_now
    }

    /// One wake-up in a single call: takes note of the minute, then fires
    /// what is due.
    pub fn tick(&mut self, time: &str, day: u8, profiles: &Vec<Profile>) -> (due_now: Vec<usize>)
        ensures
            positions(due_now@) == due_positions(
                old(self)@.observed(time@).fired,
                profile_views(profiles@),
                time@,
                day,
            ),
            final(self)@ == old(self)@.observed(time@).fired_all(
                profile_views(profiles@),
                time@,
                day,
            ),
    {
        self.observe(time);
        self.fire_due(time, day, profiles)
    }
}

/// One thing to do in a scheduled run, in the order given.
#[derive(Clone, Debug, PartialEq, Eq)]
pub enum ScheduledAction {
    /// Publish that the scheduled launch of the profile starts.
    Announce { profile_name: String },
    /// Run the step at this position of the profile's list to its end. A
    /// failure is logged and changes nothing of what follows.
    Launch { step: usize },
    /// Sleep this many milliseconds.
    Sleep { millis: u64 },
}

pub enum ScheduledActionView {
    Announce { profile_name: Seq<char> },
    Launch { step: int },
    Sleep { millis: u64 },
}

impl View for ScheduledAction {
    type V = ScheduledActionView;

    open spec fn view(&self) -> ScheduledActionView {
        match *self {
            ScheduledAction::Announce { profile_name } => ScheduledActionView::Announce {
                profile_name: profile_name@,
            },
            ScheduledAction::Launch { step } => ScheduledActionView::Launch { step: step as int },
            ScheduledAction::Sleep { millis } => ScheduledActionView::Sleep { millis },
        }
    }
}

/// The views of a sequence of actions, position by position.
pub open spec fn action_views(actions: Seq<ScheduledAction>) -> Seq<ScheduledActionView> {
    Seq::new(actions.len(), |i: int| actions[i]@)
}

/// The launches and delays of a scheduled run of `steps`: every enabled
/// step in list order, each followed by its delay, which is at least the
/// floor. Disabled steps are passed over.
pub open spec fn step_actions(steps: Seq<StepView>) -> Seq<ScheduledActionView>
    decreases steps.len(),
{
    if steps.len() == 0 {
        seq![]
    } else {
        let earlier = step_actions(steps.drop_last());
        if steps.last().enabled {
            earlier + seq![
                ScheduledActionView::Launch { step: steps.len() - 1 },
                ScheduledActionView::Sleep {
                    millis: effective_delay_spec(steps.last().delay_after, SCHEDULED_DELAY_FLOOR_MS),
                },
            ]
        } else {
            earlier
        }
    }
}

/// A scheduled run of a profile: the announcement, then the launches and
/// delays of its enabled steps.
pub open spec fn scheduled_run(profile: ProfileView) -> Seq<ScheduledActionView> {
    seq![ScheduledActionView::Announce { profile_name: profile.name }] + step_actions(
        profile.steps,
    )
}

/// What a scheduled run of `profile` consists of. There is no ceiling on a
/// step and no way to cancel: each step runs to its end, failed or not.
pub fn plan_scheduled_run(profile: &Profile) -> (actions: Vec<ScheduledAction>)
    ensures
        action_views(actions@) == scheduled_run(profile@),
{
    let ghost steps = profile@.steps;
    let mut actions: Vec<ScheduledAction> = Vec::new();
    actions.push(ScheduledAction::Announce { profile_name: profile.name.clone() });
    let ghost head = seq![ScheduledActionView::Announce { profile_name: profile@.name }];
    let mut i: usize = 0;
    while i < profile.steps.len()
        invariant
            i <= profile.steps.len(),
            steps == profile@.steps,
            head == seq![ScheduledActionView::Announce { profile_name: profile@.name }],
            action_views(actions@) == head + step_actions(steps.take(i as int)),
        decreases profile.steps.len() - i,
    {
        let ghost before = action_views(actions@);
        let ghost next = steps.take(i + 1);
        assert(next.drop_last() =~= steps.take(i as int));
        let step = &profile.steps[i];
        if step.enabled {
            let millis = effective_delay(step.delay_after, SCHEDULED_DELAY_FLOOR_MS);
            actions.push(ScheduledAction::Launch { step: i });
            actions.push(ScheduledAction::Sleep { millis });
            assert(action_views(actions@) =~= before + seq![
                ScheduledActionView::Launch { step: i as int },
                ScheduledActionView::Sleep { millis },
            ]);
        }
        i = i + 1;
    }
    assert(steps.take(i as int) =~= steps);
    actions
}

/// A time of day as the text `HH:MM`, both numbers with two digits.
pub open spec fn clock_text_spec(hour: int, minute: int) -> Seq<char> {
    seq![
        digit_char(hour / 10),
        digit_char(hour % 10),
        ':',
        digit_char(minute / 10),
        digit_char(minute % 10),
    ]
}

/// The time of day `hour`:`minute` in the form in which schedules name it.
/// `None` for an hour or a minute that no clock shows.
pub fn clock_text(hour: u32, minute: u32) -> (text: Option<String>)
    ensures
        hour < 24 && minute < 60 ==> text is Some && text->0@ == clock_text_spec(
            hour as int,
            minute as int,
        ),
        !(hour < 24 && minute < 60) ==> text is None,
{
    if hour >= 24 || minute >= 60 {
        return None;
    }
    let mut text: Vec<char> = Vec::new();
    text.push(digit((hour / 10) as usize));
    text.push(digit((hour % 10) as usize));
    text.push(':');
    text.push(digit((minute / 10) as usize));
    text.push(digit((minute % 10) as usize));
    Some(string_of(&text))
}

/// Reads the local wall clock with `chrono::Local::now` and takes the hour,
/// the minute and the weekday from it with `hour`, `minute` and
/// `weekday().num_days_from_sunday()`. Claimed of the outside crate: the
/// hour is below 24, the minute below 60, and the weekday, counted from
/// Sunday = 0, below 7. Which values come back depends on the moment of the
/// call and on the time zone of the machine. `Local::now` does not return
/// on a machine whose clock stands before the year 1970.
#[verifier::external_body]
fn local_clock() -> (now: (u32, u32, u32))
    ensures
        now.0 < 24,
        now.1 < 60,
        now.2 < 7,
{
    let now = chrono::Local::now();
    (
        chrono::Timelike::hour(&now),
        chrono::Timelike::minute(&now),
        chrono::Datelike::weekday(&now).num_days_from_sunday(),
    )
}

/// The moment of a wake-up as the trigger sees it.
pub struct WakeTime {
    /// The local time of day as `HH:MM`.
    pub time: String,
    /// The local weekday, counted from Sunday = 0.
    pub day: u8,
}

impl TriggerMemory {
    /// Reads the local clock and takes note of its minute. Which minute and
    /// weekday come back is up to the clock; the text always has the form
    /// `HH:MM`, and the memory is the one that `observe` leaves for it.
    pub fn wake(&mut self) -> (now: WakeTime)
        ensures
            exists|hour: int, minute: int|
                0 <= hour < 24 && 0 <= minute < 60 && now.time@ == #[trigger] clock_text_spec(
                    hour,
                    minute,
                ),
            now.day < 7,
            final(self)@ == old(self)@.observed(now.time@),
    {
        let (hour, minute, weekday) = local_clock();
        let time = match clock_text(hour, minute) {
            Some(text) => text,
            None => String::new(),
        };
        let day = weekday as u8;
        self.observe(time.as_str());
        WakeTime { time, day }
    }
}

} // verus!
