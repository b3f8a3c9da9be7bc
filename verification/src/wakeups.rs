//! What holds of the trigger over one wake-up and over any number of them.

use vstd::prelude::*;
use crate::config::{ProfileView, StepView};
use crate::orchestrator::effective_delay_spec;
use crate::scheduler::{
    applies, clock_text_spec, due, due_positions, fired_after, step_actions,
    ScheduledActionView, TriggerMemoryView, SCHEDULED_DELAY_FLOOR_MS,
};

verus! {

/// One wake-up of the trigger loop: the clock reading and the profiles of
/// the configuration as read at that moment.
pub struct WakeUp {
    pub time: Seq<char>,
    pub day: u8,
    pub profiles: Seq<ProfileView>,
}

/// The ids of the profiles fired when `profiles` are gone through in order,
/// starting from `fired`, in the order of firing.
pub open spec fn fired_ids(
    fired: Set<Seq<char>>,
    profiles: Seq<ProfileView>,
    time: Seq<char>,
    day: u8,
) -> Seq<Seq<char>>
    decreases profiles.len(),
{
    if profiles.len() == 0 {
        seq![]
    } else {
        let earlier = fired_ids(fired, profiles.drop_last(), time, day);
        let before = fired_after(fired, profiles.drop_last(), time, day);
        if due(before, profiles.last(), time, day) {
            earlier.push(profiles.last().id)
        } else {
            earlier
        }
    }
}

/// The memory after one wake-up.
pub open spec fn after_wake(memory: TriggerMemoryView, wake: WakeUp) -> TriggerMemoryView {
    memory.observed(wake.time).fired_all(wake.profiles, wake.time, wake.day)
}

/// The ids fired at one wake-up, in order.
pub open spec fn fired_at(memory: TriggerMemoryView, wake: WakeUp) -> Seq<Seq<char>> {
    fired_ids(memory.observed(wake.time).fired, wake.profiles, wake.time, wake.day)
}

/// The memory after a series of wake-ups.
pub open spec fn after_wakes(memory: TriggerMemoryView, wakes: Seq<WakeUp>) -> TriggerMemoryView
    decreases wakes.len(),
{
    if wakes.len() == 0 {
        memory
    } else {
        after_wake(after_wakes(memory, wakes.drop_last()), wakes.last())
    }
}

/// The ids fired over a series of wake-ups, in order.
pub open spec fn fired_during(memory: TriggerMemoryView, wakes: Seq<WakeUp>) -> Seq<Seq<char>>
    decreases wakes.len(),
{
    if wakes.len() == 0 {
        seq![]
    } else {
        fired_during(memory, wakes.drop_last()) + fired_at(
            after_wakes(memory, wakes.drop_last()),
            wakes.last(),
        )
    }
}

/// The ids fired are those of the profiles at the due positions, in the same
/// order.
pub proof fn fired_ids_are_at_due_positions(
    fired: Set<Seq<char>>,
    profiles: Seq<ProfileView>,
    time: Seq<char>,
    day: u8,
)
    ensures
        ({
            let at = due_positions(fired, profiles, time, day);
            let ids = fired_ids(fired, profiles, time, day);
            &&& ids.len() == at.len()
            &&& forall|i: int|
                0 <= i < at.len() ==> 0 <= #[trigger] at[i] < profiles.len() && ids[i]
                    == profiles[at[i]].id
            &&& forall|i: int, j: int| 0 <= i < j < at.len() ==> at[i] < at[j]
        }),
    decreases profiles.len(),
{
    if profiles.len() > 0 {
        fired_ids_are_at_due_positions(fired, profiles.drop_last(), time, day);
    }
}

/// A profile is fired exactly if it is due when its turn comes: position `k`
/// is among the due positions if and only if the profile there is due given
/// what was fired before the wake-up and by the profiles before it.
pub proof fn fired_exactly_when_due(
    fired: Set<Seq<char>>,
    profiles: Seq<ProfileView>,
    time: Seq<char>,
    day: u8,
    k: int,
)
    ensures
        due_positions(fired, profiles, time, day).contains(k) <==> 0 <= k < profiles.len() && due(
            fired_after(fired, profiles.take(k), time, day),
            profiles[k],
            time,
            day,
        ),
    decreases profiles.len(),
{
    let at = due_positions(fired, profiles, time, day);
    if profiles.len() > 0 {
        let n = profiles.len() - 1;
        let earlier = due_positions(fired, profiles.drop_last(), time, day);
        fired_exactly_when_due(fired, profiles.drop_last(), time, day, k);
        if 0 <= k < n {
            assert(profiles.drop_last().take(k) =~= profiles.take(k));
            if earlier.contains(k) {
                let i = choose|i: int| 0 <= i < earlier.len() && earlier[i] == k;
                assert(at[i] == k);
            }
        } else if k == n {
            if due(fired_after(fired, profiles.drop_last(), time, day), profiles.last(), time, day) {
                assert(at[earlier.len() as int] == k);
            }
        }
    }
}

/// Going through a list fires no id twice and none that was fired before,
/// and what is remembered afterwards is what was remembered before together
/// with the ids fired.
proof fn one_pass(fired: Set<Seq<char>>, profiles: Seq<ProfileView>, time: Seq<char>, day: u8)
    ensures
        ({
            let ids = fired_ids(fired, profiles, time, day);
            &&& ids.no_duplicates()
            &&& forall|i: int| 0 <= i < ids.len() ==> !fired.contains(#[trigger] ids[i])
            &&& fired_after(fired, profiles, time, day) == fired.union(ids.to_set())
        }),
    decreases profiles.len(),
{
    let ids = fired_ids(fired, profiles, time, day);
    if profiles.len() > 0 {
        one_pass(fired, profiles.drop_last(), time, day);
        let earlier = fired_ids(fired, profiles.drop_last(), time, day);
        let before = fired_after(fired, profiles.drop_last(), time, day);
        if due(before, profiles.last(), time, day) {
            let id = profiles.last().id;
            assert(ids.to_set() =~= earlier.to_set().insert(id)) by {
                assert forall|t: Seq<char>| ids.to_set().contains(t) implies earlier.to_set().insert(
                    id,
                ).contains(t) by {
                    let i = choose|i: int| 0 <= i < ids.len() && ids[i] == t;
                }
                assert forall|t: Seq<char>|
                    earlier.to_set().insert(id).contains(t) implies ids.to_set().contains(t) by {
                    if t == id {
                        assert(ids[earlier.len() as int] == t);
                    } else {
                        let i = choose|i: int| 0 <= i < earlier.len() && earlier[i] == t;
                        assert(ids[i] == t);
                    }
                }
            }
        }
    }
}

/// A schedule whose day list is not empty and does not hold the current
/// weekday does not fire, whatever the time and whatever was fired before.
pub proof fn wrong_weekday_never_fires(
    fired: Set<Seq<char>>,
    profiles: Seq<ProfileView>,
    time: Seq<char>,
    day: u8,
    k: int,
)
    requires
        0 <= k < profiles.len(),
        profiles[k].schedule matches Some(schedule) && schedule.days.len() > 0
            && !schedule.days.contains(day),
    ensures
        !due(fired, profiles[k], time, day),
        !due_positions(fired, profiles, time, day).contains(k),
{
    fired_exactly_when_due(fired, profiles, time, day, k);
}

/// Every profile that is fired has a schedule that is enabled, names the
/// current minute and admits the current weekday.
pub proof fn only_matching_schedules_fire(
    fired: Set<Seq<char>>,
    profiles: Seq<ProfileView>,
    time: Seq<char>,
    day: u8,
    k: int,
)
    requires
        due_positions(fired, profiles, time, day).contains(k),
    ensures
        0 <= k < profiles.len(),
        profiles[k].schedule matches Some(schedule) && applies(schedule, time, day),
{
    fired_exactly_when_due(fired, profiles, time, day, k);
}

/// A schedule with an empty day list fires on every day: if it is enabled
/// and names the current minute, the profile is due on any weekday, unless
/// it has already been fired during this minute.
pub proof fn empty_day_list_fires_every_day(
    fired: Set<Seq<char>>,
    profile: ProfileView,
    time: Seq<char>,
    day: u8,
)
    requires
        profile.schedule matches Some(schedule) && schedule.enabled && schedule.time == time
            && schedule.days.len() == 0,
        !fired.contains(profile.id),
    ensures
        due(fired, profile, time, day),
{
}

/// A schedule whose time is not written as the clock writes it never
/// fires: no reading of the clock is equal to it.
pub proof fn malformed_time_never_fires(
    fired: Set<Seq<char>>,
    profile: ProfileView,
    hour: int,
    minute: int,
    day: u8,
)
    requires
        profile.schedule matches Some(schedule) && forall|h: int, m: int|
            schedule.time != #[trigger] clock_text_spec(h, m),
    ensures
        !due(fired, profile, clock_text_spec(hour, minute), day),
{
}

/// What holds after every series of wake-ups that all read the minute
/// `time`.
spec fn settled(memory: TriggerMemoryView, wakes: Seq<WakeUp>, time: Seq<char>) -> bool {
    let ids = fired_during(memory, wakes);
    let now = after_wakes(memory, wakes);
    &&& ids.no_duplicates()
    &&& wakes.len() > 0 ==> now.last_minute == time
    &&& wakes.len() > 0 ==> forall|i: int| 0 <= i < ids.len() ==> now.fired.contains(#[trigger] ids[i])
    &&& forall|i: int|
        0 <= i < ids.len() ==> !memory.observed(time).fired.contains(#[trigger] ids[i])
    &&& wakes.len() > 0 ==> memory.observed(time).fired.subset_of(now.fired)
}

/// Within one minute a profile fires at most once, however often the loop
/// wakes up: over any series of wake-ups that all read the same minute, no
/// id is fired twice, and none that was already fired during that minute
/// before the series began. The configuration may change between the
/// wake-ups.
pub proof fn fires_once_per_minute(memory: TriggerMemoryView, wakes: Seq<WakeUp>, time: Seq<char>)
    requires
        forall|i: int| 0 <= i < wakes.len() ==> (#[trigger] wakes[i]).time == time,
    ensures
        fired_during(memory, wakes).no_duplicates(),
        forall|i: int|
            0 <= i < fired_during(memory, wakes).len() ==> !memory.observed(time).fired.contains(
                #[trigger] fired_during(memory, wakes)[i],
            ),
{
    same_minute_settles(memory, wakes, time);
}

proof fn same_minute_settles(memory: TriggerMemoryView, wakes: Seq<WakeUp>, time: Seq<char>)
    requires
        forall|i: int| 0 <= i < wakes.len() ==> (#[trigger] wakes[i]).time == time,
    ensures
        settled(memory, wakes, time),
    decreases wakes.len(),
{
    if wakes.len() > 0 {
        let earlier = wakes.drop_last();
        let wake = wakes.last();
        same_minute_settles(memory, earlier, time);
        let before = after_wakes(memory, earlier);
        let seen = before.observed(time);
        one_pass(seen.fired, wake.profiles, time, wake.day);
    }
}

/// Waking up twice within one minute fires a profile once: what the second
/// wake-up fires has no id in common with what the first one fired.
pub proof fn second_wake_in_a_minute_fires_nothing_again(
    memory: TriggerMemoryView,
    first: WakeUp,
    second: WakeUp,
)
    requires
        first.time == second.time,
    ensures
        ({
            let once = fired_at(memory, first);
            let again = fired_at(after_wake(memory, first), second);
            forall|i: int, j: int|
                0 <= i < once.len() && 0 <= j < again.len() ==> once[i] != again[j]
        }),
{
    let wakes = seq![first, second];
    fires_once_per_minute(memory, wakes, first.time);
    reveal_with_fuel(fired_during, 3);
    let once = fired_at(memory, first);
    let again = fired_at(after_wake(memory, first), second);
    let ids = fired_during(memory, wakes);
    assert forall|i: int, j: int| 0 <= i < once.len() && 0 <= j < again.len() implies once[i]
        != again[j] by {
        assert(ids[i] == once[i]);
        assert(ids[once.len() + j] == again[j]);
    }
}

/// Whether positions `at` and `at + 1` of `actions` hold the launch of an
/// enabled step of `steps` and the sleep of that step's delay, which is at
/// least the floor.
pub open spec fn launches_a_step(
    steps: Seq<StepView>,
    actions: Seq<ScheduledActionView>,
    at: int,
) -> bool {
    &&& 0 <= at
    &&& at + 1 < actions.len()
    &&& actions[at] matches ScheduledActionView::Launch { step }
    &&& 0 <= step < steps.len()
    &&& steps[step].enabled
    &&& actions[at + 1] == (ScheduledActionView::Sleep {
        millis: effective_delay_spec(steps[step].delay_after, SCHEDULED_DELAY_FLOOR_MS),
    })
    &&& effective_delay_spec(steps[step].delay_after, SCHEDULED_DELAY_FLOOR_MS)
        >= SCHEDULED_DELAY_FLOOR_MS
}

/// What a scheduled run is made of, after its announcement: launches and
/// sleeps in turn; a launch for every enabled step and for no other, in
/// list order; after each launch a sleep of the step's delay, which is at
/// least the floor. A step that fails changes nothing of this: the run is
/// laid down before its first step starts.
pub proof fn scheduled_run_launches_the_enabled_steps(steps: Seq<StepView>)
    ensures
        step_actions(steps).len() % 2 == 0,
        forall|k: int|
            0 <= k < step_actions(steps).len() && k % 2 == 0 ==> #[trigger] launches_a_step(
                steps,
                step_actions(steps),
                k,
            ),
        forall|j: int, k: int|
            0 <= j < k < step_actions(steps).len() && j % 2 == 0 && k % 2 == 0 ==> (
            #[trigger] step_actions(steps)[j])->Launch_step < (#[trigger] step_actions(
                steps,
            )[k])->Launch_step,
        forall|i: int|
            0 <= i < steps.len() && (#[trigger] steps[i]).enabled ==> step_actions(steps).contains(
                ScheduledActionView::Launch { step: i },
            ),
    decreases steps.len(),
{
    if steps.len() > 0 {
        let earlier = step_actions(steps.drop_last());
        let actions = step_actions(steps);
        scheduled_run_launches_the_enabled_steps(steps.drop_last());
        assert forall|i: int| 0 <= i < steps.len() && (#[trigger] steps[i]).enabled implies actions.contains(
            ScheduledActionView::Launch { step: i },
        ) by {
            if i < steps.len() - 1 {
                assert(steps.drop_last()[i] == steps[i]);
                let k = choose|k: int|
                    0 <= k < earlier.len() && earlier[k] == (ScheduledActionView::Launch {
                        step: i,
                    });
                assert(actions[k] == earlier[k]);
            } else {
                assert(actions[earlier.len() as int] == (ScheduledActionView::Launch { step: i }));
            }
        }
        assert forall|k: int| 0 <= k < actions.len() && k % 2 == 0 implies #[trigger] launches_a_step(
            steps,
            actions,
            k,
        ) by {
            if k < earlier.len() {
                assert(launches_a_step(steps.drop_last(), earlier, k));
            }
        }
        assert forall|j: int, k: int|
            0 <= j < k < actions.len() && j % 2 == 0 && k % 2 == 0 implies (#[trigger] actions[j])->Launch_step
            < (#[trigger] actions[k])->Launch_step by {
            if k >= earlier.len() {
                assert(launches_a_step(steps.drop_last(), earlier, j));
            }
        }
    }
}

} // verus!
