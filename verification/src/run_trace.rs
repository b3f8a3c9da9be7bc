//! Whole runs of an activation: what holds of the effects of every sequence
//! of answers that a caller may feed to the machine.

use vstd::prelude::*;
use crate::config::StepView;
use crate::orchestrator::{
    failure_reason, start, ActivationView, EffectView, InputView, NoticeView, Outcome, Phase,
    RaceResultView, Transition, DELAY_SLICE_MS,
};

verus! {

/// The state reached by a run and every effect asked for on the way.
pub struct Trace {
    pub state: ActivationView,
    pub effects: Seq<EffectView>,
}

/// Feeds `inputs` to the machine one after the other, starting in `from`.
pub open spec fn run(from: ActivationView, inputs: Seq<InputView>) -> Trace
    decreases inputs.len(),
{
    if inputs.len() == 0 {
        Trace { state: from, effects: seq![] }
    } else {
        let before = run(from, inputs.drop_last());
        let t = before.state.step(inputs.last());
        Trace { state: t.next, effects: before.effects + t.effects }
    }
}

/// How often `effects` gives the run slot back.
pub open spec fn releases(effects: Seq<EffectView>) -> nat
    decreases effects.len(),
{
    if effects.len() == 0 {
        0
    } else {
        releases(effects.drop_last()) + if effects.last() is Release {
            1nat
        } else {
            0nat
        }
    }
}

/// Whether an effect publishes the start of a step.
pub open spec fn is_progress(effect: EffectView) -> bool {
    effect matches EffectView::Notify(notice) && notice is Progress
}

/// The announcements among `effects`, in the order in which they come.
pub open spec fn announced(effects: Seq<EffectView>) -> Seq<EffectView>
    decreases effects.len(),
{
    if effects.len() == 0 {
        seq![]
    } else if is_progress(effects.last()) {
        announced(effects.drop_last()).push(effects.last())
    } else {
        announced(effects.drop_last())
    }
}

/// Whether an effect publishes the failure of a step.
pub open spec fn is_step_error(effect: EffectView) -> bool {
    effect matches EffectView::Notify(notice) && notice is StepError
}

/// The effects that announce the start of the first `count` steps.
pub open spec fn announcements(of: ActivationView, count: int) -> Seq<EffectView> {
    Seq::new(count as nat, |i: int| EffectView::Notify(of.progress(i)))
}

/// Whether an answer reports that the cancel signal was seen.
pub open spec fn reports_cancel(input: InputView) -> bool {
    match input {
        InputView::CancelFlag(raised) => raised,
        InputView::Race(result) => result is CancelSeen,
        _ => false,
    }
}

/// Number of steps that a run in this phase has started, where the phase
/// tells.
pub open spec fn started(of: ActivationView) -> Option<int> {
    match of.phase {
        Phase::Claiming => Some(0),
        Phase::Checking { index } => Some(index as int),
        Phase::Racing { index } => Some(index + 1),
        Phase::Delaying { index, .. } => Some(index + 1),
        Phase::Finished { outcome } => match outcome {
            Outcome::Completed => Some(of.steps.len() as int),
            Outcome::Cancelled => None,
            Outcome::AlreadyRunning => Some(0),
        },
    }
}

proof fn releases_of_concat(a: Seq<EffectView>, b: Seq<EffectView>)
    ensures
        releases(a + b) == releases(a) + releases(b),
    decreases b.len(),
{
    if b.len() > 0 {
        assert((a + b).drop_last() =~= a + b.drop_last());
        releases_of_concat(a, b.drop_last());
    }
}

proof fn progress_of_concat(a: Seq<EffectView>, b: Seq<EffectView>)
    ensures
        announced(a + b) == announced(a) + announced(b),
    decreases b.len(),
{
    if b.len() > 0 {
        assert((a + b).drop_last() =~= a + b.drop_last());
        progress_of_concat(a, b.drop_last());
    }
}

/// Whether a move from `from` to `next` ends a run that had claimed the slot.
pub open spec fn ends_claimed_run(from: ActivationView, next: ActivationView) -> bool {
    &&& !from.finished()
    &&& next.phase matches Phase::Finished { outcome }
    &&& outcome != Outcome::AlreadyRunning
}

/// What holds after every run that began with a fresh activation of
/// `steps`.
spec fn sound(steps: Seq<StepView>, default_delay: u64, tr: Trace) -> bool {
    let shown = announced(tr.effects);
    &&& tr.state.steps == steps
    &&& tr.state.default_delay == default_delay
    &&& tr.state.wf()
    &&& shown.len() <= steps.len()
    &&& shown == announcements(tr.state, shown.len() as int)
    &&& started(tr.state) matches Some(count) ==> shown.len() == count
    &&& match tr.state.phase {
        Phase::Claiming => tr.effects.len() == 0,
        Phase::Finished { outcome } => match outcome {
            Outcome::AlreadyRunning => tr.effects.len() == 0,
            _ => releases(tr.effects) == 1 && tr.effects.len() > 0 && tr.effects.last()
                is Release && tr.effects[0] is ClearCancel,
        },
        _ => releases(tr.effects) == 0 && tr.effects.len() > 0 && tr.effects[0] is ClearCancel,
    }
}

proof fn filter_of_one(e: EffectView)
    ensures
        announced(seq![e]) == if is_progress(e) {
            seq![e]
        } else {
            Seq::<EffectView>::empty()
        },
{
    reveal_with_fuel(announced, 2);
}

proof fn filter_of_none()
    ensures
        announced(Seq::<EffectView>::empty()) == Seq::<EffectView>::empty(),
{
}

/// The effects of one move hold at most one announcement and at most one
/// release, which then comes last.
proof fn shape_of_effects(m: ActivationView, input: InputView)
    requires
        m.wf(),
    ensures
        ({
            let t = m.step(input);
            let shown = announced(t.effects);
            &&& shown == if m.phase is Checking && input == InputView::CancelFlag(false) {
                seq![EffectView::Notify(m.progress(m.phase->Checking_index as int))]
            } else {
                Seq::<EffectView>::empty()
            }
            &&& releases(t.effects) == if ends_claimed_run(m, t.next) {
                1nat
            } else {
                0nat
            }
            &&& ends_claimed_run(m, t.next) ==> t.effects.len() > 0 && t.effects.last() is Release
            &&& m.phase is Claiming && input == InputView::Claim(true) ==> t.effects.len() > 0
                && t.effects[0] is ClearCancel
            &&& m.phase is Claiming && input != InputView::Claim(true) ==> t.effects.len() == 0
                && !t.next.holds_slot()
        }),
{
    let cancelled = seq![EffectView::Notify(NoticeView::Cancelled), EffectView::Release];
    let completed = seq![EffectView::Notify(NoticeView::Complete), EffectView::Release];
    assert(cancelled =~= seq![EffectView::Notify(NoticeView::Cancelled)] + seq![
        EffectView::Release,
    ]);
    assert(completed =~= seq![EffectView::Notify(NoticeView::Complete)] + seq![
        EffectView::Release,
    ]);
    filter_of_one(EffectView::Release);
    filter_of_one(EffectView::ClearCancel);
    filter_of_one(EffectView::Notify(NoticeView::Cancelled));
    filter_of_one(EffectView::Notify(NoticeView::Complete));
    progress_of_concat(seq![EffectView::Notify(NoticeView::Cancelled)], seq![EffectView::Release]);
    progress_of_concat(seq![EffectView::Notify(NoticeView::Complete)], seq![EffectView::Release]);
    releases_of_one(EffectView::Release);
    releases_of_one(EffectView::ClearCancel);
    releases_of_one(EffectView::Notify(NoticeView::Cancelled));
    releases_of_one(EffectView::Notify(NoticeView::Complete));
    releases_of_concat(seq![EffectView::Notify(NoticeView::Cancelled)], seq![EffectView::Release]);
    releases_of_concat(seq![EffectView::Notify(NoticeView::Complete)], seq![EffectView::Release]);
    match (m.phase, input) {
        (Phase::Claiming, InputView::Claim(claimed)) => {
            if claimed {
                let e = m.enter(0);
                progress_of_concat(seq![EffectView::ClearCancel], e.effects);
                releases_of_concat(seq![EffectView::ClearCancel], e.effects);
            }
        },
        (Phase::Checking { index }, InputView::CancelFlag(raised)) => {
            if !raised {
                filter_of_one(EffectView::Notify(m.progress(index as int)));
                releases_of_one(EffectView::Notify(m.progress(index as int)));
            }
        },
        (Phase::Racing { index }, InputView::Race(result)) => {
            if !(result is CancelSeen) {
                let a = m.after_race(index as int);
                match failure_reason(result) {
                    Some(error) => {
                        let n = EffectView::Notify(
                            NoticeView::StepError { step_name: m.steps[index as int].name, error },
                        );
                        filter_of_one(n);
                        releases_of_one(n);
                        progress_of_concat(seq![n], a.effects);
                        releases_of_concat(seq![n], a.effects);
                    },
                    None => {},
                }
            }
        },
        (Phase::Delaying { index, remaining }, InputView::CancelFlag(raised)) => {
            if !raised {
                let s = EffectView::Sleep(crate::orchestrator::delay_slice(remaining));
                filter_of_one(s);
                releases_of_one(s);
                let e = m.enter(index + 1);
                progress_of_concat(seq![s], e.effects);
                releases_of_concat(seq![s], e.effects);
            }
        },
        _ => {},
    }
}

proof fn releases_of_one(e: EffectView)
    ensures
        releases(seq![e]) == if e is Release {
            1nat
        } else {
            0nat
        },
{
    reveal_with_fuel(releases, 2);
}

proof fn run_of_one(from: ActivationView, input: InputView)
    ensures
        run(from, seq![input]) == (Trace {
            state: from.step(input).next,
            effects: from.step(input).effects,
        }),
{
    reveal_with_fuel(run, 2);
}

proof fn announcements_grow(of: ActivationView, count: int)
    requires
        0 <= count,
    ensures
        announcements(of, count + 1) == announcements(of, count) + seq![
            EffectView::Notify(of.progress(count)),
        ],
{
}

proof fn move_keeps_sound(steps: Seq<StepView>, default_delay: u64, tr: Trace, input: InputView)
    requires
        sound(steps, default_delay, tr),
    ensures
        sound(
            steps,
            default_delay,
            Trace {
                state: tr.state.step(input).next,
                effects: tr.effects + tr.state.step(input).effects,
            },
        ),
{
    let m = tr.state;
    let t = m.step(input);
    shape_of_effects(m, input);
    progress_of_concat(tr.effects, t.effects);
    releases_of_concat(tr.effects, t.effects);
    let shown = announced(tr.effects);
    assert(forall|k: int| announcements(m, k) == announcements(t.next, k));
    if m.phase is Checking && input == InputView::CancelFlag(false) {
        announcements_grow(m, shown.len() as int);
    }
}

proof fn runs_are_sound(steps: Seq<StepView>, default_delay: u64, inputs: Seq<InputView>)
    requires
        steps.len() <= usize::MAX,
    ensures
        sound(steps, default_delay, run(start(steps, default_delay), inputs)),
    decreases inputs.len(),
{
    let from = start(steps, default_delay);
    if inputs.len() == 0 {
        assert(announcements(from, 0) =~= Seq::<EffectView>::empty());
    } else {
        runs_are_sound(steps, default_delay, inputs.drop_last());
        move_keeps_sound(steps, default_delay, run(from, inputs.drop_last()), inputs.last());
    }
}

/// A run can be cut anywhere: feeding `first` and then `rest` is feeding
/// both in one go.
pub proof fn run_in_two_parts(from: ActivationView, first: Seq<InputView>, rest: Seq<InputView>)
    ensures
        run(from, first + rest).state == run(run(from, first).state, rest).state,
        run(from, first + rest).effects == run(from, first).effects + run(
            run(from, first).state,
            rest,
        ).effects,
    decreases rest.len(),
{
    if rest.len() > 0 {
        assert((first + rest).drop_last() =~= first + rest.drop_last());
        run_in_two_parts(from, first, rest.drop_last());
    }
}

/// Once an activation is over, no answer changes it and nothing more is
/// asked for: no step starts, no notice goes out, the slot is not released
/// a second time.
pub proof fn finished_is_final(from: ActivationView, inputs: Seq<InputView>)
    requires
        from.finished(),
    ensures
        run(from, inputs) == (Trace { state: from, effects: seq![] }),
    decreases inputs.len(),
{
    if inputs.len() > 0 {
        finished_is_final(from, inputs.drop_last());
    }
}

/// An activation whose claim on the run slot is refused ends at once as
/// `AlreadyRunning`. It asks for no effect, then or later: no notice, no
/// change to the cancel signal, and no release of the slot that another
/// activation holds.
pub proof fn refused_claim_is_silent(
    steps: Seq<StepView>,
    default_delay: u64,
    later: Seq<InputView>,
)
    ensures
        run(start(steps, default_delay), seq![InputView::Claim(false)] + later) == (Trace {
            state: start(steps, default_delay).at(
                Phase::Finished { outcome: Outcome::AlreadyRunning },
            ),
            effects: seq![],
        }),
{
    let from = start(steps, default_delay);
    let first = seq![InputView::Claim(false)];
    run_of_one(from, InputView::Claim(false));
    let refused = run(from, first);
    run_in_two_parts(from, first, later);
    finished_is_final(refused.state, later);
}

/// The run slot is given back exactly once by every activation that claimed
/// it and has ended, as the last thing it asks for, and never by one that is
/// still under way or whose claim was refused. So the slot is free when
/// `Completed` or `Cancelled` is reported, and held until then.
pub proof fn slot_released_exactly_at_the_end(
    steps: Seq<StepView>,
    default_delay: u64,
    inputs: Seq<InputView>,
)
    requires
        steps.len() <= usize::MAX,
    ensures
        ({
            let tr = run(start(steps, default_delay), inputs);
            match tr.state.phase {
                Phase::Finished { outcome } => if outcome == Outcome::AlreadyRunning {
                    releases(tr.effects) == 0
                } else {
                    releases(tr.effects) == 1 && tr.effects.last() is Release
                },
                _ => releases(tr.effects) == 0,
            }
        }),
{
    runs_are_sound(steps, default_delay, inputs);
}

/// Steps start strictly in list order. The announcements of a run are those
/// of the first `k` steps, each once and in list order, where `k` is the
/// number of steps started so far: the step being checked for has not
/// started, the step racing or delaying is the last one started, and a
/// completed run has started every step.
pub proof fn steps_start_in_list_order(
    steps: Seq<StepView>,
    default_delay: u64,
    inputs: Seq<InputView>,
)
    requires
        steps.len() <= usize::MAX,
    ensures
        ({
            let tr = run(start(steps, default_delay), inputs);
            let shown = announced(tr.effects);
            &&& shown.len() <= steps.len()
            &&& shown == announcements(start(steps, default_delay), shown.len() as int)
            &&& started(tr.state) matches Some(count) ==> shown.len() == count
        }),
{
    runs_are_sound(steps, default_delay, inputs);
}

/// A step starts only when the step before it is done with: the race for
/// step `index` is asked for only from the check before that step, and that
/// check is reached only from the race or the delay of step `index - 1`, or
/// from the claim when `index` is 0.
pub proof fn next_step_waits_for_the_last(from: ActivationView, input: InputView)
    requires
        from.wf(),
    ensures
        ({
            let next = from.step(input).next;
            &&& next.wf()
            &&& next.steps == from.steps
            &&& next.phase matches Phase::Racing { index } ==> from.phase == next.phase
                || from.phase == (Phase::Checking { index })
            &&& next.phase matches Phase::Checking { index } ==> from.phase == next.phase || (index
                == 0 && from.phase is Claiming) || (index > 0 && (from.phase == (Phase::Racing {
                index: (index - 1) as usize,
            }) || (from.phase matches Phase::Delaying { index: before, .. } && before == index
                - 1)))
        }),
{
}

/// A failed step does not stop the run. Whether the step returned an error,
/// ran into the ceiling or its unit of work broke down, the machine goes
/// where it would have gone had the step succeeded; the one difference is a
/// single `StepError` notice, which names the step and carries the reason
/// and comes before everything else the move asks for.
pub proof fn failure_only_adds_a_notice(from: ActivationView, result: RaceResultView)
    requires
        from.wf(),
        from.phase is Racing,
        failure_reason(result) is Some,
    ensures
        ({
            let index = from.phase->Racing_index as int;
            let failed = from.step(InputView::Race(result));
            let succeeded = from.step(InputView::Race(RaceResultView::Succeeded));
            &&& failed.next == succeeded.next
            &&& failed.effects == seq![
                EffectView::Notify(
                    NoticeView::StepError {
                        step_name: from.steps[index].name,
                        error: failure_reason(result)->0,
                    },
                ),
            ] + succeeded.effects
            &&& !(failed.next.phase matches Phase::Finished { outcome } && outcome
                != Outcome::Completed)
        }),
{
}

/// A step that runs into the ceiling is reported as failed with the reason
/// `Step timed out after 15s`, and the run goes on as after any other
/// failure.
pub proof fn timeout_is_a_step_failure(from: ActivationView)
    requires
        from.wf(),
        from.phase is Racing,
    ensures
        ({
            let index = from.phase->Racing_index as int;
            let t = from.step(InputView::Race(RaceResultView::TimedOut));
            &&& t.effects[0] == EffectView::Notify(
                NoticeView::StepError {
                    step_name: from.steps[index].name,
                    error: "Step timed out after 15s"@,
                },
            )
            &&& t.next == from.step(InputView::Race(RaceResultView::Succeeded)).next
        }),
{
}

/// A cancel request that the machine gets to see ends the run there and
/// then, wherever it stands: before a step, during a step or inside a delay.
/// The move publishes `Cancelled`, gives the slot back and asks for nothing
/// else, and nothing is asked for afterwards: no further step starts and no
/// delay is slept to its end.
pub proof fn cancel_ends_the_run(from: ActivationView, input: InputView, later: Seq<InputView>)
    requires
        from.wf(),
        from.holds_slot(),
        reports_cancel(input),
        from.phase is Racing <==> input is Race,
    ensures
        run(from, seq![input] + later) == (Trace {
            state: from.at(Phase::Finished { outcome: Outcome::Cancelled }),
            effects: seq![EffectView::Notify(NoticeView::Cancelled), EffectView::Release],
        }),
{
    let first = seq![input];
    run_of_one(from, input);
    let stopped = run(from, first);
    run_in_two_parts(from, first, later);
    finished_is_final(stopped.state, later);
}

/// Without a cancel request there is no cancelled run: if no answer reports
/// the cancel signal, the run does not end as `Cancelled`, whatever the
/// steps did.
pub proof fn only_cancel_cancels(
    steps: Seq<StepView>,
    default_delay: u64,
    inputs: Seq<InputView>,
)
    requires
        steps.len() <= usize::MAX,
        forall|i: int| 0 <= i < inputs.len() ==> !reports_cancel(#[trigger] inputs[i]),
    ensures
        run(start(steps, default_delay), inputs).state.phase != (Phase::Finished {
            outcome: Outcome::Cancelled,
        }),
    decreases inputs.len(),
{
    if inputs.len() > 0 {
        only_cancel_cancels(steps, default_delay, inputs.drop_last());
    }
}

/// An activation of no steps completes at once: the granted claim leads
/// straight to `Completed`, with `Complete` as the only notice, so no
/// `Progress` and no `StepError`.
pub proof fn empty_list_completes_at_once(default_delay: u64)
    ensures
        start(Seq::<StepView>::empty(), default_delay).step(InputView::Claim(true)) == (Transition {
            next: start(Seq::<StepView>::empty(), default_delay).at(
                Phase::Finished { outcome: Outcome::Completed },
            ),
            effects: seq![
                EffectView::ClearCancel,
                EffectView::Notify(NoticeView::Complete),
                EffectView::Release,
            ],
        }),
{
    let from = start(Seq::<StepView>::empty(), default_delay);
    assert(from.step(InputView::Claim(true)).effects =~= seq![
        EffectView::ClearCancel,
        EffectView::Notify(NoticeView::Complete),
        EffectView::Release,
    ]);
}

/// Whether the run slot is taken once `effects` have been carried out on
/// a slot that was taken or free before: a release frees it, nothing else
/// touches it.
pub open spec fn taken_after(taken: bool, effects: Seq<EffectView>) -> bool
    decreases effects.len(),
{
    if effects.len() == 0 {
        taken
    } else if effects.last() is Release {
        false
    } else {
        taken_after(taken, effects.drop_last())
    }
}

/// A move gives the slot back exactly if it ends a run that had claimed
/// it, and then once.
pub proof fn move_releases_at_the_end(from: ActivationView, input: InputView)
    requires
        from.wf(),
    ensures
        releases(from.step(input).effects) == if ends_claimed_run(from, from.step(input).next) {
            1nat
        } else {
            0nat
        },
{
    shape_of_effects(from, input);
}

/// The slot is taken after some effects exactly if it was taken before and
/// none of them gave it back.
pub proof fn taken_until_released(taken: bool, effects: Seq<EffectView>)
    ensures
        taken_after(taken, effects) == (taken && releases(effects) == 0),
    decreases effects.len(),
{
    if effects.len() > 0 {
        taken_until_released(taken, effects.drop_last());
    }
}

proof fn unreleased_stays_taken(taken: bool, effects: Seq<EffectView>)
    requires
        releases(effects) == 0,
    ensures
        taken_after(taken, effects) == taken,
    decreases effects.len(),
{
    if effects.len() > 0 {
        unreleased_stays_taken(taken, effects.drop_last());
    }
}

proof fn claimed_run_stays_claimed(from: ActivationView, inputs: Seq<InputView>)
    requires
        from.wf(),
        from.holds_slot() || (from.phase matches Phase::Finished { outcome } && outcome
            != Outcome::AlreadyRunning),
    ensures
        ({
            let to = run(from, inputs).state;
            to.holds_slot() || (to.phase matches Phase::Finished { outcome } && outcome
                != Outcome::AlreadyRunning)
        }),
        run(from, inputs).state.wf(),
    decreases inputs.len(),
{
    if inputs.len() > 0 {
        claimed_run_stays_claimed(from, inputs.drop_last());
    }
}

/// The run slot is taken exactly while the activation that claimed it is
/// under way. From a granted claim on, whatever the answers: as long as the
/// activation has not ended the slot is taken, so that any other claim is
/// refused; and once it has ended, as `Completed` or as `Cancelled`, the
/// slot is free, so that the next claim is granted.
pub proof fn slot_taken_exactly_during_the_run(
    steps: Seq<StepView>,
    default_delay: u64,
    later: Seq<InputView>,
)
    requires
        steps.len() <= usize::MAX,
    ensures
        ({
            let tr = run(start(steps, default_delay), seq![InputView::Claim(true)] + later);
            &&& taken_after(true, tr.effects) == tr.state.holds_slot()
            &&& tr.state.holds_slot() != tr.state.finished()
        }),
{
    let from = start(steps, default_delay);
    let inputs = seq![InputView::Claim(true)] + later;
    let tr = run(from, inputs);
    runs_are_sound(steps, default_delay, inputs);
    run_of_one(from, InputView::Claim(true));
    run_in_two_parts(from, seq![InputView::Claim(true)], later);
    if tr.state.holds_slot() {
        unreleased_stays_taken(true, tr.effects);
    }
}

/// The milliseconds that `effects` sleep, all in all.
pub open spec fn slept(effects: Seq<EffectView>) -> nat
    decreases effects.len(),
{
    if effects.len() == 0 {
        0
    } else {
        slept(effects.drop_last()) + match effects.last() {
            EffectView::Sleep(millis) => millis as nat,
            _ => 0nat,
        }
    }
}

/// Number of readings of the cancel signal that a delay of `remaining`
/// milliseconds takes: one before each slice.
pub open spec fn slices(remaining: u64) -> nat {
    ((remaining + DELAY_SLICE_MS - 1) / (DELAY_SLICE_MS as int)) as nat
}

/// `count` readings of a cancel signal that is not raised.
pub open spec fn quiet(count: nat) -> Seq<InputView> {
    Seq::new(count, |i: int| InputView::CancelFlag(false))
}

proof fn slept_of_concat(a: Seq<EffectView>, b: Seq<EffectView>)
    ensures
        slept(a + b) == slept(a) + slept(b),
    decreases b.len(),
{
    if b.len() > 0 {
        assert((a + b).drop_last() =~= a + b.drop_last());
        slept_of_concat(a, b.drop_last());
    }
}

proof fn slept_of_one(e: EffectView)
    ensures
        slept(seq![e]) == match e {
            EffectView::Sleep(millis) => millis as nat,
            _ => 0nat,
        },
{
    reveal_with_fuel(slept, 2);
}

/// No sleep is longer than one slice: the cancel signal is read again
/// after at most `DELAY_SLICE_MS` milliseconds of any delay. Every move
/// asks for at most one sleep, of at least one millisecond, and only after
/// a reading that found the signal lowered.
pub proof fn sleeps_are_short(from: ActivationView, input: InputView, at: int)
    requires
        from.wf(),
        0 <= at < from.step(input).effects.len(),
        from.step(input).effects[at] is Sleep,
    ensures
        at == 0,
        from.phase is Delaying,
        input == InputView::CancelFlag(false),
        0 < from.step(input).effects[at]->Sleep_0 <= DELAY_SLICE_MS,
        from.step(input).effects[at]->Sleep_0 <= from.phase->Delaying_remaining,
{
}

/// A delay that nobody cancels is slept in full: from the beginning of the
/// delay after a step, as many quiet readings as the delay has slices lead
/// to the next step, or to the end of the run after the last one, and the
/// sleeps asked for on the way add up to the delay. Together with the way
/// a delay begins, this makes the pause after a step the larger of the
/// step's own delay and the default of the run.
pub proof fn delay_is_slept_in_full(from: ActivationView)
    requires
        from.wf(),
        from.phase is Delaying,
    ensures
        ({
            let index = from.phase->Delaying_index as int;
            let remaining = from.phase->Delaying_remaining;
            let tr = run(from, quiet(slices(remaining)));
            &&& slept(tr.effects) == remaining
            &&& tr.state == from.enter(index + 1).next
        }),
    decreases from.phase->Delaying_remaining,
{
    let index = from.phase->Delaying_index as int;
    let remaining = from.phase->Delaying_remaining;
    let count = slices(remaining);
    let first = seq![InputView::CancelFlag(false)];
    let t = from.step(InputView::CancelFlag(false));
    let slice = crate::orchestrator::delay_slice(remaining);
    run_of_one(from, InputView::CancelFlag(false));
    slept_of_one(EffectView::Sleep(slice));
    if remaining <= DELAY_SLICE_MS {
        assert(quiet(count) =~= first);
        let e = from.enter(index + 1);
        slept_of_concat(seq![EffectView::Sleep(slice)], e.effects);
        reveal_with_fuel(slept, 3);
    } else {
        let rest = (remaining - DELAY_SLICE_MS) as u64;
        assert(quiet(count) =~= first + quiet(slices(rest)));
        run_in_two_parts(from, first, quiet(slices(rest)));
        delay_is_slept_in_full(t.next);
        slept_of_concat(t.effects, run(t.next, quiet(slices(rest))).effects);
    }
}

/// Whether an answer is of the kind that the machine waits for.
pub open spec fn answers(of: ActivationView, input: InputView) -> bool {
    match of.phase {
        Phase::Claiming => input is Claim,
        Phase::Checking { .. } => input is CancelFlag,
        Phase::Racing { .. } => input is Race,
        Phase::Delaying { .. } => input is CancelFlag,
        Phase::Finished { .. } => false,
    }
}

/// Most answers that the steps from position `from` on can take: for each
/// step a reading before it, its race, and a reading for each slice of its
/// delay.
pub open spec fn answers_for_steps(of: ActivationView, from: int) -> nat
    decreases of.steps.len() - from,
{
    if from < 0 || from >= of.steps.len() {
        0
    } else {
        2 + slices(
            crate::orchestrator::effective_delay_spec(of.steps[from].delay_after, of.default_delay),
        ) + answers_for_steps(of, from + 1)
    }
}

/// Most answers that the activation can still take before it is over.
pub open spec fn answers_left(of: ActivationView) -> nat {
    match of.phase {
        Phase::Claiming => answers_for_steps(of, 0) + 2,
        Phase::Checking { index } => answers_for_steps(of, index as int) + 1,
        Phase::Racing { index } => answers_for_steps(of, index as int),
        Phase::Delaying { index, remaining } => answers_for_steps(of, index + 1) + 1 + slices(
            remaining,
        ),
        Phase::Finished { .. } => 0,
    }
}

/// Every activation comes to an end: each answer of the kind that the
/// machine waits for brings the end nearer, so that a caller who keeps
/// answering reaches `Completed`, `Cancelled` or `AlreadyRunning` after a
/// number of answers that the list of steps and their delays bound.
pub proof fn every_answer_brings_the_end_nearer(from: ActivationView, input: InputView)
    requires
        from.wf(),
        answers(from, input),
    ensures
        answers_left(from.step(input).next) < answers_left(from),
        from.step(input).next.wf(),
{
    let next = from.step(input).next;
    assert(forall|i: int| answers_for_steps(next, i) == answers_for_steps(from, i)) by {
        assert forall|i: int| answers_for_steps(next, i) == answers_for_steps(from, i) by {
            same_steps_same_answers(from, next, i);
        }
    }
    match from.phase {
        Phase::Racing { index } => {
        },
        Phase::Delaying { index, remaining } => {
        },
        _ => {},
    }
}

proof fn same_steps_same_answers(a: ActivationView, b: ActivationView, from: int)
    requires
        a.steps == b.steps,
        a.default_delay == b.default_delay,
    ensures
        answers_for_steps(a, from) == answers_for_steps(b, from),
    decreases a.steps.len() - from,
{
    if 0 <= from < a.steps.len() {
        same_steps_same_answers(a, b, from + 1);
    }
}

/// Whether an effect publishes the end of a run.
pub open spec fn is_closing(effect: EffectView) -> bool {
    effect == EffectView::Notify(NoticeView::Complete) || effect == EffectView::Notify(
        NoticeView::Cancelled,
    )
}

/// How often `effects` publishes the end of a run.
pub open spec fn closings(effects: Seq<EffectView>) -> nat
    decreases effects.len(),
{
    if effects.len() == 0 {
        0
    } else {
        closings(effects.drop_last()) + if is_closing(effects.last()) {
            1nat
        } else {
            0nat
        }
    }
}

/// The notice that goes with an outcome.
pub open spec fn closing_notice(outcome: Outcome) -> Option<NoticeView> {
    match outcome {
        Outcome::Completed => Some(NoticeView::Complete),
        Outcome::Cancelled => Some(NoticeView::Cancelled),
        Outcome::AlreadyRunning => None,
    }
}

proof fn closings_of_concat(a: Seq<EffectView>, b: Seq<EffectView>)
    ensures
        closings(a + b) == closings(a) + closings(b),
    decreases b.len(),
{
    if b.len() > 0 {
        assert((a + b).drop_last() =~= a + b.drop_last());
        closings_of_concat(a, b.drop_last());
    }
}

proof fn closings_of_one(e: EffectView)
    ensures
        closings(seq![e]) == if is_closing(e) {
            1nat
        } else {
            0nat
        },
{
    reveal_with_fuel(closings, 2);
}

/// What holds of the closing notices after every run of a fresh
/// activation.
spec fn closed(tr: Trace) -> bool {
    &&& tr.state.wf()
    &&& match tr.state.phase {
        Phase::Finished { outcome } => match closing_notice(outcome) {
            Some(notice) => closings(tr.effects) == 1 && tr.effects.len() >= 2
                && tr.effects[tr.effects.len() - 2] == EffectView::Notify(notice),
            None => tr.effects.len() == 0,
        },
        Phase::Claiming => tr.effects.len() == 0,
        _ => closings(tr.effects) == 0,
    }
}

proof fn move_keeps_closed(tr: Trace, input: InputView)
    requires
        closed(tr),
    ensures
        closed(
            Trace {
                state: tr.state.step(input).next,
                effects: tr.effects + tr.state.step(input).effects,
            },
        ),
{
    let m = tr.state;
    let t = m.step(input);
    let cancelled = seq![EffectView::Notify(NoticeView::Cancelled), EffectView::Release];
    let completed = seq![EffectView::Notify(NoticeView::Complete), EffectView::Release];
    closings_of_concat(tr.effects, t.effects);
    closings_of_one(EffectView::Release);
    closings_of_one(EffectView::ClearCancel);
    closings_of_one(EffectView::Notify(NoticeView::Cancelled));
    closings_of_one(EffectView::Notify(NoticeView::Complete));
    assert(cancelled =~= seq![EffectView::Notify(NoticeView::Cancelled)] + seq![
        EffectView::Release,
    ]);
    assert(completed =~= seq![EffectView::Notify(NoticeView::Complete)] + seq![
        EffectView::Release,
    ]);
    closings_of_concat(seq![EffectView::Notify(NoticeView::Cancelled)], seq![EffectView::Release]);
    closings_of_concat(seq![EffectView::Notify(NoticeView::Complete)], seq![EffectView::Release]);
    match (m.phase, input) {
        (Phase::Claiming, InputView::Claim(claimed)) => {
            if claimed {
                let e = m.enter(0);
                closings_of_concat(seq![EffectView::ClearCancel], e.effects);
            }
        },
        (Phase::Checking { index }, InputView::CancelFlag(raised)) => {
            if !raised {
                closings_of_one(EffectView::Notify(m.progress(index as int)));
            }
        },
        (Phase::Racing { index }, InputView::Race(result)) => {
            if !(result is CancelSeen) {
                let a = m.after_race(index as int);
                match failure_reason(result) {
                    Some(error) => {
                        let n = EffectView::Notify(
                            NoticeView::StepError { step_name: m.steps[index as int].name, error },
                        );
                        closings_of_one(n);
                        closings_of_concat(seq![n], a.effects);
                    },
                    None => {},
                }
            }
        },
        (Phase::Delaying { index, remaining }, InputView::CancelFlag(raised)) => {
            if !raised {
                let s = EffectView::Sleep(crate::orchestrator::delay_slice(remaining));
                let e = m.enter(index + 1);
                closings_of_one(s);
                closings_of_concat(seq![s], e.effects);
            }
        },
        _ => {
        },
    }
}

/// Every run that claimed the slot closes with its own notice, once: a
/// completed run publishes `Complete` and never `Cancelled`, a cancelled
/// run publishes `Cancelled` and never `Complete`, in both cases right
/// before the slot is given back, and a run that is still under way has
/// published neither. A refused claim publishes nothing.
pub proof fn run_closes_with_its_notice(
    steps: Seq<StepView>,
    default_delay: u64,
    inputs: Seq<InputView>,
)
    requires
        steps.len() <= usize::MAX,
    ensures
        ({
            let tr = run(start(steps, default_delay), inputs);
            match tr.state.phase {
                Phase::Finished { outcome } => match closing_notice(outcome) {
                    Some(notice) => closings(tr.effects) == 1 && tr.effects.len() >= 2
                        && tr.effects[tr.effects.len() - 2] == EffectView::Notify(notice)
                        && tr.effects.last() is Release,
                    None => tr.effects.len() == 0,
                },
                _ => closings(tr.effects) == 0,
            }
        }),
{
    runs_are_closed(steps, default_delay, inputs);
    runs_are_sound(steps, default_delay, inputs);
}

proof fn runs_are_closed(steps: Seq<StepView>, default_delay: u64, inputs: Seq<InputView>)
    requires
        steps.len() <= usize::MAX,
    ensures
        closed(run(start(steps, default_delay), inputs)),
    decreases inputs.len(),
{
    if inputs.len() > 0 {
        runs_are_closed(steps, default_delay, inputs.drop_last());
        move_keeps_closed(run(start(steps, default_delay), inputs.drop_last()), inputs.last());
    }
}

/// A cancel request made while no activation is under way does not reach
/// the next one: the first thing that a granted claim asks for is to lower
/// the cancel signal, before anything reads it.
pub proof fn claim_clears_the_cancel_signal(steps: Seq<StepView>, default_delay: u64)
    ensures
        start(steps, default_delay).step(InputView::Claim(true)).effects.len() > 0,
        start(steps, default_delay).step(InputView::Claim(true)).effects[0]
            == EffectView::ClearCancel,
        start(steps, default_delay).awaited() == crate::orchestrator::Request::Claim,
{
}

/// How often `effects` publishes the failure of a step.
pub open spec fn step_errors(effects: Seq<EffectView>) -> nat
    decreases effects.len(),
{
    if effects.len() == 0 {
        0
    } else {
        step_errors(effects.drop_last()) + if is_step_error(effects.last()) {
            1nat
        } else {
            0nat
        }
    }
}

/// Whether an answer reports a step that failed, to a machine that waits
/// for the result of that step.
pub open spec fn reports_failure(of: ActivationView, input: InputView) -> bool {
    &&& of.phase is Racing
    &&& input matches InputView::Race(result)
    &&& failure_reason(result) is Some
}

/// Number of steps that failed in the course of a run.
pub open spec fn failed_steps(from: ActivationView, inputs: Seq<InputView>) -> nat
    decreases inputs.len(),
{
    if inputs.len() == 0 {
        0
    } else {
        failed_steps(from, inputs.drop_last()) + if reports_failure(
            run(from, inputs.drop_last()).state,
            inputs.last(),
        ) {
            1nat
        } else {
            0nat
        }
    }
}

proof fn step_errors_of_concat(a: Seq<EffectView>, b: Seq<EffectView>)
    ensures
        step_errors(a + b) == step_errors(a) + step_errors(b),
    decreases b.len(),
{
    if b.len() > 0 {
        assert((a + b).drop_last() =~= a + b.drop_last());
        step_errors_of_concat(a, b.drop_last());
    }
}

proof fn step_errors_of_one(e: EffectView)
    ensures
        step_errors(seq![e]) == if is_step_error(e) {
            1nat
        } else {
            0nat
        },
{
    reveal_with_fuel(step_errors, 2);
}

proof fn step_errors_of_move(m: ActivationView, input: InputView)
    requires
        m.wf(),
    ensures
        step_errors(m.step(input).effects) == if reports_failure(m, input) {
            1nat
        } else {
            0nat
        },
{
    let cancelled = seq![EffectView::Notify(NoticeView::Cancelled), EffectView::Release];
    let completed = seq![EffectView::Notify(NoticeView::Complete), EffectView::Release];
    step_errors_of_one(EffectView::Release);
    step_errors_of_one(EffectView::ClearCancel);
    step_errors_of_one(EffectView::Notify(NoticeView::Cancelled));
    step_errors_of_one(EffectView::Notify(NoticeView::Complete));
    assert(cancelled =~= seq![EffectView::Notify(NoticeView::Cancelled)] + seq![
        EffectView::Release,
    ]);
    assert(completed =~= seq![EffectView::Notify(NoticeView::Complete)] + seq![
        EffectView::Release,
    ]);
    step_errors_of_concat(
        seq![EffectView::Notify(NoticeView::Cancelled)],
        seq![EffectView::Release],
    );
    step_errors_of_concat(seq![EffectView::Notify(NoticeView::Complete)], seq![EffectView::Release]);
    match (m.phase, input) {
        (Phase::Claiming, InputView::Claim(claimed)) => {
            if claimed {
                step_errors_of_concat(seq![EffectView::ClearCancel], m.enter(0).effects);
            }
        },
        (Phase::Checking { index }, InputView::CancelFlag(raised)) => {
            if !raised {
                step_errors_of_one(EffectView::Notify(m.progress(index as int)));
            }
        },
        (Phase::Racing { index }, InputView::Race(result)) => {
            if !(result is CancelSeen) {
                let a = m.after_race(index as int);
                match failure_reason(result) {
                    Some(error) => {
                        let n = EffectView::Notify(
                            NoticeView::StepError { step_name: m.steps[index as int].name, error },
                        );
                        step_errors_of_one(n);
                        step_errors_of_concat(seq![n], a.effects);
                    },
                    None => {},
                }
            }
        },
        (Phase::Delaying { index, remaining }, InputView::CancelFlag(raised)) => {
            if !raised {
                let s = EffectView::Sleep(crate::orchestrator::delay_slice(remaining));
                step_errors_of_one(s);
                step_errors_of_concat(seq![s], m.enter(index + 1).effects);
            }
        },
        _ => {},
    }
}

/// Each failed step is published once: over any run, the number of
/// `StepError` notices is the number of steps whose race ended in an error,
/// in the ceiling or in a breakdown. A step that succeeded or was cancelled
/// publishes none.
pub proof fn each_failure_is_published_once(
    steps: Seq<StepView>,
    default_delay: u64,
    inputs: Seq<InputView>,
)
    requires
        steps.len() <= usize::MAX,
    ensures
        step_errors(run(start(steps, default_delay), inputs).effects) == failed_steps(
            start(steps, default_delay),
            inputs,
        ),
    decreases inputs.len(),
{
    if inputs.len() > 0 {
        let from = start(steps, default_delay);
        let before = run(from, inputs.drop_last());
        each_failure_is_published_once(steps, default_delay, inputs.drop_last());
        runs_are_sound(steps, default_delay, inputs.drop_last());
        step_errors_of_move(before.state, inputs.last());
        step_errors_of_concat(before.effects, before.state.step(inputs.last()).effects);
    }
}

} // verus!
