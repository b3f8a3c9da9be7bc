//! Several activations on one run state: what holds when their moves
//! interleave in any order.
//!
//! The run state is two cells that are read and written atomically, so a
//! run of several activations side by side is some interleaving of their
//! moves and of cancel requests. The model here takes one cell access at a
//! time: a claim tests and sets the slot in one go, a reading reads the
//! cancel signal as it stands then.

use vstd::prelude::*;
use crate::orchestrator::{ActivationView, EffectView, InputView, Outcome, Phase, RaceResultView, Request};
use crate::run_trace::{move_releases_at_the_end, taken_after, taken_until_released};

verus! {

/// The run state and the activations that share it.
pub struct Shared {
    /// Whether the run slot is taken.
    pub taken: bool,
    /// Whether the cancel signal is raised.
    pub cancel: bool,
    pub runs: Seq<ActivationView>,
}

/// Something that happens to the shared state.
pub enum Event {
    /// Activation `who` gets what it waits for and makes its move. A claim
    /// and a reading are answered by the cells; `race` is how its step
    /// ended, if it waits for that.
    Move { who: int, race: RaceResultView },
    /// Somebody asks for the activation under way to be cancelled.
    RequestCancel,
}

/// Whether the cancel signal is raised once `effects` have been carried
/// out.
pub open spec fn raised_after(raised: bool, effects: Seq<EffectView>) -> bool
    decreases effects.len(),
{
    if effects.len() == 0 {
        raised
    } else if effects.last() is ClearCancel {
        false
    } else {
        raised_after(raised, effects.drop_last())
    }
}

impl Shared {
    /// The answer that activation `who` gets from the cells, or `race`
    /// where it waits for the end of a step.
    pub open spec fn answer(self, who: int, race: RaceResultView) -> InputView {
        match self.runs[who].awaited() {
            Request::Claim => InputView::Claim(!self.taken),
            Request::ReadCancel => InputView::CancelFlag(self.cancel),
            _ => InputView::Race(race),
        }
    }

    /// The shared state after an event. A granted claim takes the slot; the
    /// effects of the move are carried out on the cells.
    pub open spec fn after(self, event: Event) -> Shared {
        match event {
            Event::RequestCancel => Shared { cancel: true, ..self },
            Event::Move { who, race } => if 0 <= who < self.runs.len() {
                let input = self.answer(who, race);
                let t = self.runs[who].step(input);
                Shared {
                    taken: taken_after(self.taken || input == InputView::Claim(true), t.effects),
                    cancel: raised_after(self.cancel, t.effects),
                    runs: self.runs.update(who, t.next),
                }
            } else {
                self
            },
        }
    }

    /// The shared state after a series of events.
    pub open spec fn after_all(self, events: Seq<Event>) -> Shared
        decreases events.len(),
    {
        if events.len() == 0 {
            self
        } else {
            self.after_all(events.drop_last()).after(events.last())
        }
    }

    /// Nothing has happened yet: the slot is free and no activation has
    /// made a move.
    pub open spec fn fresh(self) -> bool {
        &&& !self.taken
        &&& forall|i: int|
            0 <= i < self.runs.len() ==> (#[trigger] self.runs[i]).phase is Claiming
                && self.runs[i].wf()
    }

    /// At most one activation holds the slot, and the slot is taken exactly
    /// if one does.
    pub open spec fn exclusive(self) -> bool {
        &&& forall|i: int| 0 <= i < self.runs.len() ==> (#[trigger] self.runs[i]).wf()
        &&& forall|i: int, j: int|
            0 <= i < j < self.runs.len() ==> !((#[trigger] self.runs[i]).holds_slot()
                && (#[trigger] self.runs[j]).holds_slot())
        &&& self.taken <==> exists|i: int|
            0 <= i < self.runs.len() && (#[trigger] self.runs[i]).holds_slot()
    }
}

/// What one move does to the slot: it frees the slot exactly if it ends a
/// run that held it, and a granted claim on an empty list frees the slot
/// that it took.
proof fn move_and_slot(m: ActivationView, input: InputView, taken: bool)
    requires
        m.wf(),
        input is Claim ==> m.phase is Claiming,
    ensures
        ({
            let t = m.step(input);
            let now = taken_after(taken || input == InputView::Claim(true), t.effects);
            &&& t.next.wf()
            &&& m.holds_slot() && t.next.holds_slot() ==> now == taken
            &&& m.holds_slot() && !t.next.holds_slot() ==> !now
            &&& m.phase is Claiming && input == InputView::Claim(true) ==> now
                == t.next.holds_slot()
            &&& m.phase is Claiming && input != InputView::Claim(true) ==> now == taken
                && !t.next.holds_slot()
            &&& m.finished() ==> now == (taken || input == InputView::Claim(true)) && t.next == m
            &&& !m.holds_slot() && !(m.phase is Claiming) ==> !t.next.holds_slot()
        }),
{
    let t = m.step(input);
    move_releases_at_the_end(m, input);
    taken_until_released(taken || input == InputView::Claim(true), t.effects);
}

/// An event keeps the slot exclusive.
proof fn event_keeps_exclusive(s: Shared, event: Event)
    requires
        s.exclusive(),
    ensures
        s.after(event).exclusive(),
{
    match event {
        Event::RequestCancel => {
            let next = s.after(event);
            assert(next.runs == s.runs);
        },
        Event::Move { who, race } => {
            if 0 <= who < s.runs.len() {
                let m = s.runs[who];
                let input = s.answer(who, race);
                let t = m.step(input);
                let next = s.after(event);
                move_and_slot(m, input, s.taken);
                assert forall|i: int| 0 <= i < next.runs.len() implies (#[trigger] next.runs[i]).wf() by {
                    if i != who {
                        assert(next.runs[i] == s.runs[i]);
                    }
                }
                assert forall|i: int, j: int| 0 <= i < j < next.runs.len() implies !((
                #[trigger] next.runs[i]).holds_slot() && (#[trigger] next.runs[j]).holds_slot()) by {
                    if i != who && j != who {
                        assert(next.runs[i] == s.runs[i] && next.runs[j] == s.runs[j]);
                    } else {
                        let other = if i == who {
                            j
                        } else {
                            i
                        };
                        assert(next.runs[other] == s.runs[other]);
                        if s.runs[other].holds_slot() && t.next.holds_slot() {
                            // the other one held the slot before, so the
                            // slot was taken and no claim was granted
                            assert(s.taken);
                            assert(m.holds_slot());
                            assert(s.runs[who].holds_slot());
                        }
                    }
                }
                if next.taken {
                    if t.next.holds_slot() {
                        assert(next.runs[who].holds_slot());
                    } else {
                        // the move neither took nor freed the slot
                        assert(s.taken);
                        let holder = choose|i: int|
                            0 <= i < s.runs.len() && (#[trigger] s.runs[i]).holds_slot();
                        assert(holder != who);
                        assert(next.runs[holder] == s.runs[holder]);
                        assert(next.runs[holder].holds_slot());
                    }
                }
                if exists|i: int| 0 <= i < next.runs.len() && (#[trigger] next.runs[i]).holds_slot() {
                    let holder = choose|i: int|
                        0 <= i < next.runs.len() && (#[trigger] next.runs[i]).holds_slot();
                    if holder != who {
                        assert(next.runs[holder] == s.runs[holder]);
                        assert(s.runs[holder].holds_slot());
                        assert(s.taken);
                        if m.holds_slot() {
                            assert(s.runs[who].holds_slot());
                        }
                    }
                }
            }
        },
    }
}

/// At most one activation holds the run slot at any time. Start with a
/// free slot and any number of activations that have not made a move, and
/// let their moves and cancel requests interleave in any order: never do
/// two of them hold the slot, and the slot is taken exactly while one of
/// them holds it.
pub proof fn at_most_one_holds_the_slot(from: Shared, events: Seq<Event>)
    requires
        from.fresh(),
    ensures
        from.after_all(events).exclusive(),
    decreases events.len(),
{
    if events.len() > 0 {
        at_most_one_holds_the_slot(from, events.drop_last());
        event_keeps_exclusive(from.after_all(events.drop_last()), events.last());
    }
}

/// While one activation holds the slot, every other claim is refused: the
/// claimant ends at once as `AlreadyRunning`, asks for nothing, and leaves
/// the slot and the cancel signal as they are.
pub proof fn claim_during_a_run_is_refused(s: Shared, who: int, holder: int, race: RaceResultView)
    requires
        s.exclusive(),
        0 <= who < s.runs.len(),
        0 <= holder < s.runs.len(),
        s.runs[holder].holds_slot(),
        s.runs[who].phase is Claiming,
    ensures
        ({
            let next = s.after(Event::Move { who, race });
            &&& next.runs[who].phase == (Phase::Finished { outcome: Outcome::AlreadyRunning })
            &&& s.runs[who].step(s.answer(who, race)).effects.len() == 0
            &&& next.taken == s.taken
            &&& next.cancel == s.cancel
            &&& next.runs[holder] == s.runs[holder]
        }),
{
    assert(s.taken);
}

/// Once the activation that held the slot has ended, the next claim is
/// granted: with no holder left the slot is free, and the claimant takes it
/// or, if it has no steps, completes at once.
pub proof fn claim_after_a_run_is_granted(s: Shared, who: int, race: RaceResultView)
    requires
        s.exclusive(),
        0 <= who < s.runs.len(),
        s.runs[who].phase is Claiming,
        forall|i: int| 0 <= i < s.runs.len() ==> !(#[trigger] s.runs[i]).holds_slot(),
    ensures
        s.answer(who, race) == InputView::Claim(true),
        ({
            let next = s.after(Event::Move { who, race });
            next.runs[who].holds_slot() || next.runs[who].phase == (Phase::Finished {
                outcome: Outcome::Completed,
            })
        }),
{
}

} // verus!
