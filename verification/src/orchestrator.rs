//! The interactive activation as a state machine.
//!
//! An `Activation` never sleeps, starts a process or publishes anything. It
//! says what it is waiting for (`awaits`), takes the answer (`advance`) and
//! hands back the effects to carry out, in order. The caller owns the loop:
//! it claims the run slot, reads the cancel signal, runs a step against the
//! cancel signal and the ceiling, sleeps, publishes notices and releases the
//! slot, exactly when the machine says so.

use vstd::prelude::*;
use crate::config::{step_views, Step, StepView};

verus! {

/// Ceiling on the time one step may take before it counts as failed.
pub const STEP_CEILING_MS: u64 = 15_000;

/// Interval at which the cancel signal is read while a step runs.
pub const CANCEL_POLL_MS: u64 = 50;

/// Longest uninterrupted sleep inside a delay.
pub const DELAY_SLICE_MS: u64 = 100;

/// How an activation ended.
#[derive(Clone, Copy, Debug, PartialEq, Eq, Structural)]
pub enum Outcome {
    Completed,
    Cancelled,
    AlreadyRunning,
}

/// Where an activation stands.
#[derive(Clone, Copy, Debug, PartialEq, Eq, Structural)]
pub enum Phase {
    /// Nothing has happened yet; the run slot has to be claimed.
    Claiming,
    /// About to start step `index`; the cancel signal has to be read first.
    Checking { index: usize },
    /// Step `index` is running against the cancel signal and the ceiling.
    Racing { index: usize },
    /// `remaining` milliseconds of the delay after step `index` are left.
    Delaying { index: usize, remaining: u64 },
    /// The activation is over.
    Finished { outcome: Outcome },
}

/// What the machine waits for.
#[derive(Clone, Copy, Debug, PartialEq, Eq, Structural)]
pub enum Request {
    /// Claim the run slot and report whether the claim succeeded.
    Claim,
    /// Read the cancel signal and report its value.
    ReadCancel,
    /// Run step `index` until it returns, the cancel signal is seen (read
    /// every `poll_ms`), or `ceiling_ms` have passed, and report which.
    Race { index: usize, ceiling_ms: u64, poll_ms: u64 },
    /// Nothing: the activation is over.
    Done { outcome: Outcome },
}

/// How the race for one step was decided.
#[derive(Clone, Debug, PartialEq, Eq)]
pub enum RaceResult {
    /// The step returned without error.
    Succeeded,
    /// The step returned this error.
    Failed(String),
    /// The unit of work that ran the step broke down, with this description.
    Faulted(String),
    /// The cancel signal was seen first.
    CancelSeen,
    /// The ceiling passed first.
    TimedOut,
}

/// An answer to a `Request`.
#[derive(Clone, Debug, PartialEq, Eq)]
pub enum Input {
    /// Whether the run slot was claimed.
    Claim(bool),
    /// The value read from the cancel signal.
    CancelFlag(bool),
    /// How the race was decided.
    Race(RaceResult),
}

/// A message for the notification sink.
#[derive(Clone, Debug, PartialEq, Eq)]
pub enum Notice {
    Progress { step_name: String, current: usize, total: usize },
    StepError { step_name: String, error: String },
    Cancelled,
    Complete,
    ScheduledLaunchStarted { profile_name: String },
}

/// Something the caller has to do, in the order given.
#[derive(Clone, Debug, PartialEq, Eq)]
pub enum Effect {
    /// Lower the cancel signal.
    ClearCancel,
    /// Publish the notice. A failure to publish is ignored.
    Notify(Notice),
    /// Sleep this many milliseconds.
    Sleep(u64),
    /// Give the run slot back.
    Release,
}

pub enum RaceResultView {
    Succeeded,
    Failed(Seq<char>),
    Faulted(Seq<char>),
    CancelSeen,
    TimedOut,
}

pub enum InputView {
    Claim(bool),
    CancelFlag(bool),
    Race(RaceResultView),
}

pub enum NoticeView {
    Progress { step_name: Seq<char>, current: int, total: int },
    StepError { step_name: Seq<char>, error: Seq<char> },
    Cancelled,
    Complete,
    ScheduledLaunchStarted { profile_name: Seq<char> },
}

pub enum EffectView {
    ClearCancel,
    Notify(NoticeView),
    Sleep(u64),
    Release,
}

impl View for RaceResult {
    type V = RaceResultView;

    open spec fn view(&self) -> RaceResultView {
        match *self {
            RaceResult::Succeeded => RaceResultView::Succeeded,
            RaceResult::Failed(e) => RaceResultView::Failed(e@),
            RaceResult::Faulted(e) => RaceResultView::Faulted(e@),
            RaceResult::CancelSeen => RaceResultView::CancelSeen,
            RaceResult::TimedOut => RaceResultView::TimedOut,
        }
    }
}

impl View for Input {
    type V = InputView;

    open spec fn view(&self) -> InputView {
        match *self {
            Input::Claim(b) => InputView::Claim(b),
            Input::CancelFlag(b) => InputView::CancelFlag(b),
            Input::Race(r) => InputView::Race(r@),
        }
    }
}

impl View for Notice {
    type V = NoticeView;

    open spec fn view(&self) -> NoticeView {
        match *self {
            Notice::Progress { step_name, current, total } => NoticeView::Progress {
                step_name: step_name@,
                current: current as int,
                total: total as int,
            },
            Notice::StepError { step_name, error } => NoticeView::StepError {
                step_name: step_name@,
                error: error@,
            },
            Notice::Cancelled => NoticeView::Cancelled,
            Notice::Complete => NoticeView::Complete,
            Notice::ScheduledLaunchStarted { profile_name } => NoticeView::ScheduledLaunchStarted {
                profile_name: profile_name@,
            },
        }
    }
}

impl View for Effect {
    type V = EffectView;

    open spec fn view(&self) -> EffectView {
        match *self {
            Effect::ClearCancel => EffectView::ClearCancel,
            Effect::Notify(n) => EffectView::Notify(n@),
            Effect::Sleep(ms) => EffectView::Sleep(ms),
            Effect::Release => EffectView::Release,
        }
    }
}

/// The views of a sequence of effects, position by position.
pub open spec fn effect_views(effects: Seq<Effect>) -> Seq<EffectView> {
    Seq::new(effects.len(), |i: int| effects[i]@)
}

/// The larger of a step's own delay and the floor that applies to the run.
pub open spec fn effective_delay_spec(delay_after: u64, floor: u64) -> u64 {
    if delay_after >= floor {
        delay_after
    } else {
        floor
    }
}

/// Milliseconds to wait after a step: its own delay, but never less than
/// `floor`.
pub fn effective_delay(delay_after: u64, floor: u64) -> (delay: u64)
    ensures
        delay == effective_delay_spec(delay_after, floor),
{
    if delay_after >= floor {
        delay_after
    } else {
        floor
    }
}

/// The part of a delay that is slept in one piece.
pub open spec fn delay_slice(remaining: u64) -> u64 {
    if remaining <= DELAY_SLICE_MS {
        remaining
    } else {
        DELAY_SLICE_MS
    }
}

/// An activation as mathematical values: the steps, the delay floor and the
/// phase.
pub struct ActivationView {
    pub steps: Seq<StepView>,
    pub default_delay: u64,
    pub phase: Phase,
}

/// One move of the machine: the state it leads to and the effects it asks for.
pub struct Transition {
    pub next: ActivationView,
    pub effects: Seq<EffectView>,
}

impl ActivationView {
    /// The list is one that a machine can hold, the phase names a step of
    /// it, and a delay in progress has time left.
    pub open spec fn wf(self) -> bool {
        &&& self.steps.len() <= usize::MAX
        &&& match self.phase {
            Phase::Claiming => true,
            Phase::Checking { index } => index < self.steps.len(),
            Phase::Racing { index } => index < self.steps.len(),
            Phase::Delaying { index, remaining } => index < self.steps.len() && remaining > 0,
            Phase::Finished { .. } => true,
        }
    }

    /// The same activation in another phase.
    pub open spec fn at(self, phase: Phase) -> ActivationView {
        ActivationView { phase, ..self }
    }

    /// Whether the activation holds the run slot: it has claimed it and has
    /// not yet given it back.
    pub open spec fn holds_slot(self) -> bool {
        self.phase is Checking || self.phase is Racing || self.phase is Delaying
    }

    /// Whether the activation is over.
    pub open spec fn finished(self) -> bool {
        self.phase is Finished
    }

    /// The notice that announces step `index`.
    pub open spec fn progress(self, index: int) -> NoticeView {
        NoticeView::Progress {
            step_name: self.steps[index].name,
            current: index + 1,
            total: self.steps.len() as int,
        }
    }

    /// The move that stops the run on a cancel request.
    pub open spec fn cancel(self) -> Transition {
        Transition {
            next: self.at(Phase::Finished { outcome: Outcome::Cancelled }),
            effects: seq![EffectView::Notify(NoticeView::Cancelled), EffectView::Release],
        }
    }

    /// The move that takes the run to step `index`, or ends it when the list
    /// is exhausted.
    pub open spec fn enter(self, index: int) -> Transition {
        if index < self.steps.len() {
            Transition { next: self.at(Phase::Checking { index: index as usize }), effects: seq![] }
        } else {
            Transition {
                next: self.at(Phase::Finished { outcome: Outcome::Completed }),
                effects: seq![EffectView::Notify(NoticeView::Complete), EffectView::Release],
            }
        }
    }

    /// The move that follows the race for step `index`, whatever its result:
    /// into the delay if there is one, on to the next step otherwise.
    pub open spec fn after_race(self, index: int) -> Transition {
        let delay = effective_delay_spec(self.steps[index].delay_after, self.default_delay);
        if delay > 0 {
            Transition {
                next: self.at(Phase::Delaying { index: index as usize, remaining: delay }),
                effects: seq![],
            }
        } else {
            self.enter(index + 1)
        }
    }

    /// The move that sleeps one slice of the delay after step `index`.
    pub open spec fn sleep_on(self, index: int, remaining: u64) -> Transition {
        let slice = delay_slice(remaining);
        let rest = (remaining - slice) as u64;
        if rest > 0 {
            Transition {
                next: self.at(Phase::Delaying { index: index as usize, remaining: rest }),
                effects: seq![EffectView::Sleep(slice)],
            }
        } else {
            let t = self.enter(index + 1);
            Transition { next: t.next, effects: seq![EffectView::Sleep(slice)] + t.effects }
        }
    }

    /// What the machine waits for in this state.
    pub open spec fn awaited(self) -> Request {
        match self.phase {
            Phase::Claiming => Request::Claim,
            Phase::Checking { .. } => Request::ReadCancel,
            Phase::Racing { index } => Request::Race {
                index,
                ceiling_ms: STEP_CEILING_MS,
                poll_ms: CANCEL_POLL_MS,
            },
            Phase::Delaying { .. } => Request::ReadCancel,
            Phase::Finished { outcome } => Request::Done { outcome },
        }
    }

    /// The move that `input` causes. An input that does not answer what the
    /// machine waits for changes nothing and asks for nothing.
    pub open spec fn step(self, input: InputView) -> Transition {
        match (self.phase, input) {
            (Phase::Claiming, InputView::Claim(claimed)) => {
                if claimed {
                    let t = self.enter(0);
                    Transition { next: t.next, effects: seq![EffectView::ClearCancel] + t.effects }
                } else {
                    Transition {
                        next: self.at(Phase::Finished { outcome: Outcome::AlreadyRunning }),
                        effects: seq![],
                    }
                }
            },
            (Phase::Checking { index }, InputView::CancelFlag(raised)) => {
                if raised {
                    self.cancel()
                } else {
                    Transition {
                        next: self.at(Phase::Racing { index }),
                        effects: seq![EffectView::Notify(self.progress(index as int))],
                    }
                }
            },
            (Phase::Racing { index }, InputView::Race(result)) => {
                if result is CancelSeen {
                    self.cancel()
                } else {
                    let t = self.after_race(index as int);
                    match failure_reason(result) {
                        Some(error) => Transition {
                            next: t.next,
                            effects: seq![
                                EffectView::Notify(
                                    NoticeView::StepError {
                                        step_name: self.steps[index as int].name,
                                        error,
                                    },
                                ),
                            ] + t.effects,
                        },
                        None => t,
                    }
                }
            },
            (Phase::Delaying { index, remaining }, InputView::CancelFlag(raised)) => {
                if raised {
                    self.cancel()
                } else {
                    self.sleep_on(index as int, remaining)
                }
            },
            _ => Transition { next: self, effects: seq![] },
        }
    }
}

/// An activation of `steps` before anything has happened.
pub open spec fn start(steps: Seq<StepView>, default_delay: u64) -> ActivationView {
    ActivationView { steps, default_delay, phase: Phase::Claiming }
}

/// The error text of a race result that counts as a failure of the step.
pub open spec fn failure_reason(result: RaceResultView) -> Option<Seq<char>> {
    match result {
        RaceResultView::Succeeded => None,
        RaceResultView::Failed(error) => Some(error),
        RaceResultView::Faulted(error) => Some("Task panicked: "@ + error),
        RaceResultView::CancelSeen => None,
        RaceResultView::TimedOut => Some("Step timed out after 15s"@),
    }
}

/// One interactive activation of a list of steps.
pub struct Activation {
    steps: Vec<Step>,
    default_delay: u64,
    phase: Phase,
}

impl View for Activation {
    type V = ActivationView;

    closed spec fn view(&self) -> ActivationView {
        ActivationView {
            steps: step_views(self.steps@),
            default_delay: self.default_delay,
            phase: self.phase,
        }
    }
}

/// The error text of a race result that counts as a failure of the step.
pub fn reason_of(result: RaceResult) -> (reason: Option<String>)
    ensures
        crate::config::text_of(reason) == failure_reason(result@),
{
    match result {
        RaceResult::Succeeded => None,
        RaceResult::Failed(error) => Some(error),
        RaceResult::Faulted(error) => {
            let mut text = "Task panicked: ".to_string();
            text.append(error.as_str());
            Some(text)
        },
        RaceResult::CancelSeen => None,
        RaceResult::TimedOut => Some("Step timed out after 15s".to_string()),
    }
}

impl Activation {
    #[verifier::type_invariant]
    spec fn valid(self) -> bool {
        self@.wf()
    }

    /// An activation of `steps`, with `default_delay` milliseconds as the
    /// least delay after each step. Nothing has happened yet.
    pub fn new(steps: Vec<Step>, default_delay: u64) -> (activation: Activation)
        ensures
            activation@ == start(step_views(steps@), default_delay),
    {
        let count = steps.len();
        assert(step_views(steps@).len() == count);
        Activation { steps, default_delay, phase: Phase::Claiming }
    }

    /// Where the activation stands.
    pub fn phase(&self) -> (phase: Phase)
        ensures
            phase == self@.phase,
            self@.wf(),
    {
        proof {
            use_type_invariant(self);
        }
        self.phase
    }

    /// Number of steps in the list.
    pub fn total(&self) -> (total: usize)
        ensures
            total == self@.steps.len(),
    {
        self.steps.len()
    }

    /// The step at `index` of the list, if there is one.
    pub fn step_at(&self, index: usize) -> (step: Option<&Step>)
        ensures
            index < self@.steps.len() ==> step is Some && step->0@ == self@.steps[index as int],
            index >= self@.steps.len() ==> step is None,
    {
        if index < self.steps.len() {
            Some(&self.steps[index])
        } else {
            None
        }
    }

    /// How the activation ended, once it has.
    pub fn outcome(&self) -> (outcome: Option<Outcome>)
        ensures
            outcome == match self@.phase {
                Phase::Finished { outcome } => Some(outcome),
                _ => None::<Outcome>,
            },
    {
        match self.phase {
            Phase::Finished { outcome } => Some(outcome),
            _ => None,
        }
    }

    /// What the caller has to supply next.
    pub fn awaits(&self) -> (request: Request)
        ensures
            request == self@.awaited(),
            self@.wf(),
    {
        proof {
            use_type_invariant(self);
        }
        match self.phase {
            Phase::Claiming => Request::Claim,
            Phase::Checking { .. } => Request::ReadCancel,
            Phase::Racing { index } => Request::Race {
                index,
                ceiling_ms: STEP_CEILING_MS,
                poll_ms: CANCEL_POLL_MS,
            },
            Phase::Delaying { .. } => Request::ReadCancel,
            Phase::Finished { outcome } => Request::Done { outcome },
        }
    }

    /// Appends the effects that stop the run on a cancel request.
    fn cancel(&mut self, effects: &mut Vec<Effect>)
        ensures
            final(self)@ == old(self)@.cancel().next,
            effect_views(final(effects)@) == effect_views(old(effects)@) + old(self)@.cancel().effects,
    {
        proof {
            use_type_invariant(&*self);
        }
        self.phase = Phase::Finished { outcome: Outcome::Cancelled };
        effects.push(Effect::Notify(Notice::Cancelled));
        effects.push(Effect::Release);
    }

    /// Moves to step `index`, or ends the run when the list is exhausted.
    fn enter(&mut self, index: usize, effects: &mut Vec<Effect>)
        requires
            index <= old(self)@.steps.len(),
        ensures
            final(self)@ == old(self)@.enter(index as int).next,
            effect_views(final(effects)@) == effect_views(old(effects)@) + old(self)@.enter(
                index as int,
            ).effects,
    {
        if index < self.steps.len() {
            self.phase = Phase::Checking { index };
        } else {
            self.phase = Phase::Finished { outcome: Outcome::Completed };
            effects.push(Effect::Notify(Notice::Complete));
            effects.push(Effect::Release);
        }
    }

    /// Takes the answer to what the machine was waiting for and returns the
    /// effects to carry out, in order. An answer of the wrong kind is
    /// ignored.
    pub fn advance(&mut self, input: Input) -> (effects: Vec<Effect>)
        ensures
            old(self)@.wf(),
            final(self)@ == old(self)@.step(input@).next,
            effect_views(effects@) == old(self)@.step(input@).effects,
    {
        proof {
            use_type_invariant(&*self);
        }
        let mut effects: Vec<Effect> = Vec::new();
        match (self.phase, input) {
            (Phase::Claiming, Input::Claim(claimed)) => {
                if claimed {
                    effects.push(Effect::ClearCancel);
                    self.enter(0, &mut effects);
                }
                else {
                    self.phase = Phase::Finished { outcome: Outcome::AlreadyRunning };
                }
            },
            (Phase::Checking { index }, Input::CancelFlag(raised)) => {
                if raised {
                    self.cancel(&mut effects);
                } else {
                    let step_name = self.steps[index].name.clone();
                    let total = self.steps.len();
                    effects.push(Effect::Notify(Notice::Progress { step_name, current: index + 1, total }));
                    self.phase = Phase::Racing { index };
                }
            },
            (Phase::Racing { index }, Input::Race(result)) => {
                if let RaceResult::CancelSeen = result {
                    self.cancel(&mut effects);
                } else {
                    match reason_of(result) {
                        Some(error) => {
                            let step_name = self.steps[index].name.clone();
                            effects.push(Effect::Notify(Notice::StepError { step_name, error }));
                        },
                        None => {},
                    }
                    let delay = effective_delay(self.steps[index].delay_after, self.default_delay);
                    if delay > 0 {
                        self.phase = Phase::Delaying { index, remaining: delay };
                    } else {
                        self.enter(index + 1, &mut effects);
                    }
                }
            },
            (Phase::Delaying { index, remaining }, Input::CancelFlag(raised)) => {
                if raised {
                    self.cancel(&mut effects);
                } else {
                    let slice = if remaining <= DELAY_SLICE_MS {
                        remaining
                    } else {
                        DELAY_SLICE_MS
                    };
                    let rest = remaining - slice;
                    effects.push(Effect::Sleep(slice));
                    if rest > 0 {
                        self.phase = Phase::Delaying { index, remaining: rest };
                    } else {
                        self.enter(index + 1, &mut effects);
                    }
                }
            },
            _ => {},
        }
        effects
    }
}

} // verus!
