use workswitch::config::Step;
use workswitch::orchestrator::{
    Activation, Effect, Input, Notice, Outcome, Phase, RaceResult, Request,
};
use workswitch::run_state::{claim_granted, LaunchState};

fn step(name: &str, delay_after: u64) -> Step {
    Step {
        id: format!("id-{}", name),
        name: name.to_string(),
        step_type: "app".to_string(),
        enabled: true,
        delay_after,
        process_name: String::new(),
        target: Some("/bin/true".to_string()),
        check_running: None,
        command: None,
        working_dir: None,
        keep_open: None,
    }
}

/// Runs an activation to its end against a real run state. `results` gives
/// the race result of each step in turn; `cancel_after_sleeps` raises the
/// cancel signal once that many sleeps have been asked for.
fn drive(
    state: &LaunchState,
    steps: Vec<Step>,
    default_delay: u64,
    results: Vec<RaceResult>,
    cancel_after_sleeps: Option<usize>,
) -> (Outcome, Vec<Effect>, Vec<usize>) {
    let mut activation = Activation::new(steps, default_delay);
    let mut all = Vec::new();
    let mut raced = Vec::new();
    let mut sleeps = 0;
    let mut results = results.into_iter();
    loop {
        let input = match activation.awaits() {
            Request::Claim => Input::Claim(state.try_claim()),
            Request::ReadCancel => Input::CancelFlag(state.cancel_requested()),
            Request::Race { index, ceiling_ms, poll_ms } => {
                assert_eq!(ceiling_ms, 15_000);
                assert_eq!(poll_ms, 50);
                raced.push(index);
                Input::Race(results.next().unwrap_or(RaceResult::Succeeded))
            }
            Request::Done { outcome } => return (outcome, all, raced),
        };
        for effect in activation.advance(input) {
            match &effect {
                Effect::ClearCancel => state.clear_cancel(),
                Effect::Release => state.release(),
                Effect::Sleep(_) => {
                    sleeps += 1;
                    if cancel_after_sleeps == Some(sleeps) {
                        state.request_cancel();
                    }
                }
                Effect::Notify(_) => {}
            }
            all.push(effect);
        }
    }
}

fn notices(effects: &[Effect]) -> Vec<Notice> {
    let mut out = Vec::new();
    for e in effects {
        if let Effect::Notify(n) = e {
            out.push(n.clone());
        }
    }
    out
}

fn progress(name: &str, current: usize, total: usize) -> Notice {
    Notice::Progress { step_name: name.to_string(), current, total }
}

#[test]
fn empty_profile_completes_without_progress() {
    let state = LaunchState::default();
    let (outcome, effects, raced) = drive(&state, vec![], 500, vec![], None);
    assert_eq!(outcome, Outcome::Completed);
    assert_eq!(
        effects,
        vec![Effect::ClearCancel, Effect::Notify(Notice::Complete), Effect::Release]
    );
    assert!(raced.is_empty());
}

#[test]
fn second_claim_is_refused_without_effects() {
    let state = LaunchState::default();
    assert!(state.try_claim());
    let (outcome, effects, raced) = drive(&state, vec![step("A", 0)], 0, vec![], None);
    assert_eq!(outcome, Outcome::AlreadyRunning);
    assert!(effects.is_empty());
    assert!(raced.is_empty());
    // the slot still belongs to the first claimant
    assert!(!state.try_claim());
}

#[test]
fn slot_is_free_after_completion() {
    let state = LaunchState::default();
    let (outcome, _, _) = drive(&state, vec![step("A", 0)], 0, vec![], None);
    assert_eq!(outcome, Outcome::Completed);
    let (again, _, _) = drive(&state, vec![step("A", 0)], 0, vec![], None);
    assert_eq!(again, Outcome::Completed);
    assert!(state.try_claim());
}

#[test]
fn slot_is_free_after_cancellation() {
    let state = LaunchState::default();
    let (outcome, _, _) =
        drive(&state, vec![step("A", 300), step("B", 0)], 0, vec![], Some(1));
    assert_eq!(outcome, Outcome::Cancelled);
    assert!(state.try_claim());
}

#[test]
fn steps_run_in_list_order() {
    let state = LaunchState::default();
    let steps = vec![step("A", 0), step("B", 0), step("C", 0)];
    let (outcome, effects, raced) = drive(&state, steps, 0, vec![], None);
    assert_eq!(outcome, Outcome::Completed);
    assert_eq!(raced, vec![0, 1, 2]);
    assert_eq!(
        notices(&effects),
        vec![progress("A", 1, 3), progress("B", 2, 3), progress("C", 3, 3), Notice::Complete]
    );
}

#[test]
fn failed_step_does_not_stop_the_run() {
    let state = LaunchState::default();
    let steps = vec![step("A", 0), step("B", 0)];
    let results = vec![RaceResult::Failed("boom".to_string()), RaceResult::Succeeded];
    let (outcome, effects, raced) = drive(&state, steps, 0, results, None);
    assert_eq!(outcome, Outcome::Completed);
    assert_eq!(raced, vec![0, 1]);
    assert_eq!(
        notices(&effects),
        vec![
            progress("A", 1, 2),
            Notice::StepError { step_name: "A".to_string(), error: "boom".to_string() },
            progress("B", 2, 2),
            Notice::Complete,
        ]
    );
}

#[test]
fn timed_out_step_is_reported_and_next_step_runs() {
    let state = LaunchState::default();
    let steps = vec![step("A", 0), step("B", 0)];
    let results = vec![RaceResult::TimedOut, RaceResult::Succeeded];
    let (outcome, effects, raced) = drive(&state, steps, 0, results, None);
    assert_eq!(outcome, Outcome::Completed);
    assert_eq!(raced, vec![0, 1]);
    assert_eq!(
        notices(&effects)[1],
        Notice::StepError {
            step_name: "A".to_string(),
            error: "Step timed out after 15s".to_string()
        }
    );
}

#[test]
fn faulted_step_is_reported_with_prefix() {
    let state = LaunchState::default();
    let results = vec![RaceResult::Faulted("worker died".to_string())];
    let (outcome, effects, _) = drive(&state, vec![step("A", 0)], 0, results, None);
    assert_eq!(outcome, Outcome::Completed);
    assert_eq!(
        notices(&effects)[1],
        Notice::StepError {
            step_name: "A".to_string(),
            error: "Task panicked: worker died".to_string()
        }
    );
}

#[test]
fn cancel_during_delay_skips_remaining_steps() {
    let state = LaunchState::default();
    let steps = vec![step("A", 1000), step("B", 0), step("C", 0)];
    // the signal is raised during the third slice of A's delay
    let (outcome, effects, raced) = drive(&state, steps, 0, vec![], Some(3));
    assert_eq!(outcome, Outcome::Cancelled);
    assert_eq!(raced, vec![0]);
    assert_eq!(
        effects,
        vec![
            Effect::ClearCancel,
            Effect::Notify(progress("A", 1, 3)),
            Effect::Sleep(100),
            Effect::Sleep(100),
            Effect::Sleep(100),
            Effect::Notify(Notice::Cancelled),
            Effect::Release,
        ]
    );
}

#[test]
fn cancel_seen_during_race_ends_the_run() {
    let state = LaunchState::default();
    let steps = vec![step("A", 0), step("B", 0)];
    let (outcome, effects, raced) =
        drive(&state, steps, 0, vec![RaceResult::CancelSeen], None);
    assert_eq!(outcome, Outcome::Cancelled);
    assert_eq!(raced, vec![0]);
    assert_eq!(
        notices(&effects),
        vec![progress("A", 1, 2), Notice::Cancelled]
    );
    assert_eq!(effects.last(), Some(&Effect::Release));
}

#[test]
fn cancel_raised_before_the_run_is_cleared_by_it() {
    let state = LaunchState::default();
    state.request_cancel();
    let (outcome, _, _) = drive(&state, vec![step("A", 0)], 0, vec![], None);
    assert_eq!(outcome, Outcome::Completed);
}

#[test]
fn delay_is_the_larger_of_step_and_default_in_slices() {
    let state = LaunchState::default();
    let (_, effects, _) = drive(&state, vec![step("A", 120)], 250, vec![], None);
    let sleeps: Vec<u64> = effects
        .iter()
        .filter_map(|e| if let Effect::Sleep(ms) = e { Some(*ms) } else { None })
        .collect();
    assert_eq!(sleeps, vec![100, 100, 50]);
    let (_, effects, _) = drive(&state, vec![step("A", 130)], 20, vec![], None);
    let sleeps: Vec<u64> = effects
        .iter()
        .filter_map(|e| if let Effect::Sleep(ms) = e { Some(*ms) } else { None })
        .collect();
    assert_eq!(sleeps, vec![100, 30]);
}

#[test]
fn answer_of_the_wrong_kind_is_ignored() {
    let mut activation = Activation::new(vec![step("A", 0)], 0);
    assert!(activation.advance(Input::CancelFlag(true)).is_empty());
    assert_eq!(activation.phase(), Phase::Claiming);
    assert_eq!(activation.outcome(), None);
    activation.advance(Input::Claim(true));
    assert_eq!(activation.phase(), Phase::Checking { index: 0 });
    assert!(activation.advance(Input::Race(RaceResult::Succeeded)).is_empty());
    assert_eq!(activation.phase(), Phase::Checking { index: 0 });
    assert_eq!(activation.total(), 1);
    assert_eq!(activation.step_at(0).map(|s| s.name.clone()), Some("A".to_string()));
    assert!(activation.step_at(1).is_none());
}

#[test]
fn finished_activation_asks_for_nothing_more() {
    let mut activation = Activation::new(vec![], 0);
    activation.advance(Input::Claim(false));
    assert_eq!(activation.outcome(), Some(Outcome::AlreadyRunning));
    assert!(activation.advance(Input::Claim(true)).is_empty());
    assert!(activation.advance(Input::CancelFlag(false)).is_empty());
    assert_eq!(activation.awaits(), Request::Done { outcome: Outcome::AlreadyRunning });
}

#[test]
fn run_state_answers_claims_and_readings() {
    let state = LaunchState::default();
    assert_eq!(state.answer(Request::Claim), Some(Input::Claim(true)));
    assert_eq!(state.answer(Request::Claim), Some(Input::Claim(false)));
    assert_eq!(state.answer(Request::ReadCancel), Some(Input::CancelFlag(false)));
    state.request_cancel();
    state.request_cancel();
    assert_eq!(state.answer(Request::ReadCancel), Some(Input::CancelFlag(true)));
    assert_eq!(state.answer(Request::Race { index: 0, ceiling_ms: 1, poll_ms: 1 }), None);
    assert_eq!(state.answer(Request::Done { outcome: Outcome::Completed }), None);
    assert!(state.carry_out(&Effect::ClearCancel));
    assert!(!state.cancel_requested());
    assert!(state.carry_out(&Effect::Release));
    assert!(state.try_claim());
    assert!(!state.carry_out(&Effect::Sleep(5)));
    assert!(!state.carry_out(&Effect::Notify(Notice::Complete)));
    assert!(!state.try_claim());
}

#[test]
fn cancel_without_a_run_changes_nothing_of_the_slot() {
    let state = LaunchState::default();
    state.request_cancel();
    assert!(state.cancel_requested());
    assert!(state.try_claim());
    state.release();
    assert!(state.try_claim());
}

#[test]
fn claim_is_granted_when_the_slot_was_free() {
    assert!(claim_granted(Ok(false)));
    assert!(!claim_granted(Err(true)));
}
