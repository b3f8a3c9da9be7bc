use workswitch::config::{Profile, Schedule, Step};
use workswitch::scheduler::{
    clock_text, lists_day, plan_scheduled_run, schedule_applies, ScheduledAction, TriggerMemory,
    POLL_INTERVAL_SECS, SCHEDULED_DELAY_FLOOR_MS,
};

fn plain_step(name: &str, enabled: bool, delay_after: u64) -> Step {
    Step {
        id: name.to_string(),
        name: name.to_string(),
        step_type: "url".to_string(),
        enabled,
        delay_after,
        process_name: String::new(),
        target: Some("https://example.org".to_string()),
        check_running: None,
        command: None,
        working_dir: None,
        keep_open: None,
    }
}

fn scheduled(id: &str, time: &str, days: Vec<u8>, enabled: bool) -> Profile {
    Profile {
        id: id.to_string(),
        name: format!("Profile {}", id),
        description: String::new(),
        steps: vec![plain_step("a", true, 0)],
        schedule: Some(Schedule { enabled, time: time.to_string(), days }),
    }
}

const MONDAY: u8 = 1;
const TUESDAY: u8 = 2;

#[test]
fn schedule_fires_once_in_its_minute() {
    let mut memory = TriggerMemory::new();
    let profiles = vec![scheduled("p", "09:00", vec![MONDAY], true)];
    // the loop wakes at 09:00:00 and at 09:00:30
    assert_eq!(memory.tick("09:00", MONDAY, &profiles), vec![0]);
    assert_eq!(memory.tick("09:00", MONDAY, &profiles), Vec::<usize>::new());
    assert!(memory.has_fired("p"));
    assert_eq!(memory.last_minute(), "09:00");
}

#[test]
fn schedule_fires_again_when_the_minute_comes_round() {
    let mut memory = TriggerMemory::new();
    let profiles = vec![scheduled("p", "09:00", vec![], true)];
    assert_eq!(memory.tick("09:00", MONDAY, &profiles), vec![0]);
    assert_eq!(memory.tick("09:01", MONDAY, &profiles), Vec::<usize>::new());
    assert!(!memory.has_fired("p"));
    assert_eq!(memory.tick("09:00", TUESDAY, &profiles), vec![0]);
}

#[test]
fn schedule_for_monday_does_not_fire_on_tuesday() {
    let mut memory = TriggerMemory::new();
    let profiles = vec![scheduled("p", "09:00", vec![MONDAY], true)];
    assert_eq!(memory.tick("09:00", TUESDAY, &profiles), Vec::<usize>::new());
    assert!(!memory.has_fired("p"));
    assert_eq!(memory.tick("09:00", MONDAY, &profiles), vec![0]);
}

#[test]
fn schedule_without_days_fires_every_day() {
    for day in 0u8..7 {
        let mut memory = TriggerMemory::new();
        let profiles = vec![scheduled("p", "09:00", vec![], true)];
        assert_eq!(memory.tick("09:00", day, &profiles), vec![0]);
    }
}

#[test]
fn only_matching_enabled_schedules_fire() {
    let mut memory = TriggerMemory::new();
    let unscheduled = Profile {
        id: "none".to_string(),
        name: "none".to_string(),
        description: String::new(),
        steps: vec![],
        schedule: None,
    };
    let profiles = vec![
        scheduled("off", "09:00", vec![], false),
        scheduled("late", "10:00", vec![], true),
        unscheduled,
        scheduled("bad", "9 o'clock", vec![], true),
        scheduled("yes", "09:00", vec![0, 1, 2], true),
        scheduled("yes", "09:00", vec![], true),
        scheduled("too", "09:00", vec![MONDAY], true),
    ];
    // the second profile with id "yes" finds its id already fired
    assert_eq!(memory.tick("09:00", MONDAY, &profiles), vec![4, 6]);
    assert!(memory.is_due(&scheduled("new", "09:00", vec![], true), "09:00", MONDAY));
    assert!(!memory.is_due(&scheduled("too", "09:00", vec![], true), "09:00", MONDAY));
}

#[test]
fn observing_a_new_minute_forgets_what_was_fired() {
    let mut memory = TriggerMemory::new();
    let profiles = vec![scheduled("p", "09:00", vec![], true)];
    memory.observe("09:00");
    assert_eq!(memory.fire_due("09:00", MONDAY, &profiles), vec![0]);
    memory.observe("09:00");
    assert!(memory.has_fired("p"));
    memory.observe("09:01");
    assert!(!memory.has_fired("p"));
    assert_eq!(memory.last_minute(), "09:01");
}

#[test]
fn schedule_applies_checks_switch_time_and_day() {
    let s = Schedule { enabled: true, time: "23:59".to_string(), days: vec![0, 6] };
    assert!(schedule_applies(&s, "23:59", 6));
    assert!(!schedule_applies(&s, "23:59", 3));
    assert!(!schedule_applies(&s, "23:58", 6));
    let off = Schedule { enabled: false, time: "23:59".to_string(), days: vec![] };
    assert!(!schedule_applies(&off, "23:59", 6));
    assert!(lists_day(&vec![1, 2, 3], 2));
    assert!(!lists_day(&vec![], 2));
}

#[test]
fn scheduled_run_launches_enabled_steps_with_floor_delay() {
    let profile = Profile {
        id: "p".to_string(),
        name: "Morning".to_string(),
        description: String::new(),
        steps: vec![
            plain_step("a", true, 100),
            plain_step("b", false, 9000),
            plain_step("c", true, 2000),
        ],
        schedule: None,
    };
    assert_eq!(
        plan_scheduled_run(&profile),
        vec![
            ScheduledAction::Announce { profile_name: "Morning".to_string() },
            ScheduledAction::Launch { step: 0 },
            ScheduledAction::Sleep { millis: 500 },
            ScheduledAction::Launch { step: 2 },
            ScheduledAction::Sleep { millis: 2000 },
        ]
    );
    assert_eq!(SCHEDULED_DELAY_FLOOR_MS, 500);
    assert_eq!(POLL_INTERVAL_SECS, 30);
}

#[test]
fn scheduled_run_of_no_steps_only_announces() {
    let profile = Profile {
        id: "p".to_string(),
        name: "Empty".to_string(),
        description: String::new(),
        steps: vec![],
        schedule: None,
    };
    assert_eq!(
        plan_scheduled_run(&profile),
        vec![ScheduledAction::Announce { profile_name: "Empty".to_string() }]
    );
}

#[test]
fn clock_text_has_two_digits_each() {
    assert_eq!(clock_text(9, 0), Some("09:00".to_string()));
    assert_eq!(clock_text(23, 59), Some("23:59".to_string()));
    assert_eq!(clock_text(0, 7), Some("00:07".to_string()));
    assert_eq!(clock_text(24, 0), None);
    assert_eq!(clock_text(12, 60), None);
}

#[test]
fn wake_reads_a_clock_value_and_observes_it() {
    let mut memory = TriggerMemory::new();
    let now = memory.wake();
    assert!(now.day < 7);
    assert_eq!(now.time.len(), 5);
    let bytes = now.time.as_bytes();
    assert_eq!(bytes[2], b':');
    let hour = (bytes[0] - b'0') as u32 * 10 + (bytes[1] - b'0') as u32;
    let minute = (bytes[3] - b'0') as u32 * 10 + (bytes[4] - b'0') as u32;
    assert!(hour < 24 && minute < 60);
    assert_eq!(memory.last_minute(), now.time);
}
