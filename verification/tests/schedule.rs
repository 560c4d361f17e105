use backmeup::cpu_evaluation::LogSchedule;
use backmeup::notify::{Sound, Window};

#[test]
fn schedule_comes_due_after_every_interval() {
    let mut schedule = LogSchedule::new(3);
    assert_eq!(schedule.interval(), 3);
    assert_eq!(schedule.samples(), 0);
    let mut due = Vec::new();
    for _ in 0..10 {
        due.push(schedule.tick());
    }
    assert_eq!(
        due,
        vec![false, false, true, false, false, true, false, false, true, false]
    );
    assert_eq!(schedule.samples(), 1);
}

#[test]
fn schedule_of_one_is_always_due() {
    let mut schedule = LogSchedule::new(1);
    for _ in 0..5 {
        assert!(schedule.tick());
        assert_eq!(schedule.samples(), 0);
    }
}

#[test]
fn schedule_of_zero_is_never_due() {
    let mut schedule = LogSchedule::new(0);
    for _ in 0..1000 {
        assert!(!schedule.tick());
        assert_eq!(schedule.samples(), 0);
    }
}

#[test]
fn schedule_counts_between_entries() {
    let mut schedule = LogSchedule::new(120);
    for expected in 1..120u64 {
        assert!(!schedule.tick());
        assert_eq!(schedule.samples(), expected);
    }
    assert!(schedule.tick());
    assert_eq!(schedule.samples(), 0);
}

#[test]
fn schedule_with_the_longest_interval_does_not_overflow() {
    let mut schedule = LogSchedule::new(u64::MAX);
    assert!(!schedule.tick());
    assert_eq!(schedule.samples(), 1);
}

#[test]
fn windows_by_argument() {
    assert_eq!(Window::from_argument("backup"), Some(Window::Confirmation));
    assert_eq!(Window::from_argument("config"), Some(Window::Configuration));
    assert_eq!(Window::from_argument(""), None);
    assert_eq!(Window::from_argument("Backup"), None);
    assert_eq!(Window::from_argument("configure"), None);
    for window in [Window::Confirmation, Window::Configuration] {
        assert_eq!(Window::from_argument(window.argument()), Some(window));
    }
}

#[test]
fn sounds_have_their_numbers() {
    assert_eq!(Sound::Blip.number(), 0);
    assert_eq!(Sound::Success.number(), 1);
    assert_eq!(Sound::Stop.number(), 2);
    for sound in [Sound::Blip, Sound::Success, Sound::Stop] {
        assert_eq!(Sound::numbered(sound.number()), sound);
    }
}
