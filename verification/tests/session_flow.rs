use backmeup::backup::{BackupError, CopyResult};
use backmeup::geometry::{Corners, Point};
use backmeup::notify::{BackupErrorKind, BackupOutcome, Notification, Sound, Window};
use backmeup::recognizer::Action;
use backmeup::session::GestureSession;

const W: i32 = 1920;
const H: i32 = 1080;

fn pt(x: i32, y: i32) -> Point {
    Point { x, y }
}

fn feed(session: &mut GestureSession, points: &[Point]) -> Vec<Action> {
    points.iter().map(|p| session.on_point(*p)).collect()
}

fn perimeter() -> Vec<Point> {
    vec![
        pt(0, 0),
        pt(W / 2, 0),
        pt(W, 0),
        pt(W, H / 2),
        pt(W, H),
        pt(W / 2, H),
        pt(0, H),
    ]
}

fn armed_session() -> GestureSession {
    let mut session = GestureSession::new(W, H);
    let actions = feed(&mut session, &perimeter());
    assert_eq!(actions.last(), Some(&Action::Arm));
    session
}

#[test]
fn new_session_is_unarmed_and_empty() {
    let session = GestureSession::new(W, H);
    assert!(!session.is_armed());
    assert!(session.buffer().is_empty());
    assert_eq!(session.corners(), Corners::of_screen(W, H));
}

#[test]
fn background_samples_only_lengthen_the_buffer() {
    let mut session = GestureSession::new(W, H);
    for i in 0..50 {
        assert_eq!(session.on_point(pt(300 + i, 400)), Action::Background);
        assert_eq!(session.buffer().len(), (i + 1) as usize);
        assert_eq!(session.buffer()[i as usize], pt(300 + i, 400));
        assert!(!session.is_armed());
    }
}

#[test]
fn perimeter_arms_once_and_clears_the_buffer() {
    let mut session = GestureSession::new(W, H);
    let actions = feed(&mut session, &perimeter());
    assert_eq!(actions.iter().filter(|a| **a == Action::Arm).count(), 1);
    assert_eq!(actions[6], Action::Arm);
    assert!(session.is_armed());
    assert!(session.buffer().is_empty());
}

#[test]
fn confirm_disarms_and_clears_the_buffer() {
    let mut session = armed_session();
    assert_eq!(session.on_point(pt(0, H)), Action::Background);
    assert!(session.is_armed());
    assert_eq!(session.buffer().len(), 1);
    assert_eq!(session.on_point(pt(W, H)), Action::Confirm);
    assert!(!session.is_armed());
    assert!(session.buffer().is_empty());
}

#[test]
fn cancel_disarms_and_clears_the_buffer() {
    let mut session = armed_session();
    assert_eq!(feed(&mut session, &[pt(0, H), pt(0, 0)]), vec![Action::Background, Action::Cancel]);
    assert!(!session.is_armed());
    assert!(session.buffer().is_empty());
}

#[test]
fn modify_disarms_and_clears_the_buffer() {
    let mut session = armed_session();
    assert_eq!(feed(&mut session, &[pt(0, H), pt(W, 0)]), vec![Action::Background, Action::Modify]);
    assert!(!session.is_armed());
    assert!(session.buffer().is_empty());
}

#[test]
fn samples_of_a_finished_gesture_do_not_count_for_the_next() {
    // The arming trace ends at the bottom left corner. That touch is gone
    // with the buffer: a touch of the bottom right corner alone confirms
    // nothing.
    let mut session = armed_session();
    assert_eq!(session.on_point(pt(W, H)), Action::Background);
    assert!(session.is_armed());
    assert_eq!(session.on_point(pt(0, H)), Action::Background);
    assert_eq!(session.on_point(pt(W, H)), Action::Confirm);
}

#[test]
fn swipes_while_unarmed_do_nothing() {
    let mut session = GestureSession::new(W, H);
    let actions = feed(&mut session, &[pt(0, H), pt(W, H), pt(0, H), pt(0, 0)]);
    assert!(actions.iter().all(|a| *a == Action::Background));
    assert!(!session.is_armed());
    assert_eq!(session.buffer().len(), 4);
}

#[test]
fn whole_cycle_can_be_repeated() {
    let mut session = GestureSession::new(W, H);
    for _ in 0..3 {
        let actions = feed(&mut session, &perimeter());
        assert_eq!(actions.last(), Some(&Action::Arm));
        let actions = feed(&mut session, &[pt(0, H), pt(W, H)]);
        assert_eq!(actions.last(), Some(&Action::Confirm));
        assert!(!session.is_armed());
        assert!(session.buffer().is_empty());
    }
}

#[test]
fn notification_after_each_action() {
    assert_eq!(Notification::after_action(Action::Background), None);
    assert_eq!(Notification::after_action(Action::Arm), Some(Notification::Armed));
    assert_eq!(Notification::after_action(Action::Confirm), None);
    assert_eq!(Notification::after_action(Action::Cancel), Some(Notification::Cancelled));
    assert_eq!(
        Notification::after_action(Action::Modify),
        Some(Notification::OpenConfiguration)
    );
}

#[test]
fn notification_after_each_outcome() {
    let done = BackupOutcome::Completed(CopyResult { total_bytes: 10, elapsed_millis: 20 });
    assert_eq!(Notification::after_backup(&done), Notification::BackupSucceeded);
    assert_eq!(
        Notification::after_backup(&BackupOutcome::NotConfigured),
        Notification::NotConfigured
    );
    let cases = vec![
        (BackupError::SourceNotFound, BackupErrorKind::SourceNotFound),
        (BackupError::InvalidBackupType, BackupErrorKind::InvalidBackupType),
        (BackupError::IoError("denied".to_string()), BackupErrorKind::IoError),
        (
            BackupError::CopyBackendError("broken".to_string()),
            BackupErrorKind::CopyBackendError,
        ),
    ];
    for (error, kind) in cases {
        assert_eq!(error.kind(), kind);
        assert_eq!(
            Notification::after_backup(&BackupOutcome::Failed(error)),
            Notification::BackupFailed(kind)
        );
    }
}

#[test]
fn failure_messages() {
    assert_eq!(
        BackupError::SourceNotFound.message(),
        "Backup failed: Source path does not exist"
    );
    assert_eq!(
        BackupError::InvalidBackupType.message(),
        "Backup failed: Invalid backup type specified"
    );
    assert_eq!(
        BackupError::IoError("permission denied".to_string()).message(),
        "Backup failed due to IO error: permission denied"
    );
    assert_eq!(
        BackupError::CopyBackendError("interrupted".to_string()).message(),
        "Backup failed due to fs_extra error: interrupted"
    );
}

#[test]
fn sounds_and_windows_of_notifications() {
    assert_eq!(Notification::Armed.sound(), Some(Sound::Blip));
    assert_eq!(Notification::BackupSucceeded.sound(), Some(Sound::Success));
    assert_eq!(
        Notification::BackupFailed(BackupErrorKind::IoError).sound(),
        Some(Sound::Success)
    );
    assert_eq!(Notification::NotConfigured.sound(), Some(Sound::Stop));
    assert_eq!(Notification::Cancelled.sound(), Some(Sound::Stop));
    assert_eq!(Notification::OpenConfiguration.sound(), None);

    assert_eq!(Notification::Armed.window(), Some(Window::Confirmation));
    assert_eq!(Notification::OpenConfiguration.window(), Some(Window::Configuration));
    assert_eq!(Notification::Cancelled.window(), None);
    assert_eq!(Notification::BackupSucceeded.window(), None);
    assert_eq!(Notification::NotConfigured.window(), None);

    assert_eq!(Window::Confirmation.argument(), "backup");
    assert_eq!(Window::Configuration.argument(), "config");
}

#[test]
fn sounds_by_number() {
    assert_eq!(Sound::numbered(0), Sound::Blip);
    assert_eq!(Sound::numbered(1), Sound::Success);
    assert_eq!(Sound::numbered(2), Sound::Stop);
    assert_eq!(Sound::numbered(-1), Sound::Stop);
    assert_eq!(Sound::numbered(77), Sound::Stop);
    assert_eq!(Sound::Blip.file_name(), "blip-131856.mp3");
    assert_eq!(Sound::Success.file_name(), "success-48018.mp3");
    assert_eq!(Sound::Stop.file_name(), "stop-13692.mp3");
}
