//! What the host is told after a gesture, and how it is to make that known.
//!
//! The notification is chosen here; the host plays the sound, opens the
//! window and prints the message.

use vstd::prelude::*;
use vstd::string::StringExecFns;
use crate::text::same_text;
use crate::backup::{BackupError, CopyResult};
use crate::recognizer::Action;

verus! {

/// The kind of a failure, without its detail.
#[derive(Clone, Copy, Debug, PartialEq, Eq, Structural)]
pub enum BackupErrorKind {
    SourceNotFound,
    InvalidBackupType,
    IoError,
    CopyBackendError,
}

/// How a confirmed backup ended.
#[derive(Debug)]
pub enum BackupOutcome {
    /// No configuration was found: no copy was attempted.
    NotConfigured,
    /// The run completed.
    Completed(CopyResult),
    /// The run failed.
    Failed(BackupError),
}

/// What the host makes known.
#[derive(Clone, Copy, Debug, PartialEq, Eq, Structural)]
pub enum Notification {
    /// The arming gesture was recognized.
    Armed,
    /// The backup ran to its end.
    BackupSucceeded,
    /// The backup failed, for the given kind of reason.
    BackupFailed(BackupErrorKind),
    /// The backup was confirmed but nothing is configured.
    NotConfigured,
    /// The backup was called off.
    Cancelled,
    /// The configuration is asked for.
    OpenConfiguration,
}

/// The sounds that the host can play.
#[derive(Clone, Copy, Debug, PartialEq, Eq, Structural)]
pub enum Sound {
    Blip,
    Success,
    Stop,
}

/// The windows that the host can open.
#[derive(Clone, Copy, Debug, PartialEq, Eq, Structural)]
pub enum Window {
    /// The popup that asks to confirm the backup.
    Confirmation,
    /// The configuration form.
    Configuration,
}

/// The kind of `error`.
pub open spec fn kind_of(error: BackupError) -> BackupErrorKind {
    match error {
        BackupError::SourceNotFound => BackupErrorKind::SourceNotFound,
        BackupError::InvalidBackupType => BackupErrorKind::InvalidBackupType,
        BackupError::IoError(_) => BackupErrorKind::IoError,
        BackupError::CopyBackendError(_) => BackupErrorKind::CopyBackendError,
    }
}

/// What is made known right after an action. A confirmation alone says
/// nothing yet: what is made known then depends on how the backup ends.
pub open spec fn announced(action: Action) -> Option<Notification> {
    match action {
        Action::Background => None,
        Action::Arm => Some(Notification::Armed),
        Action::Confirm => None,
        Action::Cancel => Some(Notification::Cancelled),
        Action::Modify => Some(Notification::OpenConfiguration),
    }
}

/// What is made known after a confirmed backup.
pub open spec fn reported(outcome: BackupOutcome) -> Notification {
    match outcome {
        BackupOutcome::NotConfigured => Notification::NotConfigured,
        BackupOutcome::Completed(_) => Notification::BackupSucceeded,
        BackupOutcome::Failed(error) => Notification::BackupFailed(kind_of(error)),
    }
}

/// The sound that goes with a notification. The sound after an attempted
/// backup is the same however the attempt ended; asking for the
/// configuration is silent.
pub open spec fn sound_of(notification: Notification) -> Option<Sound> {
    match notification {
        Notification::Armed => Some(Sound::Blip),
        Notification::BackupSucceeded => Some(Sound::Success),
        Notification::BackupFailed(_) => Some(Sound::Success),
        Notification::NotConfigured => Some(Sound::Stop),
        Notification::Cancelled => Some(Sound::Stop),
        Notification::OpenConfiguration => None,
    }
}

/// The window that a notification opens.
pub open spec fn window_of(notification: Notification) -> Option<Window> {
    match notification {
        Notification::Armed => Some(Window::Confirmation),
        Notification::OpenConfiguration => Some(Window::Configuration),
        _ => None,
    }
}

/// The sound with the given number: 0 is the blip, 1 the success sound, and
/// every other number the stop sound.
pub open spec fn sound_numbered(number: i32) -> Sound {
    if number == 0 {
        Sound::Blip
    } else if number == 1 {
        Sound::Success
    } else {
        Sound::Stop
    }
}

/// The line that tells of a failure.
pub open spec fn failure_text(error: BackupError) -> Seq<char> {
    match error {
        BackupError::SourceNotFound => "Backup failed: Source path does not exist"@,
        BackupError::InvalidBackupType => "Backup failed: Invalid backup type specified"@,
        BackupError::IoError(detail) => "Backup failed due to IO error: "@ + detail@,
        BackupError::CopyBackendError(detail) => "Backup failed due to fs_extra error: "@ + detail@,
    }
}

impl BackupError {
    /// The kind of the failure, without its detail.
    pub fn kind(&self) -> (kind: BackupErrorKind)
        ensures
            kind == kind_of(*self),
    {
        match self {
            BackupError::SourceNotFound => BackupErrorKind::SourceNotFound,
            BackupError::InvalidBackupType => BackupErrorKind::InvalidBackupType,
            BackupError::IoError(_) => BackupErrorKind::IoError,
            BackupError::CopyBackendError(_) => BackupErrorKind::CopyBackendError,
        }
    }

    /// The line that tells of the failure.
    pub fn message(&self) -> (text: String)
        ensures
            text@ == failure_text(*self),
    {
        match self {
            BackupError::SourceNotFound => String::from_str(
                "Backup failed: Source path does not exist",
            ),
            BackupError::InvalidBackupType => String::from_str(
                "Backup failed: Invalid backup type specified",
            ),
            BackupError::IoError(detail) => {
                let mut text = String::from_str("Backup failed due to IO error: ");
                text.append(detail.as_str());
                text
            },
            BackupError::CopyBackendError(detail) => {
                let mut text = String::from_str("Backup failed due to fs_extra error: ");
                text.append(detail.as_str());
                text
            },
        }
    }
}

impl Notification {
    /// What is made known right after `action`, if anything.
    pub fn after_action(action: Action) -> (notification: Option<Notification>)
        ensures
            notification == announced(action),
    {
        match action {
            Action::Background => None,
            Action::Arm => Some(Notification::Armed),
            Action::Confirm => None,
            Action::Cancel => Some(Notification::Cancelled),
            Action::Modify => Some(Notification::OpenConfiguration),
        }
    }

    /// What is made known after a confirmed backup.
    pub fn after_backup(outcome: &BackupOutcome) -> (notification: Notification)
        ensures
            notification == reported(*outcome),
    {
        match outcome {
            BackupOutcome::NotConfigured => Notification::NotConfigured,
            BackupOutcome::Completed(_) => Notification::BackupSucceeded,
            BackupOutcome::Failed(error) => Notification::BackupFailed(error.kind()),
        }
    }

    /// The sound that goes with the notification.
    pub fn sound(&self) -> (sound: Option<Sound>)
        ensures
            sound == sound_of(*self),
    {
        match self {
            Notification::Armed => Some(Sound::Blip),
            Notification::BackupSucceeded => Some(Sound::Success),
            Notification::BackupFailed(_) => Some(Sound::Success),
            Notification::NotConfigured => Some(Sound::Stop),
            Notification::Cancelled => Some(Sound::Stop),
            Notification::OpenConfiguration => None,
        }
    }

    /// The window that the notification opens.
    pub fn window(&self) -> (window: Option<Window>)
        ensures
            window == window_of(*self),
    {
        match self {
            Notification::Armed => Some(Window::Confirmation),
            Notification::OpenConfiguration => Some(Window::Configuration),
            _ => None,
        }
    }
}

/// The number of a sound.
pub open spec fn number_of(sound: Sound) -> i32 {
    match sound {
        Sound::Blip => 0,
        Sound::Success => 1,
        Sound::Stop => 2,
    }
}

/// The argument that asks for a window.
pub open spec fn argument_of(window: Window) -> Seq<char> {
    match window {
        Window::Confirmation => "backup"@,
        Window::Configuration => "config"@,
    }
}

/// Every sound is the sound with its own number.
pub proof fn lemma_sound_has_its_number(sound: Sound)
    ensures
        sound_numbered(number_of(sound)) == sound,
{
}

/// Every window is the one that its own argument asks for.
pub proof fn lemma_window_has_its_argument(window: Window)
    ensures
        window_named(argument_of(window)) == Some(window),
{
    reveal_strlit("backup");
    reveal_strlit("config");
    assert("backup"@.len() == 6);
    assert("config"@[0] == 'c');
    assert("backup"@[0] == 'b');
}

impl Sound {
    /// The number of the sound.
    pub fn number(&self) -> (number: i32)
        ensures
            number == number_of(*self),
    {
        match self {
            Sound::Blip => 0,
            Sound::Success => 1,
            Sound::Stop => 2,
        }
    }

    /// The sound with the given number.
    pub fn numbered(number: i32) -> (sound: Sound)
        ensures
            sound == sound_numbered(number),
    {
        if number == 0 {
            Sound::Blip
        } else if number == 1 {
            Sound::Success
        } else {
            Sound::Stop
        }
    }

    /// The name of the file that holds the sound.
    pub fn file_name(&self) -> (name: &'static str)
        ensures
            name@ == match *self {
                Sound::Blip => "blip-131856.mp3"@,
                Sound::Success => "success-48018.mp3"@,
                Sound::Stop => "stop-13692.mp3"@,
            },
    {
        match self {
            Sound::Blip => "blip-131856.mp3",
            Sound::Success => "success-48018.mp3",
            Sound::Stop => "stop-13692.mp3",
        }
    }
}

/// The window that an argument of the window program asks for.
pub open spec fn window_named(argument: Seq<char>) -> Option<Window> {
    if argument == "backup"@ {
        Some(Window::Confirmation)
    } else if argument == "config"@ {
        Some(Window::Configuration)
    } else {
        None
    }
}

impl Window {
    /// The window that `argument` asks for, if it asks for one.
    pub fn from_argument(argument: &str) -> (window: Option<Window>)
        ensures
            window == window_named(argument@),
    {
        if same_text(argument, "backup") {
            Some(Window::Confirmation)
        } else if same_text(argument, "config") {
            Some(Window::Configuration)
        } else {
            None
        }
    }

    /// The argument that tells the window program which window to show.
    pub fn argument(&self) -> (argument: &'static str)
        ensures
            argument@ == argument_of(*self),
    {
        match self {
            Window::Confirmation => "backup",
            Window::Configuration => "config",
        }
    }
}

} // verus!
