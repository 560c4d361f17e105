//! The backup engine: what a run copies, what it skips, and how it fails.
//!
//! The engine never touches a file. The host probes the source, creates
//! directories, walks the tree and copies; after each of these it reports
//! what it found, and the engine says what follows. A run passes through
//! three stages, each a type of its own, so that no step can be taken out of
//! turn:
//!
//! 1. `BackupRun`, made from the configuration: the destination is resolved,
//!    nothing has been touched. The host probes the source.
//! 2. `PreparedRun`, once the source exists and the backup type is a known
//!    one. The host creates the destination directory.
//! 3. `Walk`, once the destination is there and the source is a directory.
//!    The host walks the source; the engine classifies each entry and keeps
//!    the count of bytes copied. `Walk::finish` ends the run.

use vstd::prelude::*;
use vstd::string::StringExecFns;
use crate::paths::{
    extension, extension_of, hidden_name, is_hidden, is_within, mirror, mirrored, relative_path,
    relative_to, resolve_destination, resolved_destination, within,
};
use crate::text::{chars_of, contains_text, same_text, texts};

verus! {

/// The persisted configuration of a backup.
#[derive(Debug)]
pub struct Config {
    pub source_path: String,
    pub destination_path: String,
    pub backup_type: String,
    pub extensions_to_backup: Vec<String>,
}

/// The recognized kinds of backup.
#[derive(Clone, Copy, Debug, PartialEq, Eq, Structural)]
pub enum BackupMode {
    /// Every file of the disk.
    FullDisk,
    /// Every file of a directory.
    Directory,
    /// The files whose extension is one of the configured ones.
    Selective,
}

/// Why a run failed.
#[derive(Debug)]
pub enum BackupError {
    /// The source does not exist.
    SourceNotFound,
    /// The configured backup type is none of the recognized ones.
    InvalidBackupType,
    /// The destination could not be created, or the source is no directory.
    IoError(String),
    /// The bulk-copy helper failed.
    CopyBackendError(String),
}

/// What an entry of the tree is on disk.
#[derive(Clone, Copy, Debug, PartialEq, Eq, Structural)]
pub enum EntryKind {
    Directory,
    File,
    /// Anything else: a link, a device, a socket.
    Other,
}

/// One entry that the walk has come to.
#[derive(Debug)]
pub struct Entry {
    /// The entry's own name, the last component of its path.
    pub name: String,
    /// The entry's full path.
    pub path: String,
    pub kind: EntryKind,
}

/// Which entries a host keeps the walk away from.
#[derive(Clone, Copy, Debug, PartialEq, Eq, Structural)]
pub enum ExclusionPolicy {
    /// Hidden entries only.
    HiddenOnly,
    /// Hidden entries, and the directories of the host's virtual file
    /// systems.
    HiddenAndPseudoFilesystems,
}

/// Why an entry is passed over.
#[derive(Clone, Copy, Debug, PartialEq, Eq, Structural)]
pub enum SkipReason {
    /// Its name begins with a dot.
    Hidden,
    /// It is a directory of a virtual file system.
    PseudoFilesystem,
    /// It is neither a directory nor a regular file.
    NotCopyable,
    /// The backup is selective and the file has no extension.
    NoExtension,
    /// The backup is selective and the file's extension is not configured.
    ExtensionNotSelected,
    /// Its path does not lie below the source of the run.
    OutsideSource,
}

/// What the engine makes of an entry.
#[derive(Clone, Copy, Debug, PartialEq, Eq, Structural)]
pub enum EntryClass {
    /// A directory to be created below the destination.
    Directory,
    /// A file to be copied below the destination.
    RegularFile,
    /// Nothing to do; the walk goes on.
    Skipped(SkipReason),
}

/// What the host is to do with an entry that the walk has come to.
#[derive(Debug)]
pub enum Visit {
    /// Create the directory with the given path, and its parents.
    CreateDirectory(String),
    /// Copy the entry to the given path, and report the bytes copied.
    CopyFile(String),
    /// Do nothing; the walk goes on.
    Skip(SkipReason),
}

/// A visit as contracts see it.
pub enum VisitView {
    CreateDirectory(Seq<char>),
    CopyFile(Seq<char>),
    Skip(SkipReason),
}

impl View for Visit {
    type V = VisitView;

    open spec fn view(&self) -> VisitView {
        match *self {
            Visit::CreateDirectory(target) => VisitView::CreateDirectory(target@),
            Visit::CopyFile(target) => VisitView::CopyFile(target@),
            Visit::Skip(reason) => VisitView::Skip(reason),
        }
    }
}

/// The outcome of a completed run.
#[derive(Clone, Copy, Debug, PartialEq, Eq, Structural)]
pub struct CopyResult {
    /// The bytes of all files that were copied.
    pub total_bytes: u64,
    /// The wall-clock time of the run, in milliseconds.
    pub elapsed_millis: u64,
}

/// The backup kind that a configured name stands for.
pub open spec fn mode_named(name: Seq<char>) -> Option<BackupMode> {
    if name == "full-disk"@ {
        Some(BackupMode::FullDisk)
    } else if name == "directory"@ {
        Some(BackupMode::Directory)
    } else if name == "selective"@ {
        Some(BackupMode::Selective)
    } else {
        None
    }
}

/// `path` is one of the roots of the host's virtual file systems, or lies
/// below one.
pub open spec fn in_pseudo_filesystem(path: Seq<char>) -> bool {
    within(path, "/sys"@) || within(path, "/proc"@) || within(path, "/dev"@) || within(
        path,
        "/run"@,
    ) || within(path, "/tmp"@)
}

/// The walk keeps away from an entry: it is hidden, or the policy names the
/// virtual file systems and the entry is a directory of one.
pub open spec fn excluded(
    name: Seq<char>,
    path: Seq<char>,
    kind: EntryKind,
    policy: ExclusionPolicy,
) -> bool {
    hidden_name(name) || (policy == ExclusionPolicy::HiddenAndPseudoFilesystems && kind
        == EntryKind::Directory && in_pseudo_filesystem(path))
}

/// A file is wanted: always, unless the backup is selective; then only with
/// an extension that is configured.
pub open spec fn file_class(name: Seq<char>, mode: BackupMode, extensions: Seq<Seq<char>>) -> EntryClass {
    if mode == BackupMode::Selective {
        match extension_of(name) {
            None => EntryClass::Skipped(SkipReason::NoExtension),
            Some(ext) => if extensions.contains(ext) {
                EntryClass::RegularFile
            } else {
                EntryClass::Skipped(SkipReason::ExtensionNotSelected)
            },
        }
    } else {
        EntryClass::RegularFile
    }
}

/// What the engine makes of an entry with the given name, path and kind.
pub open spec fn entry_class(
    name: Seq<char>,
    path: Seq<char>,
    kind: EntryKind,
    mode: BackupMode,
    extensions: Seq<Seq<char>>,
    policy: ExclusionPolicy,
) -> EntryClass {
    if hidden_name(name) {
        EntryClass::Skipped(SkipReason::Hidden)
    } else if excluded(name, path, kind, policy) {
        EntryClass::Skipped(SkipReason::PseudoFilesystem)
    } else {
        match kind {
            EntryKind::Directory => EntryClass::Directory,
            EntryKind::File => file_class(name, mode, extensions),
            EntryKind::Other => EntryClass::Skipped(SkipReason::NotCopyable),
        }
    }
}

/// What the host is to do with an entry during the given walk. An entry
/// that the walk keeps away from, or whose path does not lie below the
/// source, is skipped; every other directory is mirrored below the
/// destination, whatever the kind of the backup, and every other entry goes
/// by its class.
pub open spec fn visit_of(name: Seq<char>, path: Seq<char>, kind: EntryKind, walk: WalkView) -> VisitView {
    if excluded(name, path, kind, walk.policy) {
        VisitView::Skip(
            if hidden_name(name) {
                SkipReason::Hidden
            } else {
                SkipReason::PseudoFilesystem
            },
        )
    } else {
        match relative_to(path, walk.source) {
            None => VisitView::Skip(SkipReason::OutsideSource),
            Some(relative) => match entry_class(
                name,
                path,
                kind,
                walk.mode,
                walk.extensions,
                walk.policy,
            ) {
                EntryClass::Directory => VisitView::CreateDirectory(
                    mirrored(walk.destination, relative),
                ),
                EntryClass::RegularFile => VisitView::CopyFile(mirrored(walk.destination, relative)),
                EntryClass::Skipped(reason) => VisitView::Skip(reason),
            },
        }
    }
}

/// The backup kind that `backup_type` names, if it names one.
pub fn backup_mode(backup_type: &str) -> (mode: Option<BackupMode>)
    ensures
        mode == mode_named(backup_type@),
{
    if same_text(backup_type, "full-disk") {
        Some(BackupMode::FullDisk)
    } else if same_text(backup_type, "directory") {
        Some(BackupMode::Directory)
    } else if same_text(backup_type, "selective") {
        Some(BackupMode::Selective)
    } else {
        None
    }
}

/// Whether the walk keeps away from `entry`, and from all that lies below
/// it.
pub fn is_hidden_or_problematic(entry: &Entry, policy: ExclusionPolicy) -> (skip: bool)
    ensures
        skip == excluded(entry.name@, entry.path@, entry.kind, policy),
{
    if is_hidden(entry.name.as_str()) {
        return true;
    }
    if policy == ExclusionPolicy::HiddenAndPseudoFilesystems && entry.kind == EntryKind::Directory {
        let path = chars_of(entry.path.as_str());
        is_within(&path, "/sys") || is_within(&path, "/proc") || is_within(&path, "/dev")
            || is_within(&path, "/run") || is_within(&path, "/tmp")
    } else {
        false
    }
}

/// Classifies one entry of the walk.
pub fn classify_entry(
    entry: &Entry,
    mode: BackupMode,
    extensions: &Vec<String>,
    policy: ExclusionPolicy,
) -> (class: EntryClass)
    ensures
        class == entry_class(
            entry.name@,
            entry.path@,
            entry.kind,
            mode,
            texts(extensions@),
            policy,
        ),
{
    if is_hidden(entry.name.as_str()) {
        EntryClass::Skipped(SkipReason::Hidden)
    } else if is_hidden_or_problematic(entry, policy) {
        EntryClass::Skipped(SkipReason::PseudoFilesystem)
    } else {
        match entry.kind {
            EntryKind::Directory => EntryClass::Directory,
            EntryKind::Other => EntryClass::Skipped(SkipReason::NotCopyable),
            EntryKind::File => {
                if mode == BackupMode::Selective {
                    match extension(entry.name.as_str()) {
                        None => EntryClass::Skipped(SkipReason::NoExtension),
                        Some(ext) => {
                            if contains_text(extensions, ext.as_str()) {
                                EntryClass::RegularFile
                            } else {
                                EntryClass::Skipped(SkipReason::ExtensionNotSelected)
                            }
                        },
                    }
                } else {
                    EntryClass::RegularFile
                }
            },
        }
    }
}

/// A run before anything was touched, as contracts see it.
pub struct RunView {
    pub source: Seq<char>,
    /// The directory that the copy goes to.
    pub destination: Seq<char>,
    pub backup_type: Seq<char>,
    pub extensions: Seq<Seq<char>>,
    pub policy: ExclusionPolicy,
}

/// A run whose source exists and whose kind is known, as contracts see it.
pub struct PreparedView {
    pub source: Seq<char>,
    pub destination: Seq<char>,
    pub mode: BackupMode,
    pub extensions: Seq<Seq<char>>,
    pub policy: ExclusionPolicy,
    /// Whether the probe found the source to be a directory.
    pub source_is_directory: bool,
}

/// A walk in progress, as contracts see it.
pub struct WalkView {
    pub source: Seq<char>,
    pub destination: Seq<char>,
    pub mode: BackupMode,
    pub extensions: Seq<Seq<char>>,
    pub policy: ExclusionPolicy,
    /// The bytes of the files copied so far.
    pub total_bytes: nat,
}

/// The first stage of a run: the destination is resolved, nothing has been
/// touched.
pub struct BackupRun {
    source: String,
    destination: String,
    backup_type: String,
    extensions: Vec<String>,
    policy: ExclusionPolicy,
}

/// The second stage of a run: the source exists and the backup kind is
/// known.
pub struct PreparedRun {
    source: String,
    destination: String,
    mode: BackupMode,
    extensions: Vec<String>,
    policy: ExclusionPolicy,
    source_is_directory: bool,
}

/// The third stage of a run: the tree is being walked.
pub struct Walk {
    source: String,
    destination: String,
    mode: BackupMode,
    extensions: Vec<String>,
    policy: ExclusionPolicy,
    total_bytes: u64,
}

impl View for BackupRun {
    type V = RunView;

    closed spec fn view(&self) -> RunView {
        RunView {
            source: self.source@,
            destination: self.destination@,
            backup_type: self.backup_type@,
            extensions: texts(self.extensions@),
            policy: self.policy,
        }
    }
}

impl View for PreparedRun {
    type V = PreparedView;

    closed spec fn view(&self) -> PreparedView {
        PreparedView {
            source: self.source@,
            destination: self.destination@,
            mode: self.mode,
            extensions: texts(self.extensions@),
            policy: self.policy,
            source_is_directory: self.source_is_directory,
        }
    }
}

impl View for Walk {
    type V = WalkView;

    closed spec fn view(&self) -> WalkView {
        WalkView {
            source: self.source@,
            destination: self.destination@,
            mode: self.mode,
            extensions: texts(self.extensions@),
            policy: self.policy,
            total_bytes: self.total_bytes as nat,
        }
    }
}

/// The detail of the failure of a run whose source is no directory.
pub open spec fn not_a_directory(source: Seq<char>) -> Seq<char> {
    "Il percorso non \u{e8} una directory: "@ + source
}

/// What the probe of the source leads to: a missing source ends the run
/// before anything else is looked at, an unknown backup type ends it before
/// anything is written.
pub open spec fn after_probe(run: RunView, exists: bool, is_directory: bool) -> Result<
    PreparedView,
    BackupError,
> {
    if !exists {
        Err(BackupError::SourceNotFound)
    } else {
        match mode_named(run.backup_type) {
            None => Err(BackupError::InvalidBackupType),
            Some(mode) => Ok(
                PreparedView {
                    source: run.source,
                    destination: run.destination,
                    mode,
                    extensions: run.extensions,
                    policy: run.policy,
                    source_is_directory: is_directory,
                },
            ),
        }
    }
}

/// The walk that a prepared run starts with.
pub open spec fn first_walk(run: PreparedView) -> WalkView {
    WalkView {
        source: run.source,
        destination: run.destination,
        mode: run.mode,
        extensions: run.extensions,
        policy: run.policy,
        total_bytes: 0,
    }
}

impl BackupRun {
    /// Plans a run of `config`. The copy goes below the configured
    /// destination, into a directory named like the source.
    pub fn new(config: Config, policy: ExclusionPolicy) -> (run: BackupRun)
        ensures
            run@ == (RunView {
                source: config.source_path@,
                destination: resolved_destination(config.destination_path@, config.source_path@),
                backup_type: config.backup_type@,
                extensions: texts(config.extensions_to_backup@),
                policy,
            }),
    {
        let destination = resolve_destination(
            config.destination_path.as_str(),
            config.source_path.as_str(),
        );
        BackupRun {
            source: config.source_path,
            destination,
            backup_type: config.backup_type,
            extensions: config.extensions_to_backup,
            policy,
        }
    }

    /// The path that the host is to probe.
    pub fn source(&self) -> (path: &str)
        ensures
            path@ == self@.source,
    {
        self.source.as_str()
    }

    /// The directory that the copy goes to.
    pub fn destination(&self) -> (path: &str)
        ensures
            path@ == self@.destination,
    {
        self.destination.as_str()
    }

    /// Takes the result of the probe: whether the source exists, and
    /// whether it is a directory.
    ///
    /// A missing source fails the run with `SourceNotFound`, whatever the
    /// configuration says otherwise. With the source there, a backup type
    /// that is none of the recognized ones fails it with `InvalidBackupType`.
    /// Nothing has been written at either point.
    pub fn source_probed(self, exists: bool, is_directory: bool) -> (next: Result<
        PreparedRun,
        BackupError,
    >)
        ensures
            stage_view(next) == after_probe(self@, exists, is_directory),
            !exists ==> next is Err && next->Err_0 is SourceNotFound,
            exists && mode_named(self@.backup_type) is None ==> next is Err && next->Err_0
                is InvalidBackupType,
            exists && mode_named(self@.backup_type) is Some ==> next is Ok,
    {
        if !exists {
            return Err(BackupError::SourceNotFound);
        }
        match backup_mode(self.backup_type.as_str()) {
            None => Err(BackupError::InvalidBackupType),
            Some(mode) => Ok(
                PreparedRun {
                    source: self.source,
                    destination: self.destination,
                    mode,
                    extensions: self.extensions,
                    policy: self.policy,
                    source_is_directory: is_directory,
                },
            ),
        }
    }
}

/// The result of a stage, with the next stage taken by its view.
pub open spec fn stage_view<S: View>(next: Result<S, BackupError>) -> Result<S::V, BackupError> {
    match next {
        Ok(stage) => Ok(stage@),
        Err(e) => Err(e),
    }
}

impl PreparedRun {
    /// The path of the source.
    pub fn source(&self) -> (path: &str)
        ensures
            path@ == self@.source,
    {
        self.source.as_str()
    }

    /// The directory that the host is to create, with all its parents.
    pub fn destination(&self) -> (path: &str)
        ensures
            path@ == self@.destination,
    {
        self.destination.as_str()
    }

    /// The kind of the backup.
    pub fn mode(&self) -> (mode: BackupMode)
        ensures
            mode == self@.mode,
    {
        self.mode
    }

    /// Takes the result of creating the destination: `None` when it is
    /// there, else what went wrong.
    ///
    /// A failure ends the run with `IoError` and the host's detail. With
    /// the destination there, a source that is no directory ends it with
    /// `IoError` too. Otherwise the walk begins, with no byte copied yet.
    pub fn destination_ready(self, failure: Option<String>) -> (next: Result<Walk, BackupError>)
        ensures
            match next {
                Ok(walk) => failure is None && self@.source_is_directory && walk@ == first_walk(
                    self@,
                ),
                Err(BackupError::IoError(detail)) => match failure {
                    Some(reported) => detail@ == reported@,
                    None => !self@.source_is_directory && detail@ == not_a_directory(self@.source),
                },
                Err(_) => false,
            },
    {
        match failure {
            Some(detail) => Err(BackupError::IoError(detail)),
            None => {
                if self.source_is_directory {
                    Ok(
                        Walk {
                            source: self.source,
                            destination: self.destination,
                            mode: self.mode,
                            extensions: self.extensions,
                            policy: self.policy,
                            total_bytes: 0,
                        },
                    )
                } else {
                    let mut detail = String::from_str("Il percorso non \u{e8} una directory: ");
                    detail.append(self.source.as_str());
                    Err(BackupError::IoError(detail))
                }
            },
        }
    }
}

impl Walk {
    /// The directory that the host is to walk.
    pub fn source(&self) -> (path: &str)
        ensures
            path@ == self@.source,
    {
        self.source.as_str()
    }

    /// The directory below which the host mirrors the source.
    pub fn destination(&self) -> (path: &str)
        ensures
            path@ == self@.destination,
    {
        self.destination.as_str()
    }

    /// Which entries the walk keeps away from.
    pub fn policy(&self) -> (policy: ExclusionPolicy)
        ensures
            policy == self@.policy,
    {
        self.policy
    }

    /// The kind of the backup.
    pub fn mode(&self) -> (mode: BackupMode)
        ensures
            mode == self@.mode,
    {
        self.mode
    }

    /// The bytes of the files copied so far.
    pub fn total_bytes(&self) -> (total: u64)
        ensures
            total == self@.total_bytes,
    {
        self.total_bytes
    }

    /// Whether the walk keeps away from `entry` and from all that lies
    /// below it.
    pub fn skips(&self, entry: &Entry) -> (skip: bool)
        ensures
            skip == excluded(entry.name@, entry.path@, entry.kind, self@.policy),
    {
        is_hidden_or_problematic(entry, self.policy)
    }

    /// Classifies an entry that the walk has come to: a directory to
    /// create, a file to copy, or nothing to do.
    pub fn class_of(&self, entry: &Entry) -> (class: EntryClass)
        ensures
            class == entry_class(
                entry.name@,
                entry.path@,
                entry.kind,
                self@.mode,
                self@.extensions,
                self@.policy,
            ),
    {
        classify_entry(entry, self.mode, &self.extensions, self.policy)
    }

    /// Says what the host is to do with an entry that the walk has come
    /// to, and where below the destination the entry goes.
    pub fn visit(&self, entry: &Entry) -> (visit: Visit)
        ensures
            visit@ == visit_of(entry.name@, entry.path@, entry.kind, self@),
    {
        match classify_entry(entry, self.mode, &self.extensions, self.policy) {
            EntryClass::Skipped(SkipReason::Hidden) => Visit::Skip(SkipReason::Hidden),
            EntryClass::Skipped(SkipReason::PseudoFilesystem) => Visit::Skip(
                SkipReason::PseudoFilesystem,
            ),
            class => match relative_path(entry.path.as_str(), self.source.as_str()) {
                None => Visit::Skip(SkipReason::OutsideSource),
                Some(relative) => match class {
                    EntryClass::Directory => Visit::CreateDirectory(
                        mirror(self.destination.as_str(), relative.as_str()),
                    ),
                    EntryClass::RegularFile => Visit::CopyFile(
                        mirror(self.destination.as_str(), relative.as_str()),
                    ),
                    EntryClass::Skipped(reason) => Visit::Skip(reason),
                },
            },
        }
    }

    /// Counts a file that was copied. Files that could not be copied are
    /// not reported and do not count.
    pub fn copied(&mut self, bytes: u64)
        requires
            old(self)@.total_bytes + bytes <= u64::MAX,
        ensures
            final(self)@ == (WalkView {
                total_bytes: old(self)@.total_bytes + bytes as nat,
                ..old(self)@
            }),
    {
        self.total_bytes = self.total_bytes + bytes;
    }

    /// Ends the run after the walk: the result holds the bytes counted and
    /// the time that the host measured.
    pub fn finish(self, elapsed_millis: u64) -> (result: CopyResult)
        ensures
            result.total_bytes == self@.total_bytes,
            result.elapsed_millis == elapsed_millis,
    {
        CopyResult { total_bytes: self.total_bytes, elapsed_millis }
    }
}

} // verus!
