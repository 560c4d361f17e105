//! What holds of the backup engine on every entry and every path.

use vstd::prelude::*;
use crate::backup::{
    entry_class, excluded, visit_of, BackupMode, EntryClass, EntryKind, ExclusionPolicy, SkipReason,
    VisitView, WalkView,
};
use crate::paths::{
    component_start, extension_of, final_component_of, hidden_name, joined, last_component,
    lemma_component_start, mirrored, relative_to, resolved_destination,
};

verus! {

/// A hidden entry is skipped: under every policy, in every kind of backup,
/// whatever the entry is and wherever it lies.
pub proof fn lemma_hidden_entries_are_skipped(
    name: Seq<char>,
    path: Seq<char>,
    kind: EntryKind,
    walk: WalkView,
)
    requires
        hidden_name(name),
    ensures
        excluded(name, path, kind, walk.policy),
        entry_class(name, path, kind, walk.mode, walk.extensions, walk.policy)
            == EntryClass::Skipped(SkipReason::Hidden),
        visit_of(name, path, kind, walk) == VisitView::Skip(SkipReason::Hidden),
{
}

/// What the walk keeps away from is never created or copied, and nothing
/// but hidden entries and the directories of virtual file systems is kept
/// away from.
pub proof fn lemma_excluded_entries_are_skipped(
    name: Seq<char>,
    path: Seq<char>,
    kind: EntryKind,
    walk: WalkView,
)
    ensures
        excluded(name, path, kind, walk.policy) <==> visit_of(name, path, kind, walk)
            == VisitView::Skip(SkipReason::Hidden) || visit_of(name, path, kind, walk)
            == VisitView::Skip(SkipReason::PseudoFilesystem),
        excluded(name, path, kind, walk.policy) ==> entry_class(
            name,
            path,
            kind,
            walk.mode,
            walk.extensions,
            walk.policy,
        ) is Skipped,
        walk.policy == ExclusionPolicy::HiddenOnly ==> (excluded(name, path, kind, walk.policy)
            <==> hidden_name(name)),
{
}

/// The directory structure is mirrored regardless of filtering: whether a
/// directory is created depends neither on the kind of the backup nor on
/// the configured extensions.
pub proof fn lemma_directories_ignore_the_filter(
    name: Seq<char>,
    path: Seq<char>,
    policy: ExclusionPolicy,
    mode: BackupMode,
    extensions: Seq<Seq<char>>,
    other_mode: BackupMode,
    other_extensions: Seq<Seq<char>>,
)
    ensures
        entry_class(name, path, EntryKind::Directory, mode, extensions, policy) == entry_class(
            name,
            path,
            EntryKind::Directory,
            other_mode,
            other_extensions,
            policy,
        ),
        !excluded(name, path, EntryKind::Directory, policy) ==> entry_class(
            name,
            path,
            EntryKind::Directory,
            mode,
            extensions,
            policy,
        ) == EntryClass::Directory,
{
}

/// In a backup of a whole disk or directory every file that the walk does
/// not keep away from is copied.
pub proof fn lemma_unfiltered_backup_copies_every_file(
    name: Seq<char>,
    path: Seq<char>,
    policy: ExclusionPolicy,
    mode: BackupMode,
    extensions: Seq<Seq<char>>,
)
    requires
        mode != BackupMode::Selective,
        !excluded(name, path, EntryKind::File, policy),
    ensures
        entry_class(name, path, EntryKind::File, mode, extensions, policy)
            == EntryClass::RegularFile,
{
}

/// In a selective backup a file is copied exactly when it is not hidden
/// and has an extension that is one of the configured ones; a file without
/// an extension never is.
pub proof fn lemma_selective_backup_goes_by_extension(
    name: Seq<char>,
    path: Seq<char>,
    policy: ExclusionPolicy,
    extensions: Seq<Seq<char>>,
)
    ensures
        entry_class(name, path, EntryKind::File, BackupMode::Selective, extensions, policy)
            == EntryClass::RegularFile <==> !hidden_name(name) && extension_of(name) is Some
            && extensions.contains(extension_of(name)->0),
        extension_of(name) is None ==> entry_class(
            name,
            path,
            EntryKind::File,
            BackupMode::Selective,
            extensions,
            policy,
        ) is Skipped,
{
}

/// Nothing is copied but regular files, and nothing is created but
/// directories.
pub proof fn lemma_visits_go_by_kind(name: Seq<char>, path: Seq<char>, kind: EntryKind, walk: WalkView)
    ensures
        visit_of(name, path, kind, walk) is CopyFile ==> kind == EntryKind::File,
        visit_of(name, path, kind, walk) is CreateDirectory ==> kind == EntryKind::Directory,
        kind == EntryKind::Other ==> visit_of(name, path, kind, walk) is Skip,
{
}

/// Whatever a run creates or copies lies in the destination or below it.
pub proof fn lemma_targets_lie_below_the_destination(
    name: Seq<char>,
    path: Seq<char>,
    kind: EntryKind,
    walk: WalkView,
)
    ensures
        match visit_of(name, path, kind, walk) {
            VisitView::CreateDirectory(target) => walk.destination.is_prefix_of(target),
            VisitView::CopyFile(target) => walk.destination.is_prefix_of(target),
            VisitView::Skip(_) => true,
        },
{
    match relative_to(path, walk.source) {
        Some(relative) => {
            lemma_mirrored_lies_below(walk.destination, relative);
        },
        None => {},
    }
}

/// A mirrored path begins with the destination.
pub proof fn lemma_mirrored_lies_below(destination: Seq<char>, relative: Seq<char>)
    ensures
        destination.is_prefix_of(mirrored(destination, relative)),
        destination.is_prefix_of(joined(destination, relative)),
{
    assert(destination.is_prefix_of(joined(destination, relative))) by {
        assert(joined(destination, relative).subrange(0, destination.len() as int)
            =~= destination);
    }
    assert(destination.subrange(0, destination.len() as int) =~= destination);
}

/// The resolved destination of a run is the configured destination or lies
/// directly below it.
pub proof fn lemma_destination_lies_below_the_root(destination_root: Seq<char>, source: Seq<char>)
    ensures
        destination_root.is_prefix_of(resolved_destination(destination_root, source)),
{
    match final_component_of(source) {
        Some(name) => lemma_mirrored_lies_below(destination_root, name),
        None => {
            assert(destination_root.subrange(0, destination_root.len() as int)
                =~= destination_root);
        },
    }
}

/// A final component is a name: it is not empty, holds no separator, and
/// is neither `.` nor `..`.
pub proof fn lemma_final_component_is_a_name(path: Seq<char>, end: int)
    requires
        0 <= end <= path.len(),
    ensures
        match last_component(path, end) {
            Some(name) => name.len() > 0 && !name.contains('/') && name != seq!['.'] && name
                != seq!['.', '.'],
            None => true,
        },
    decreases end,
{
    if end > 0 {
        if path[end - 1] == '/' {
            lemma_final_component_is_a_name(path, end - 1);
        } else {
            let start: int = component_start(path, end);
            lemma_component_start(path, end);
            let name = path.subrange(start, end);
            if name == seq!['.'] {
                lemma_final_component_is_a_name(path, start);
            } else if name != seq!['.', '.'] {
                assert forall|i: int| 0 <= i < name.len() implies name[i] != '/' by {
                    assert(name[i] == path[start + i]);
                }
            }
        }
    }
}

} // verus!
