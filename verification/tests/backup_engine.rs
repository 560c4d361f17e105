use backmeup::backup::{
    backup_mode, classify_entry, is_hidden_or_problematic, BackupError, BackupMode, BackupRun,
    Config, CopyResult, Entry, EntryClass, EntryKind, ExclusionPolicy, SkipReason, Visit, Walk,
};
use backmeup::backup_log::{log_path, log_record, render_seconds};

fn config(source: &str, destination: &str, backup_type: &str, extensions: &[&str]) -> Config {
    Config {
        source_path: source.to_string(),
        destination_path: destination.to_string(),
        backup_type: backup_type.to_string(),
        extensions_to_backup: extensions.iter().map(|e| e.to_string()).collect(),
    }
}

fn entry(path: &str, kind: EntryKind) -> Entry {
    let name = path.rsplit('/').next().unwrap_or("").to_string();
    Entry { name, path: path.to_string(), kind }
}

fn file(path: &str) -> Entry {
    entry(path, EntryKind::File)
}

fn dir(path: &str) -> Entry {
    entry(path, EntryKind::Directory)
}

fn walk(backup_type: &str, extensions: &[&str], policy: ExclusionPolicy) -> Walk {
    BackupRun::new(config("/home/user/docs", "/mnt/backup", backup_type, extensions), policy)
        .source_probed(true, true)
        .expect("the source exists and the type is known")
        .destination_ready(None)
        .expect("the destination is there")
}

/// A tree on a pretend disk: directories and files with their sizes, in the
/// order in which a depth-first walk comes to them.
struct Tree {
    entries: Vec<(Entry, u64)>,
}

/// What a pretend host did during a run: the directories that it created
/// and the files that it wrote, by their paths below the destination.
#[derive(Default)]
struct Host {
    created: Vec<String>,
    copied: Vec<String>,
}

/// Runs the walk over the tree as a host does: entries that the walk skips
/// are pruned with all that lies below them, directories are created, files
/// are copied and counted.
fn run_walk(walk: &mut Walk, tree: &Tree, host: &mut Host) {
    let mut pruned: Vec<String> = Vec::new();
    for (entry, size) in &tree.entries {
        if pruned.iter().any(|p| entry.path.starts_with(&format!("{}/", p))) {
            continue;
        }
        if walk.skips(entry) {
            assert!(matches!(walk.visit(entry), Visit::Skip(_)));
            assert!(matches!(walk.class_of(entry), EntryClass::Skipped(_)));
            pruned.push(entry.path.clone());
            continue;
        }
        match walk.visit(entry) {
            Visit::CreateDirectory(target) => host.created.push(target),
            Visit::CopyFile(target) => {
                host.copied.push(target);
                walk.copied(*size);
            }
            Visit::Skip(_) => {}
        }
    }
}

fn sample_tree() -> Tree {
    Tree {
        entries: vec![
            (dir("/home/user/docs"), 0),
            (file("/home/user/docs/a.txt"), 120),
            (file("/home/user/docs/b.jpg"), 4000),
            (file("/home/user/docs/.secret"), 33),
            (dir("/home/user/docs/sub"), 0),
            (file("/home/user/docs/sub/c.jpg"), 700),
            (dir("/home/user/docs/sub/empty"), 0),
            (dir("/home/user/docs/.git"), 0),
            (file("/home/user/docs/.git/config.txt"), 55),
            (file("/home/user/docs/README"), 9),
            (entry("/home/user/docs/link", EntryKind::Other), 0),
        ],
    }
}

#[test]
fn backup_types_by_name() {
    assert_eq!(backup_mode("full-disk"), Some(BackupMode::FullDisk));
    assert_eq!(backup_mode("directory"), Some(BackupMode::Directory));
    assert_eq!(backup_mode("selective"), Some(BackupMode::Selective));
    assert_eq!(backup_mode("bogus"), None);
    assert_eq!(backup_mode(""), None);
    assert_eq!(backup_mode("Selective"), None);
    assert_eq!(backup_mode("full-disk "), None);
}

#[test]
fn new_run_resolves_the_destination() {
    let run = BackupRun::new(
        config("/home/user/docs", "/mnt/backup", "directory", &[]),
        ExclusionPolicy::HiddenOnly,
    );
    assert_eq!(run.source(), "/home/user/docs");
    assert_eq!(run.destination(), "/mnt/backup/docs");
    let run = BackupRun::new(config("/", "/mnt/backup", "full-disk", &[]), ExclusionPolicy::HiddenOnly);
    assert_eq!(run.destination(), "/mnt/backup");
}

#[test]
fn missing_source_is_source_not_found() {
    let run = BackupRun::new(
        config("/no/such/place", "/mnt/backup", "directory", &[]),
        ExclusionPolicy::HiddenOnly,
    );
    assert!(matches!(run.source_probed(false, false), Err(BackupError::SourceNotFound)));
}

#[test]
fn missing_source_goes_before_a_bogus_type() {
    let run = BackupRun::new(
        config("/no/such/place", "/mnt/backup", "bogus", &[]),
        ExclusionPolicy::HiddenOnly,
    );
    assert!(matches!(run.source_probed(false, true), Err(BackupError::SourceNotFound)));
}

#[test]
fn bogus_type_is_invalid_backup_type() {
    let run = BackupRun::new(
        config("/home/user/docs", "/mnt/backup", "bogus", &[]),
        ExclusionPolicy::HiddenOnly,
    );
    assert!(matches!(run.source_probed(true, true), Err(BackupError::InvalidBackupType)));
}

#[test]
fn known_types_pass_the_probe() {
    for (name, mode) in [
        ("full-disk", BackupMode::FullDisk),
        ("directory", BackupMode::Directory),
        ("selective", BackupMode::Selective),
    ] {
        let run = BackupRun::new(
            config("/home/user/docs", "/mnt/backup", name, &["txt"]),
            ExclusionPolicy::HiddenOnly,
        );
        let prepared = run.source_probed(true, true).expect("known type");
        assert_eq!(prepared.mode(), mode);
        assert_eq!(prepared.source(), "/home/user/docs");
        assert_eq!(prepared.destination(), "/mnt/backup/docs");
    }
}

#[test]
fn failed_destination_is_an_io_error_with_the_detail() {
    let prepared = BackupRun::new(
        config("/home/user/docs", "/mnt/backup", "directory", &[]),
        ExclusionPolicy::HiddenOnly,
    )
    .source_probed(true, true)
    .expect("known type");
    match prepared.destination_ready(Some("permission denied".to_string())) {
        Err(BackupError::IoError(detail)) => assert_eq!(detail, "permission denied"),
        other => panic!("expected an I/O error, got {:?}", other.map(|_| ())),
    }
}

#[test]
fn source_that_is_a_file_is_an_io_error() {
    let prepared = BackupRun::new(
        config("/home/user/notes.txt", "/mnt/backup", "directory", &[]),
        ExclusionPolicy::HiddenOnly,
    )
    .source_probed(true, false)
    .expect("known type");
    match prepared.destination_ready(None) {
        Err(BackupError::IoError(detail)) => {
            assert_eq!(detail, "Il percorso non \u{e8} una directory: /home/user/notes.txt")
        }
        other => panic!("expected an I/O error, got {:?}", other.map(|_| ())),
    }
}

#[test]
fn walk_starts_at_zero_bytes() {
    let walk = walk("directory", &[], ExclusionPolicy::HiddenOnly);
    assert_eq!(walk.total_bytes(), 0);
    assert_eq!(walk.source(), "/home/user/docs");
    assert_eq!(walk.destination(), "/mnt/backup/docs");
}

#[test]
fn selective_run_copies_only_the_chosen_extension() {
    let mut walk = walk("selective", &["txt"], ExclusionPolicy::HiddenOnly);
    let mut host = Host::default();
    run_walk(&mut walk, &sample_tree(), &mut host);
    assert_eq!(host.copied, vec!["/mnt/backup/docs/a.txt"]);
    assert_eq!(
        host.created,
        vec!["/mnt/backup/docs", "/mnt/backup/docs/sub", "/mnt/backup/docs/sub/empty"]
    );
    let result = walk.finish(1500);
    assert_eq!(result, CopyResult { total_bytes: 120, elapsed_millis: 1500 });
}

#[test]
fn directory_run_copies_every_file_that_is_not_hidden() {
    for backup_type in ["directory", "full-disk"] {
        let mut walk = walk(backup_type, &["txt"], ExclusionPolicy::HiddenOnly);
        let mut host = Host::default();
        run_walk(&mut walk, &sample_tree(), &mut host);
        assert_eq!(
            host.copied,
            vec![
                "/mnt/backup/docs/a.txt",
                "/mnt/backup/docs/b.jpg",
                "/mnt/backup/docs/sub/c.jpg",
                "/mnt/backup/docs/README",
            ]
        );
        assert_eq!(
            host.created,
            vec!["/mnt/backup/docs", "/mnt/backup/docs/sub", "/mnt/backup/docs/sub/empty"]
        );
        assert_eq!(walk.finish(0).total_bytes, 120 + 4000 + 700 + 9);
    }
}

#[test]
fn selective_run_with_no_extensions_copies_nothing_but_mirrors_directories() {
    let mut walk = walk("selective", &[], ExclusionPolicy::HiddenOnly);
    let mut host = Host::default();
    run_walk(&mut walk, &sample_tree(), &mut host);
    assert!(host.copied.is_empty());
    assert_eq!(host.created.len(), 3);
    assert_eq!(walk.finish(10).total_bytes, 0);
}

#[test]
fn failed_copies_do_not_count() {
    let mut walk = walk("directory", &[], ExclusionPolicy::HiddenOnly);
    assert_eq!(walk.class_of(&file("/home/user/docs/a.txt")), EntryClass::RegularFile);
    walk.copied(120);
    // The copy of the next file fails on the host: nothing is reported.
    assert_eq!(walk.class_of(&file("/home/user/docs/b.jpg")), EntryClass::RegularFile);
    assert_eq!(walk.class_of(&file("/home/user/docs/c.bin")), EntryClass::RegularFile);
    walk.copied(5);
    assert_eq!(walk.total_bytes(), 125);
    walk.copied(u64::MAX - 125);
    assert_eq!(walk.total_bytes(), u64::MAX);
}

#[test]
fn classes_of_single_entries() {
    let ext = vec!["txt".to_string(), "md".to_string()];
    let all = ExclusionPolicy::HiddenAndPseudoFilesystems;
    let class = |e: &Entry, mode| classify_entry(e, mode, &ext, all);
    assert_eq!(class(&file("/d/a.txt"), BackupMode::Selective), EntryClass::RegularFile);
    assert_eq!(class(&file("/d/a.md"), BackupMode::Selective), EntryClass::RegularFile);
    assert_eq!(
        class(&file("/d/a.TXT"), BackupMode::Selective),
        EntryClass::Skipped(SkipReason::ExtensionNotSelected)
    );
    assert_eq!(
        class(&file("/d/a.txt.bak"), BackupMode::Selective),
        EntryClass::Skipped(SkipReason::ExtensionNotSelected)
    );
    assert_eq!(
        class(&file("/d/README"), BackupMode::Selective),
        EntryClass::Skipped(SkipReason::NoExtension)
    );
    assert_eq!(
        class(&file("/d/trailing."), BackupMode::Selective),
        EntryClass::Skipped(SkipReason::ExtensionNotSelected)
    );
    assert_eq!(class(&file("/d/README"), BackupMode::Directory), EntryClass::RegularFile);
    assert_eq!(class(&file("/d/README"), BackupMode::FullDisk), EntryClass::RegularFile);
    assert_eq!(class(&dir("/d/sub"), BackupMode::Selective), EntryClass::Directory);
    assert_eq!(class(&dir("/d/sub.txt"), BackupMode::Selective), EntryClass::Directory);
    assert_eq!(
        class(&file("/d/.a.txt"), BackupMode::Selective),
        EntryClass::Skipped(SkipReason::Hidden)
    );
    assert_eq!(
        class(&dir("/d/.cache"), BackupMode::FullDisk),
        EntryClass::Skipped(SkipReason::Hidden)
    );
    assert_eq!(
        class(&entry("/d/socket", EntryKind::Other), BackupMode::FullDisk),
        EntryClass::Skipped(SkipReason::NotCopyable)
    );
    assert_eq!(
        class(&dir("/proc/1"), BackupMode::FullDisk),
        EntryClass::Skipped(SkipReason::PseudoFilesystem)
    );
}

#[test]
fn pseudo_filesystems_are_kept_away_from_under_that_policy_only() {
    let roots = ["/sys", "/proc", "/dev", "/run", "/tmp"];
    for root in roots {
        for path in [root.to_string(), format!("{}/x", root), format!("{}/x/y", root)] {
            let d = dir(&path);
            assert!(is_hidden_or_problematic(&d, ExclusionPolicy::HiddenAndPseudoFilesystems));
            assert!(!is_hidden_or_problematic(&d, ExclusionPolicy::HiddenOnly));
            // Only directories are kept away from.
            let f = file(&path);
            assert!(!is_hidden_or_problematic(&f, ExclusionPolicy::HiddenAndPseudoFilesystems));
        }
    }
    for path in ["/system", "/home/tmp", "/devices", "/runner/x", "/procfs", "/", "/home"] {
        assert!(!is_hidden_or_problematic(
            &dir(path),
            ExclusionPolicy::HiddenAndPseudoFilesystems
        ));
    }
}

#[test]
fn hidden_entries_are_kept_away_from_under_every_policy() {
    for policy in [ExclusionPolicy::HiddenOnly, ExclusionPolicy::HiddenAndPseudoFilesystems] {
        assert!(is_hidden_or_problematic(&file("/d/.secret"), policy));
        assert!(is_hidden_or_problematic(&dir("/d/.git"), policy));
        assert!(is_hidden_or_problematic(&entry("/d/.sock", EntryKind::Other), policy));
        assert!(!is_hidden_or_problematic(&file("/d/visible"), policy));
    }
}

#[test]
fn full_disk_walk_keeps_out_of_pseudo_filesystems() {
    let tree = Tree {
        entries: vec![
            (dir("/"), 0),
            (dir("/etc"), 0),
            (file("/etc/hosts"), 200),
            (dir("/proc"), 0),
            (dir("/proc/1"), 0),
            (file("/proc/1/status"), 1),
            (dir("/tmp"), 0),
            (file("/tmp/scratch.txt"), 2),
            (dir("/usr"), 0),
            (file("/usr/notes.txt"), 30),
        ],
    };
    let mut walk = BackupRun::new(
        config("/", "/mnt/backup", "full-disk", &[]),
        ExclusionPolicy::HiddenAndPseudoFilesystems,
    )
    .source_probed(true, true)
    .expect("known type")
    .destination_ready(None)
    .expect("destination");
    // The root has no name of its own.
    let mut entries = tree.entries;
    entries[0].0.name = String::new();
    let tree = Tree { entries };
    let mut host = Host::default();
    run_walk(&mut walk, &tree, &mut host);
    assert_eq!(host.created, vec!["/mnt/backup", "/mnt/backup/etc", "/mnt/backup/usr"]);
    assert_eq!(host.copied, vec!["/mnt/backup/etc/hosts", "/mnt/backup/usr/notes.txt"]);
    assert_eq!(walk.finish(1).total_bytes, 230);
}

#[test]
fn seconds_with_two_decimals() {
    assert_eq!(render_seconds(0), "0.00");
    assert_eq!(render_seconds(4), "0.00");
    assert_eq!(render_seconds(5), "0.01");
    assert_eq!(render_seconds(14), "0.01");
    assert_eq!(render_seconds(15), "0.02");
    assert_eq!(render_seconds(994), "0.99");
    assert_eq!(render_seconds(995), "1.00");
    assert_eq!(render_seconds(1000), "1.00");
    assert_eq!(render_seconds(1234), "1.23");
    assert_eq!(render_seconds(1235), "1.24");
    assert_eq!(render_seconds(59_999), "60.00");
    assert_eq!(render_seconds(3_600_070), "3600.07");
    assert_eq!(render_seconds(u64::MAX), "18446744073709551.62");
}

#[test]
fn record_of_a_run() {
    let record = log_record(&CopyResult { total_bytes: 120, elapsed_millis: 1500 });
    assert_eq!(
        record,
        "Total size of saved files: 120 bytes\nBackup completed in: 1.50 seconds\n"
    );
    let record = log_record(&CopyResult { total_bytes: 0, elapsed_millis: 0 });
    assert_eq!(
        record,
        "Total size of saved files: 0 bytes\nBackup completed in: 0.00 seconds\n"
    );
    let record = log_record(&CopyResult { total_bytes: u64::MAX, elapsed_millis: 61_006 });
    assert_eq!(
        record,
        "Total size of saved files: 18446744073709551615 bytes\nBackup completed in: 61.01 seconds\n"
    );
}

#[test]
fn record_agrees_with_the_formatting_of_seconds() {
    for millis in [0u64, 1, 9, 10, 99, 100, 123, 999, 1001, 12_340, 98_760, 1_000_000] {
        // Milliseconds that do not end in 5 are never a tie.
        if millis % 10 != 5 {
            let expected = format!("{:.2}", millis as f64 / 1000.0);
            assert_eq!(render_seconds(millis), expected);
        }
    }
}

#[test]
fn log_file_lies_in_the_destination() {
    assert_eq!(log_path("/mnt/backup/docs"), "/mnt/backup/docs/backup_log.txt");
    assert_eq!(log_path("/mnt/backup/docs/"), "/mnt/backup/docs/backup_log.txt");
}

#[test]
fn visit_says_where_each_entry_goes() {
    let walk = walk("selective", &["txt"], ExclusionPolicy::HiddenOnly);
    match walk.visit(&dir("/home/user/docs")) {
        Visit::CreateDirectory(target) => assert_eq!(target, "/mnt/backup/docs"),
        other => panic!("unexpected {:?}", other),
    }
    match walk.visit(&dir("/home/user/docs/a/b")) {
        Visit::CreateDirectory(target) => assert_eq!(target, "/mnt/backup/docs/a/b"),
        other => panic!("unexpected {:?}", other),
    }
    match walk.visit(&file("/home/user/docs/a/b/c.txt")) {
        Visit::CopyFile(target) => assert_eq!(target, "/mnt/backup/docs/a/b/c.txt"),
        other => panic!("unexpected {:?}", other),
    }
    assert!(matches!(
        walk.visit(&file("/home/user/docs/a/b/c.jpg")),
        Visit::Skip(SkipReason::ExtensionNotSelected)
    ));
    assert!(matches!(
        walk.visit(&file("/home/user/docs/a/b/c")),
        Visit::Skip(SkipReason::NoExtension)
    ));
    assert!(matches!(
        walk.visit(&file("/home/user/docs/.c.txt")),
        Visit::Skip(SkipReason::Hidden)
    ));
    assert!(matches!(
        walk.visit(&entry("/home/user/docs/pipe", EntryKind::Other)),
        Visit::Skip(SkipReason::NotCopyable)
    ));
}

#[test]
fn entries_outside_the_source_are_skipped() {
    let walk = walk("directory", &[], ExclusionPolicy::HiddenOnly);
    for path in ["/home/user/other/a.txt", "/home/user/docs2/a.txt", "/home/user", "a.txt"] {
        assert!(matches!(
            walk.visit(&file(path)),
            Visit::Skip(SkipReason::OutsideSource)
        ));
        assert!(matches!(
            walk.visit(&dir(path)),
            Visit::Skip(SkipReason::OutsideSource)
        ));
    }
}

#[test]
fn source_with_a_trailing_separator_mirrors_alike() {
    let walk = BackupRun::new(
        config("/home/user/docs/", "/mnt/backup/", "directory", &[]),
        ExclusionPolicy::HiddenOnly,
    )
    .source_probed(true, true)
    .expect("known type")
    .destination_ready(None)
    .expect("destination");
    assert_eq!(walk.destination(), "/mnt/backup/docs");
    match walk.visit(&file("/home/user/docs/a.txt")) {
        Visit::CopyFile(target) => assert_eq!(target, "/mnt/backup/docs/a.txt"),
        other => panic!("unexpected {:?}", other),
    }
    match walk.visit(&dir("/home/user/docs/")) {
        Visit::CreateDirectory(target) => assert_eq!(target, "/mnt/backup/docs"),
        other => panic!("unexpected {:?}", other),
    }
}
