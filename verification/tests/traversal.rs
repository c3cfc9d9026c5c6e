use space_usage::dedup::SeenInodes;
use space_usage::meta::FaultKind;
use space_usage::meta::FileKind;
use space_usage::meta::FileMeta;
use space_usage::opts::Opts;
use space_usage::traverse::next_step;
use space_usage::traverse::Disposition;
use space_usage::traverse::FaultAction;
use space_usage::traverse::LoopStep;
use space_usage::traverse::Traversal;

fn file(len: u64, ino: u64, nlink: u64) -> FileMeta {
    FileMeta { kind: FileKind::Regular, len, dev: 1, ino, nlink }
}

fn dir(ino: u64) -> FileMeta {
    FileMeta { kind: FileKind::Directory, len: 4096, dev: 1, ino, nlink: 2 }
}

fn symlink(ino: u64) -> FileMeta {
    FileMeta { kind: FileKind::Symlink, len: 10, dev: 1, ino, nlink: 1 }
}

fn opts() -> Opts {
    Opts::new()
}

#[test]
fn sum_of_known_sizes() {
    let mut t = Traversal::new(&opts());
    let sizes: [u64; 5] = [1, 2, 3, 500, 10_000];
    for (i, s) in sizes.iter().enumerate() {
        let d = t.on_metadata_ok(&file(*s, 100 + i as u64, 1));
        assert_eq!(d, Disposition::Counted);
    }
    assert_eq!(t.total, 10_506);
}

#[test]
fn hardlink_counted_once_by_default() {
    let mut t = Traversal::new(&opts());
    let m = file(100, 7, 2);
    assert_eq!(t.on_metadata_ok(&m), Disposition::Counted);
    assert_eq!(t.on_metadata_ok(&m), Disposition::Duplicate);
    assert_eq!(t.total, 100);
}

#[test]
fn hardlink_counted_twice_when_ignored() {
    let mut o = opts();
    o.ignore_hardlinks = true;
    let mut t = Traversal::new(&o);
    let m = file(100, 7, 2);
    assert_eq!(t.on_metadata_ok(&m), Disposition::Counted);
    assert_eq!(t.on_metadata_ok(&m), Disposition::Counted);
    assert_eq!(t.total, 200);
}

#[test]
fn symlink_skipped_by_default() {
    let mut t = Traversal::new(&opts());
    assert_eq!(t.on_metadata_ok(&symlink(9)), Disposition::Skipped);
    assert_eq!(t.total, 0);
}

#[test]
fn symlink_followed_counts_target() {
    let mut o = opts();
    o.follow_symlinks = true;
    let mut t = Traversal::new(&o);
    // The link itself asks for a following re-stat, which then reports the
    // 100-byte target file.
    assert_eq!(t.on_metadata_ok(&symlink(9)), Disposition::FollowLink);
    assert_eq!(t.total, 0);
    assert_eq!(t.on_metadata_ok(&file(100, 11, 1)), Disposition::Counted);
    assert_eq!(t.total, 100);
}

#[test]
fn symlink_to_directory_expands() {
    let mut o = opts();
    o.follow_symlinks = true;
    let mut t = Traversal::new(&o);
    assert_eq!(t.on_metadata_ok(&symlink(9)), Disposition::FollowLink);
    // The following re-stat reports a directory: its contents get expanded.
    assert_eq!(t.on_metadata_ok(&dir(12)), Disposition::Expand);
}

#[test]
fn other_objects_contribute_nothing() {
    let mut t = Traversal::new(&opts());
    let m = FileMeta { kind: FileKind::Other, len: 999, dev: 1, ino: 3, nlink: 1 };
    assert_eq!(t.on_metadata_ok(&m), Disposition::Skipped);
    assert_eq!(t.total, 0);
}

#[test]
fn vanished_child_is_ignored() {
    let mut t = Traversal::new(&opts());
    assert_eq!(t.on_metadata_ok(&file(40, 1, 1)), Disposition::Counted);
    // A listed sibling vanished before its stat resolved: the fault is
    // dropped and the traversal can still complete with the rest counted.
    assert_eq!(t.on_fault(FaultKind::NotFound), FaultAction::Ignore);
    assert_eq!(next_step(0, 0), LoopStep::Done);
    assert_eq!(t.total, 40);
}

#[test]
fn resource_exhaustion_is_retried() {
    let t = Traversal::new(&opts());
    assert_eq!(t.on_fault(FaultKind::ResourceExhausted), FaultAction::Retry);
}

#[test]
fn unexpected_fault_aborts() {
    let t = Traversal::new(&opts());
    assert_eq!(t.on_fault(FaultKind::Other), FaultAction::Abort);
}

#[test]
fn completion_order_does_not_change_total() {
    // The same tree's completions in two different interleavings: files,
    // directories, and a pair of hard links to one inode.
    let events = vec![
        file(10, 1, 1),
        dir(2),
        file(300, 3, 2),
        file(300, 3, 2),
        symlink(4),
        file(7, 5, 1),
        dir(6),
        file(2_000, 7, 1),
    ];
    let mut forward = Traversal::new(&opts());
    for e in events.iter() {
        forward.on_metadata_ok(e);
    }
    let mut backward = Traversal::new(&opts());
    for e in events.iter().rev() {
        backward.on_metadata_ok(e);
    }
    assert_eq!(forward.total, backward.total);
    assert_eq!(forward.total, 10 + 300 + 7 + 2_000);
}

#[test]
fn empty_directory_total_zero() {
    let mut t = Traversal::new(&opts());
    // The root resolves to a directory and is handed off for expansion.
    assert_eq!(t.on_metadata_ok(&dir(1)), Disposition::Expand);
    // Its listing yields no children, so both pools drain at once.
    assert_eq!(next_step(0, 1), LoopStep::AwaitExpansion);
    assert_eq!(next_step(0, 0), LoopStep::Done);
    assert_eq!(t.total, 0);
}

#[test]
fn deep_nesting_sums_all_files() {
    let dirs: u64 = 50;
    let files: u64 = 1_000;
    let mut t = Traversal::new(&opts());
    let mut expected: u64 = 0;
    let mut pending_meta: usize = 1;
    let mut ino: u64 = 1;
    for level in 0..dirs {
        assert_eq!(next_step(pending_meta, 0), LoopStep::AwaitMetadata);
        assert_eq!(t.on_metadata_ok(&dir(ino)), Disposition::Expand);
        pending_meta -= 1;
        ino += 1;
        // The expansion lists this level's files, and one subdirectory on
        // every level but the last.
        let children = files / dirs + if level + 1 < dirs { 1 } else { 0 };
        pending_meta += children as usize;
        for _ in 0..files / dirs {
            let len = ino % 97;
            assert_eq!(t.on_metadata_ok(&file(len, ino, 1)), Disposition::Counted);
            expected += len;
            pending_meta -= 1;
            ino += 1;
        }
    }
    assert_eq!(next_step(pending_meta, 0), LoopStep::Done);
    assert_eq!(t.total, expected);
}

#[test]
fn overflow_is_reported_and_total_kept() {
    let mut t = Traversal::new(&opts());
    assert_eq!(t.on_metadata_ok(&file(u64::MAX, 1, 1)), Disposition::Counted);
    assert_eq!(t.on_metadata_ok(&file(1, 2, 1)), Disposition::Overflow);
    assert_eq!(t.total, u64::MAX);
}

#[test]
fn seen_inodes_reports_first_occurrence() {
    let mut s = SeenInodes::new();
    assert!(s.observe(1, 10));
    assert!(s.observe(2, 10));
    assert!(s.observe(1, 11));
    assert!(!s.observe(1, 10));
    assert!(!s.observe(2, 10));
}

#[test]
fn loop_blocks_on_metadata_while_any_is_in_flight() {
    assert_eq!(next_step(3, 2), LoopStep::AwaitMetadata);
    assert_eq!(next_step(1, 0), LoopStep::AwaitMetadata);
    assert_eq!(next_step(0, 5), LoopStep::AwaitExpansion);
}

#[test]
fn default_options() {
    let o = Opts::new();
    assert!(o.dir.is_none());
    assert!(!o.human_readable);
    assert!(!o.ignore_hardlinks);
    assert!(!o.follow_symlinks);
}
