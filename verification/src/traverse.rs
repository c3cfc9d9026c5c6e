//! The traversal's decisions: aggregation with hard-link deduplication,
//! symlink policy, fault routing, and the driving loop's next step.

use vstd::prelude::*;

use crate::dedup::InodeKey;
use crate::dedup::SeenInodes;
use crate::meta::FaultKind;
use crate::meta::FileKind;
use crate::meta::FileMeta;
use crate::opts::Opts;

verus! {

/// What the scheduler must do after one successful metadata fetch.
#[derive(Debug, Clone, Copy, PartialEq, Eq, Structural)]
pub enum Disposition {
    /// A regular file, seen for the first time: its length was added.
    Counted,
    /// An object whose inode was already counted: nothing added.
    Duplicate,
    /// A directory: submit an expansion task for this path.
    Expand,
    /// A symlink under the follow policy: submit a link-following fetch
    /// for this path. Chains are re-resolved link by link; no cycle
    /// detection is attempted, so a cyclic chain of directory links keeps
    /// generating work — a known limitation of the follow mode.
    FollowLink,
    /// Nothing to count and nothing to submit: a symlink under the skip
    /// policy, or an object that is neither file, directory nor symlink.
    Skipped,
    /// Adding the file's length would exceed the accumulator's range:
    /// abort the traversal.
    Overflow,
}

/// What the scheduler must do after a failed filesystem operation.
#[derive(Debug, Clone, Copy, PartialEq, Eq, Structural)]
pub enum FaultAction {
    /// The entry vanished in a race: drop it, it contributes nothing.
    Ignore,
    /// Transient exhaustion: resubmit the same path as a new metadata task.
    /// Retries are unbounded and undelayed; sustained exhaustion retries
    /// forever rather than giving up.
    Retry,
    /// Fatal: stop the whole traversal and surface the failure.
    Abort,
}

/// What the driving loop must do next, given how many tasks are in flight
/// in each pool.
#[derive(Debug, Clone, Copy, PartialEq, Eq, Structural)]
pub enum LoopStep {
    /// Both pools are empty: the traversal is complete.
    Done,
    /// Only expansion tasks remain: block on the next expansion completion.
    AwaitExpansion,
    /// Metadata tasks remain: block on the next metadata completion.
    AwaitMetadata,
}

/// The mathematical state of one traversal: the running total, free of any
/// machine bound, and the set of inode keys already recorded.
#[verifier::ext_equal]
pub ghost struct AggState {
    /// Sum of the lengths counted so far.
    pub total: int,
    /// Inode keys recorded so far.
    pub seen: Set<InodeKey>,
}

/// The dedup key of a metadata record.
pub open spec fn key_of(m: FileMeta) -> InodeKey {
    InodeKey { dev: m.dev, ino: m.ino }
}

/// Whether the dedup set tracks this object at all: dedup is enabled and the
/// inode has several links. Objects with a single link cannot be duplicates
/// and bypass the set.
pub open spec fn tracks_inode(ignore_hardlinks: bool, m: FileMeta) -> bool {
    !ignore_hardlinks && m.nlink > 1
}

/// Whether this object's inode was already recorded, so the object must be
/// skipped.
pub open spec fn is_duplicate(ignore_hardlinks: bool, seen: Set<InodeKey>, m: FileMeta) -> bool {
    tracks_inode(ignore_hardlinks, m) && seen.contains(key_of(m))
}

/// The state after absorbing one successful metadata fetch: a duplicate
/// changes nothing; otherwise the inode is recorded when tracked, and a
/// regular file's length joins the total.
pub open spec fn step_state(ignore_hardlinks: bool, s: AggState, m: FileMeta) -> AggState {
    if is_duplicate(ignore_hardlinks, s.seen, m) {
        s
    } else {
        AggState {
            total: if m.kind == FileKind::Regular {
                s.total + m.len
            } else {
                s.total
            },
            seen: if tracks_inode(ignore_hardlinks, m) {
                s.seen.insert(key_of(m))
            } else {
                s.seen
            },
        }
    }
}

/// The scheduler's reaction to one successful metadata fetch, ignoring the
/// accumulator's machine bound.
pub open spec fn disposition_of(
    ignore_hardlinks: bool,
    follow_symlinks: bool,
    seen: Set<InodeKey>,
    m: FileMeta,
) -> Disposition {
    if is_duplicate(ignore_hardlinks, seen, m) {
        Disposition::Duplicate
    } else if m.kind == FileKind::Regular {
        Disposition::Counted
    } else if m.kind == FileKind::Directory {
        Disposition::Expand
    } else if m.kind == FileKind::Symlink && follow_symlinks {
        Disposition::FollowLink
    } else {
        Disposition::Skipped
    }
}

/// Whether absorbing the fetch would push the total beyond `u64::MAX`.
pub open spec fn step_overflows(ignore_hardlinks: bool, s: AggState, m: FileMeta) -> bool {
    &&& !is_duplicate(ignore_hardlinks, s.seen, m)
    &&& m.kind == FileKind::Regular
    &&& s.total + m.len > u64::MAX
}

/// The fault policy: a vanished entry is a benign race, exhaustion is
/// retried in place, anything else aborts the traversal.
pub open spec fn fault_action_of(kind: FaultKind) -> FaultAction {
    match kind {
        FaultKind::NotFound => FaultAction::Ignore,
        FaultKind::ResourceExhausted => FaultAction::Retry,
        FaultKind::Other => FaultAction::Abort,
    }
}

/// The aggregation state of one traversal: configuration, running total and
/// the inodes already counted.
#[derive(Debug)]
pub struct Traversal {
    /// Count every hard link separately.
    pub ignore_hardlinks: bool,
    /// Resolve symlinks instead of skipping them.
    pub follow_symlinks: bool,
    /// The running total of bytes counted so far.
    pub total: u64,
    /// The inode keys recorded so far.
    pub seen: SeenInodes,
}

impl Traversal {
    /// The mathematical state this traversal has reached.
    pub open spec fn view(&self) -> AggState {
        AggState { total: self.total as int, seen: self.seen@ }
    }

    /// A fresh traversal under the given options: nothing counted, nothing
    /// seen.
    pub fn new(opts: &Opts) -> (t: Traversal)
        ensures
            t@.total == 0,
            t@.seen == Set::<InodeKey>::empty(),
            t.ignore_hardlinks == opts.ignore_hardlinks,
            t.follow_symlinks == opts.follow_symlinks,
    {
        Traversal {
            ignore_hardlinks: opts.ignore_hardlinks,
            follow_symlinks: opts.follow_symlinks,
            total: 0,
            seen: SeenInodes::new(),
        }
    }

    /// Absorb one successful metadata fetch and say what the scheduler must
    /// do with the path: the dedup check comes first (for every object kind,
    /// whenever the inode is tracked), then a regular file's length joins
    /// the total, a directory asks for expansion, and a symlink is followed
    /// or skipped by policy. If the addition would exceed `u64::MAX` the
    /// state keeps its total and the traversal must abort.
    pub fn on_metadata_ok(&mut self, m: &FileMeta) -> (d: Disposition)
        ensures
            old(self).ignore_hardlinks == final(self).ignore_hardlinks,
            old(self).follow_symlinks == final(self).follow_symlinks,
            !step_overflows(old(self).ignore_hardlinks, old(self)@, *m) ==> {
                &&& final(self)@ == step_state(old(self).ignore_hardlinks, old(self)@, *m)
                &&& d == disposition_of(
                    old(self).ignore_hardlinks,
                    old(self).follow_symlinks,
                    old(self)@.seen,
                    *m,
                )
            },
            step_overflows(old(self).ignore_hardlinks, old(self)@, *m) ==> {
                &&& d == Disposition::Overflow
                &&& final(self)@.total == old(self)@.total
                &&& final(self)@.seen == step_state(old(self).ignore_hardlinks, old(self)@, *m).seen
            },
    {
        if !self.ignore_hardlinks && m.nlink > 1 {
            let fresh = self.seen.observe(m.dev, m.ino);
            if !fresh {
                proof {
                    assert(old(self)@.seen =~= self@.seen);
                    assert(self@ =~= step_state(old(self).ignore_hardlinks, old(self)@, *m));
                }
                return Disposition::Duplicate;
            }
        }
        match m.kind {
            FileKind::Regular => {
                match self.total.checked_add(m.len) {
                    Some(t) => {
                        self.total = t;
                        proof {
                            assert(self@ =~= step_state(
                                old(self).ignore_hardlinks,
                                old(self)@,
                                *m,
                            ));
                        }
                        Disposition::Counted
                    },
                    None => Disposition::Overflow,
                }
            },
            FileKind::Directory => {
                proof {
                    assert(self@ =~= step_state(old(self).ignore_hardlinks, old(self)@, *m));
                }
                Disposition::Expand
            },
            FileKind::Symlink => {
                proof {
                    assert(self@ =~= step_state(old(self).ignore_hardlinks, old(self)@, *m));
                }
                if self.follow_symlinks {
                    Disposition::FollowLink
                } else {
                    Disposition::Skipped
                }
            },
            FileKind::Other => {
                proof {
                    assert(self@ =~= step_state(old(self).ignore_hardlinks, old(self)@, *m));
                }
                Disposition::Skipped
            },
        }
    }

    /// Route a failed filesystem operation: vanished entries are ignored,
    /// exhaustion asks for a retry of the same path, anything else aborts.
    /// The aggregation state is untouched.
    pub fn on_fault(&self, kind: FaultKind) -> (a: FaultAction)
        ensures
            a == fault_action_of(kind),
    {
        match kind {
            FaultKind::NotFound => FaultAction::Ignore,
            FaultKind::ResourceExhausted => FaultAction::Retry,
            FaultKind::Other => FaultAction::Abort,
        }
    }
}

/// What the driving loop must do next: it may stop only when both pools are
/// empty at once; with no metadata task in flight it must block on an
/// expansion completion (the only source of progress); otherwise it blocks
/// on the next metadata completion.
pub fn next_step(pending_metadata: usize, pending_expansion: usize) -> (s: LoopStep)
    ensures
        (s == LoopStep::Done) <==> (pending_metadata == 0 && pending_expansion == 0),
        (s == LoopStep::AwaitExpansion) <==> (pending_metadata == 0 && pending_expansion > 0),
        (s == LoopStep::AwaitMetadata) <==> pending_metadata > 0,
{
    if pending_metadata == 0 {
        if pending_expansion == 0 {
            LoopStep::Done
        } else {
            LoopStep::AwaitExpansion
        }
    } else {
        LoopStep::AwaitMetadata
    }
}

} // verus!

