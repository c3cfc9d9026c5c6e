//! Laws of the aggregation: what holds of whole runs of metadata events,
//! independently of how the scheduler interleaves them.

use vstd::prelude::*;

use crate::meta::FileKind;
use crate::meta::FileMeta;
use crate::traverse::AggState;
use crate::traverse::key_of;
use crate::traverse::step_state;

verus! {

/// The state after absorbing a sequence of successful metadata fetches, in
/// the order given.
pub open spec fn run_state(ignore_hardlinks: bool, s: AggState, events: Seq<FileMeta>) -> AggState
    decreases events.len(),
{
    if events.len() == 0 {
        s
    } else {
        run_state(ignore_hardlinks, step_state(ignore_hardlinks, s, events[0]), events.drop_first())
    }
}

/// Sum of the lengths of the reported objects.
pub open spec fn sum_len(events: Seq<FileMeta>) -> int
    decreases events.len(),
{
    if events.len() == 0 {
        0
    } else {
        events[0].len + sum_len(events.drop_first())
    }
}

/// A batch of events is coherent when any two that name the same inode agree
/// entirely: every hard link to one object reports that object's metadata.
pub open spec fn coherent(events: Seq<FileMeta>) -> bool {
    forall|x: FileMeta, y: FileMeta|
        #![trigger events.contains(x), events.contains(y)]
        events.contains(x) && events.contains(y) && key_of(x) == key_of(y) ==> x == y
}

/// **Sum correctness.** For a batch of regular files with a single link each
/// — no hard links anywhere — a run adds exactly the sum of the lengths to
/// the total, under either dedup policy, and records no inode.
pub proof fn lemma_sum_of_regular_files(ignore_hardlinks: bool, s: AggState, events: Seq<FileMeta>)
    requires
        (forall|i: int|
            0 <= i < events.len() ==> (#[trigger] events[i]).kind == FileKind::Regular
                && events[i].nlink == 1),
    ensures
        run_state(ignore_hardlinks, s, events) == (AggState {
            total: s.total + sum_len(events),
            seen: s.seen,
        }),
    decreases events.len(),
{
    if events.len() == 0 {
        assert(run_state(ignore_hardlinks, s, events) =~= AggState {
            total: s.total + sum_len(events),
            seen: s.seen,
        });
    } else {
        let m = events[0];
        let s1 = step_state(ignore_hardlinks, s, m);
        assert(s1 == AggState { total: s.total + m.len, seen: s.seen });
        lemma_sum_of_regular_files(ignore_hardlinks, s1, events.drop_first());
    }
}

/// **Monotonicity.** Absorbing an event never lowers the running total and
/// never removes a recorded inode: the accumulator is non-decreasing and the
/// seen set only grows for the lifetime of a traversal.
pub proof fn lemma_step_monotonic(ignore_hardlinks: bool, s: AggState, m: FileMeta)
    ensures
        step_state(ignore_hardlinks, s, m).total >= s.total,
        s.seen.subset_of(step_state(ignore_hardlinks, s, m).seen),
{
}

/// **Hard-link dedup.** A regular file with several links, reported once per
/// link, contributes its length once while hard links are deduplicated, and
/// once per report when they are ignored.
pub proof fn lemma_hardlink_pair(s: AggState, m: FileMeta)
    requires
        m.kind == FileKind::Regular,
        m.nlink > 1,
        !s.seen.contains(key_of(m)),
    ensures
        run_state(false, s, seq![m, m]).total == s.total + m.len,
        run_state(true, s, seq![m, m]).total == s.total + 2 * m.len,
{
    let both = seq![m, m];
    let one = seq![m];
    let none = Seq::<FileMeta>::empty();
    assert(both.drop_first() =~= one);
    assert(one.drop_first() =~= none);
    let d1 = step_state(false, s, m);
    assert(run_state(false, s, both) == run_state(false, d1, one));
    assert(run_state(false, d1, one) == run_state(false, step_state(false, d1, m), none));
    assert(step_state(false, d1, m) == d1);
    let i1 = step_state(true, s, m);
    let i2 = step_state(true, i1, m);
    assert(run_state(true, s, both) == run_state(true, i1, one));
    assert(run_state(true, i1, one) == run_state(true, i2, none));
    assert(i2.total == s.total + 2 * m.len);
}

/// Absorbing two events that are either identical or about different inodes
/// leads to the same state in either order.
proof fn lemma_step_commutes(ignore_hardlinks: bool, s: AggState, a: FileMeta, b: FileMeta)
    requires
        key_of(a) == key_of(b) ==> a == b,
    ensures
        step_state(ignore_hardlinks, step_state(ignore_hardlinks, s, a), b) == step_state(
            ignore_hardlinks,
            step_state(ignore_hardlinks, s, b),
            a,
        ),
{
    let ab = step_state(ignore_hardlinks, step_state(ignore_hardlinks, s, a), b);
    let ba = step_state(ignore_hardlinks, step_state(ignore_hardlinks, s, b), a);
    assert(ab =~= ba);
}

/// An element of the sequence with one position removed is an element of the
/// sequence.
proof fn lemma_contains_of_remove(events: Seq<FileMeta>, i: int, x: FileMeta)
    requires
        0 <= i < events.len(),
        events.remove(i).contains(x),
    ensures
        events.contains(x),
{
    let j = choose|j: int| 0 <= j < events.remove(i).len() && events.remove(i)[j] == x;
    if j < i {
        assert(events[j] == x);
    } else {
        assert(events[j + 1] == x);
    }
}

/// Coherence survives removing one event.
proof fn lemma_coherent_remove(events: Seq<FileMeta>, i: int)
    requires
        coherent(events),
        0 <= i < events.len(),
    ensures
        coherent(events.remove(i)),
{
    assert forall|x: FileMeta, y: FileMeta|
        events.remove(i).contains(x) && events.remove(i).contains(y) && key_of(x) == key_of(
            y,
        ) implies x == y by {
        lemma_contains_of_remove(events, i, x);
        lemma_contains_of_remove(events, i, y);
    }
}

/// Coherence carries over to any reordering of the same events.
proof fn lemma_coherent_same_multiset(e1: Seq<FileMeta>, e2: Seq<FileMeta>)
    requires
        coherent(e1),
        e1.to_multiset() == e2.to_multiset(),
    ensures
        coherent(e2),
{
    broadcast use vstd::seq_lib::group_to_multiset_ensures;

    assert forall|x: FileMeta, y: FileMeta|
        e2.contains(x) && e2.contains(y) && key_of(x) == key_of(y) implies x == y by {
        assert(e2.to_multiset().count(x) > 0);
        assert(e2.to_multiset().count(y) > 0);
        assert(e1.to_multiset().count(x) > 0);
        assert(e1.to_multiset().count(y) > 0);
        assert(e1.contains(x));
        assert(e1.contains(y));
    }
}

/// A run absorbing the events equals the run that absorbs the event at
/// position `i` first and the remaining events after it.
proof fn lemma_run_pull_to_front(
    ignore_hardlinks: bool,
    s: AggState,
    events: Seq<FileMeta>,
    i: int,
)
    requires
        coherent(events),
        0 <= i < events.len(),
    ensures
        run_state(ignore_hardlinks, s, events) == run_state(
            ignore_hardlinks,
            step_state(ignore_hardlinks, s, events[i]),
            events.remove(i),
        ),
    decreases i,
{
    if i == 0 {
        assert(events.remove(0) =~= events.drop_first());
    } else {
        let a = events[0];
        let e = events[i];
        let rest = events.drop_first();
        assert(events.contains(a));
        assert(events.contains(e));
        assert(rest =~= events.remove(0));
        lemma_coherent_remove(events, 0);
        assert(rest[i - 1] == e);
        lemma_run_pull_to_front(ignore_hardlinks, step_state(ignore_hardlinks, s, a), rest, i - 1);
        lemma_step_commutes(ignore_hardlinks, s, a, e);
        assert(events.remove(i)[0] == a);
        assert(events.remove(i).drop_first() =~= rest.remove(i - 1));
    }
}

/// **Order independence.** Two runs over the same coherent collection of
/// events — one per completed metadata fetch, in whatever order the
/// scheduler finished them — reach the same state, total and inode set
/// alike. The final total of a traversal therefore does not depend on how
/// sibling tasks were interleaved.
pub proof fn lemma_order_independence(
    ignore_hardlinks: bool,
    s: AggState,
    e1: Seq<FileMeta>,
    e2: Seq<FileMeta>,
)
    requires
        coherent(e1),
        e1.to_multiset() == e2.to_multiset(),
    ensures
        run_state(ignore_hardlinks, s, e1) == run_state(ignore_hardlinks, s, e2),
    decreases e1.len(),
{
    broadcast use vstd::seq_lib::group_to_multiset_ensures;

    if e1.len() == 0 {
        assert(e1.to_multiset().len() == e1.len());
        assert(e2.to_multiset().len() == e2.len());
        assert(e2.len() == 0);
    } else {
        let a = e1[0];
        assert(e1.contains(a));
        assert(e1.to_multiset().count(a) > 0);
        assert(e2.to_multiset().count(a) > 0);
        assert(e2.contains(a));
        let j = choose|j: int| 0 <= j < e2.len() && e2[j] == a;
        lemma_coherent_same_multiset(e1, e2);
        lemma_run_pull_to_front(ignore_hardlinks, s, e2, j);
        assert(e1.remove(0) =~= e1.drop_first());
        assert(e1.drop_first().to_multiset() == e2.remove(j).to_multiset()) by {
            assert(e1.remove(0).to_multiset() == e1.to_multiset().remove(a));
            assert(e2.remove(j).to_multiset() == e2.to_multiset().remove(a));
        }
        lemma_coherent_remove(e1, 0);
        lemma_order_independence(
            ignore_hardlinks,
            step_state(ignore_hardlinks, s, a),
            e1.drop_first(),
            e2.remove(j),
        );
    }
}

} // verus!
