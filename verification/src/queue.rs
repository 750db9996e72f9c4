//! The order in which branches are offered: oldest commit first, and among
//! commits of one time the order in which the branches were listed.

use vstd::prelude::*;
use crate::branch::{views, Branch, BranchView};

verus! {

/// No branch comes before one whose last commit is older.
pub open spec fn sorted_by_time(s: Seq<BranchView>) -> bool {
    forall|i: int, j: int| 0 <= i < j < s.len() ==> s[i].time <= s[j].time
}

/// The branches of `s` whose last commit was made at `t`, in the order of `s`.
pub open spec fn at_time(s: Seq<BranchView>, t: int) -> Seq<BranchView>
    decreases s.len(),
{
    if s.len() == 0 {
        Seq::empty()
    } else if s.last().time == t {
        at_time(s.drop_last(), t).push(s.last())
    } else {
        at_time(s.drop_last(), t)
    }
}

/// `a` and `b` hold the same branches, and those of one time in one order.
pub open spec fn same_within_times(a: Seq<BranchView>, b: Seq<BranchView>) -> bool {
    forall|t: int| #[trigger] at_time(a, t) == at_time(b, t)
}

/// `queue` is `listed` put in the order of review: sorted by time, with
/// nothing added, lost or moved past a branch of the same time. There is
/// exactly one such sequence for a given `listed`.
pub open spec fn is_review_queue(queue: Seq<BranchView>, listed: Seq<BranchView>) -> bool {
    sorted_by_time(queue) && same_within_times(queue, listed)
}

/// Picking the branches of one time out of two lists in a row is picking them
/// out of each.
pub proof fn lemma_at_time_concat(a: Seq<BranchView>, b: Seq<BranchView>, t: int)
    ensures
        at_time(a + b, t) == at_time(a, t) + at_time(b, t),
    decreases b.len(),
{
    if b.len() == 0 {
        assert(a + b =~= a);
        assert(at_time(a, t) + at_time(b, t) =~= at_time(a, t));
    } else {
        assert((a + b).drop_last() =~= a + b.drop_last());
        assert((a + b).last() == b.last());
        lemma_at_time_concat(a, b.drop_last(), t);
        if b.last().time == t {
            assert(at_time(a, t) + at_time(b.drop_last(), t).push(b.last()) =~= (at_time(a, t)
                + at_time(b.drop_last(), t)).push(b.last()));
        }
    }
}

/// A list without a branch of time `t` gives none.
pub proof fn lemma_at_time_absent(s: Seq<BranchView>, t: int)
    requires
        forall|i: int| 0 <= i < s.len() ==> s[i].time != t,
    ensures
        at_time(s, t) == Seq::<BranchView>::empty(),
    decreases s.len(),
{
    if s.len() > 0 {
        lemma_at_time_absent(s.drop_last(), t);
    }
}

/// What one more branch at the end adds.
pub proof fn lemma_at_time_push(s: Seq<BranchView>, x: BranchView, t: int)
    ensures
        at_time(s.push(x), t) == if x.time == t {
            at_time(s, t).push(x)
        } else {
            at_time(s, t)
        },
{
    assert(s.push(x).drop_last() =~= s);
}

/// Putting `x` behind the branches that are not newer and before those that
/// are is, time by time, the same as putting it last.
pub proof fn lemma_at_time_insert(s: Seq<BranchView>, p: int, x: BranchView, t: int)
    requires
        0 <= p <= s.len(),
        forall|k: int| p <= k < s.len() ==> s[k].time > x.time,
    ensures
        at_time(s.insert(p, x), t) == at_time(s.push(x), t),
{
    let head = s.subrange(0, p);
    let tail = s.subrange(p, s.len() as int);
    assert(s =~= head + tail);
    lemma_at_time_concat(head, tail, t);
    lemma_at_time_push(head, x, t);
    lemma_at_time_push(s, x, t);
    lemma_at_time_concat(head.push(x), tail, t);
    if x.time == t {
        lemma_at_time_absent(tail, t);
        assert(at_time(head, t).push(x) + Seq::<BranchView>::empty() =~= at_time(head, t).push(x));
        assert(at_time(head, t) + Seq::<BranchView>::empty() =~= at_time(head, t));
    }
}

/// A branch occurs in a list as often as among the branches of its time.
pub proof fn lemma_at_time_counts(s: Seq<BranchView>, x: BranchView)
    ensures
        s.to_multiset().count(x) == at_time(s, x.time).to_multiset().count(x),
    decreases s.len(),
{
    broadcast use vstd::seq_lib::group_to_multiset_ensures;

    if s.len() > 0 {
        lemma_at_time_counts(s.drop_last(), x);
        assert(s =~= s.drop_last().push(s.last()));
        if s.last().time != x.time {
            assert(s.last() != x);
        }
    }
}

/// Lists that agree time by time hold the same branches, each as often.
pub proof fn same_within_times_is_a_rearrangement(a: Seq<BranchView>, b: Seq<BranchView>)
    requires
        same_within_times(a, b),
    ensures
        a.to_multiset() == b.to_multiset(),
        a.len() == b.len(),
        forall|x: BranchView| a.contains(x) <==> b.contains(x),
{
    broadcast use vstd::seq_lib::group_to_multiset_ensures;

    assert forall|x: BranchView| a.to_multiset().count(x) == b.to_multiset().count(x) by {
        lemma_at_time_counts(a, x);
        lemma_at_time_counts(b, x);
        assert(at_time(a, x.time) == at_time(b, x.time));
    }
    assert(a.to_multiset() =~= b.to_multiset());
    a.to_multiset_ensures();
    b.to_multiset_ensures();
    assert forall|x: BranchView| a.contains(x) <==> b.contains(x) by {
        assert(a.to_multiset().count(x) == b.to_multiset().count(x));
    }
}

/// The order of review is fixed by what was listed: two queues for one
/// listing are the same queue.
pub proof fn review_queue_is_unique(a: Seq<BranchView>, b: Seq<BranchView>, listed: Seq<BranchView>)
    requires
        is_review_queue(a, listed),
        is_review_queue(b, listed),
    ensures
        a == b,
{
    assert forall|t: int| #[trigger] at_time(a, t) == at_time(b, t) by {
        assert(at_time(a, t) == at_time(listed, t));
        assert(at_time(b, t) == at_time(listed, t));
    }
    lemma_sorted_and_same_within_times(a, b);
}

proof fn lemma_sorted_and_same_within_times(a: Seq<BranchView>, b: Seq<BranchView>)
    requires
        sorted_by_time(a),
        sorted_by_time(b),
        same_within_times(a, b),
    ensures
        a == b,
    decreases a.len(),
{
    same_within_times_is_a_rearrangement(a, b);
    if a.len() == 0 {
        assert(a =~= b);
    } else {
        let la = a.last();
        let lb = b.last();
        assert(a.contains(la)) by {
            assert(a[a.len() - 1] == la);
        }
        assert(b.contains(lb)) by {
            assert(b[b.len() - 1] == lb);
        }
        let j = choose|j: int| 0 <= j < b.len() && b[j] == la;
        let i = choose|i: int| 0 <= i < a.len() && a[i] == lb;
        assert(b[j].time <= b[b.len() - 1].time);
        assert(a[i].time <= a[a.len() - 1].time);
        let top = la.time;
        let a0 = a.drop_last();
        let b0 = b.drop_last();
        assert(at_time(a, top) == at_time(b, top));
        assert(at_time(a0, top).push(la).last() == la);
        assert(at_time(b0, top).push(lb).last() == lb);
        assert(la == lb);
        assert forall|t: int| #[trigger] at_time(a0, t) == at_time(b0, t) by {
            assert(at_time(a, t) == at_time(b, t));
            if t == top {
                assert(at_time(a0, t).push(la).drop_last() =~= at_time(a0, t));
                assert(at_time(b0, t).push(lb).drop_last() =~= at_time(b0, t));
            }
        }
        lemma_sorted_and_same_within_times(a0, b0);
        assert(a =~= a0.push(la));
        assert(b =~= b0.push(lb));
    }
}

/// Puts `branch` into a sorted `queue`: behind every branch that is not
/// newer, before every branch that is.
pub(crate) fn insert_by_time(queue: &mut Vec<Branch>, branch: Branch)
    requires
        sorted_by_time(views(old(queue)@)),
    ensures
        is_review_queue(views(final(queue)@), views(old(queue)@).push(branch@)),
        final(queue)@.len() == old(queue)@.len() + 1,
        forall|k: int|
            0 <= k < final(queue)@.len() ==> #[trigger] final(queue)@[k] == branch || old(
                queue,
            )@.contains(final(queue)@[k]),
{
    let mut p: usize = 0;
    while p < queue.len() && queue[p].time.seconds() <= branch.time.seconds()
        invariant
            p <= queue.len(),
            queue@ == old(queue)@,
            forall|k: int| 0 <= k < p ==> views(queue@)[k].time <= branch@.time,
        decreases queue.len() - p,
    {
        p += 1;
    }
    proof {
        let s = views(queue@);
        assert forall|k: int| p <= k < s.len() implies s[k].time > branch@.time by {
            assert(s[p as int].time <= s[k].time);
        }
        assert(views(queue@.insert(p as int, branch)) =~= s.insert(p as int, branch@));
        assert forall|t: int| #[trigger]
            at_time(s.insert(p as int, branch@), t) == at_time(s.push(branch@), t) by {
            lemma_at_time_insert(s, p as int, branch@, t);
        }
        s.insert_ensures(p as int, branch@);
        let after = s.insert(p as int, branch@);
        assert forall|i: int, j: int| 0 <= i < j < after.len() implies after[i].time
            <= after[j].time by {
            if j < p {
            } else if j == p {
            } else if i < p {
                assert(after[j] == s[j - 1]);
            } else if i == p {
                assert(after[j] == s[j - 1]);
            } else {
                assert(after[i] == s[i - 1]);
                assert(after[j] == s[j - 1]);
            }
        }
        queue@.insert_ensures(p as int, branch);
    }
    queue.insert(p, branch);
    proof {
        assert forall|k: int| 0 <= k < queue@.len() implies #[trigger] queue@[k] == branch || old(
            queue,
        )@.contains(queue@[k]) by {
            if k < p {
                assert(queue@[k] == old(queue)@[k]);
            } else if k > p {
                assert(queue@[k] == old(queue)@[k - 1]);
            }
        }
    }
}

} // verus!
