//! What holds of every review, whatever the queue and whatever is typed.
//!
//! The repository is modelled as a map from branch names to commits, and a
//! request of the review as a change to that map.

use vstd::prelude::*;
use crate::branch::BranchView;
use crate::lister::{decoded, eligible, protected_name, RawBranch};
use crate::queue::{is_review_queue, same_within_times_is_a_rearrangement};
use crate::review::{EventView, RequestView, ReviewView};
use crate::text::{
    echo_text,
    help_text,
    ignoring_text,
    nothing_to_undo_text,
    prompt_text,
    quitting_text,
};

verus! {

/// The branch called `master` is not among the branches on offer, and every
/// branch on offer was listed under a name that is text.
pub proof fn eligible_leaves_out_master(found: Seq<Result<RawBranch, String>>)
    ensures
        forall|k: int|
            0 <= k < eligible(found).len() ==> (#[trigger] eligible(found)[k]).name
                != protected_name(),
        forall|k: int|
            0 <= k < eligible(found).len() ==> exists|i: int|
                0 <= i < found.len() && found[i] is Ok && decoded(found[i]->Ok_0)
                    == #[trigger] eligible(found)[k],
    decreases found.len(),
{
    if found.len() > 0 {
        let before = found.drop_last();
        eligible_leaves_out_master(before);
        assert forall|k: int| 0 <= k < eligible(found).len() implies exists|i: int|
            0 <= i < found.len() && found[i] is Ok && decoded(found[i]->Ok_0)
                == #[trigger] eligible(found)[k] by {
            if k < eligible(before).len() {
                assert(eligible(found)[k] == eligible(before)[k]);
                let i = choose|i: int|
                    0 <= i < before.len() && before[i] is Ok && decoded(before[i]->Ok_0)
                        == eligible(before)[k];
                assert(found[i] == before[i]);
            } else {
                assert(decoded(found[found.len() - 1]->Ok_0) == eligible(found)[k]);
            }
        }
    }
}

/// Whatever the repository lists, the queue of review holds no branch called
/// `master`, is sorted by commit time, oldest first, and holds the branches
/// on offer, each as often as it was listed.
pub proof fn review_queue_is_sorted_without_master(
    found: Seq<Result<RawBranch, String>>,
    queue: Seq<BranchView>,
)
    requires
        is_review_queue(queue, eligible(found)),
    ensures
        forall|k: int| 0 <= k < queue.len() ==> (#[trigger] queue[k]).name != protected_name(),
        forall|i: int, j: int| 0 <= i <= j < queue.len() ==> queue[i].time <= queue[j].time,
        queue.to_multiset() == eligible(found).to_multiset(),
{
    same_within_times_is_a_rearrangement(queue, eligible(found));
    eligible_leaves_out_master(found);
    assert forall|k: int| 0 <= k < queue.len() implies (#[trigger] queue[k]).name
        != protected_name() by {
        assert(queue.contains(queue[k]));
        assert(eligible(found).contains(queue[k]));
    }
}

/// The event of a key that was read.
pub open spec fn pressed(c: char) -> EventView {
    EventView::Key(Some(c as u8))
}

/// What a request, carried out, does to the branches of a repository: a
/// deletion takes the name away, a creation binds the name to the commit,
/// and nothing else changes anything.
pub open spec fn effect(refs: Map<Seq<char>, Seq<u8>>, request: RequestView) -> Map<
    Seq<char>,
    Seq<u8>,
> {
    match request {
        RequestView::DeleteBranch { name } => refs.remove(name),
        RequestView::CreateBranch { name, id } => refs.insert(name, id),
        _ => refs,
    }
}

/// The state after a run of events.
pub open spec fn run(state: ReviewView, events: Seq<EventView>) -> ReviewView
    decreases events.len(),
{
    if events.len() == 0 {
        state
    } else {
        run(state, events.drop_last()).next(events.last()).0
    }
}

/// The repository after a run of events in which every request made on the
/// way was carried out.
pub open spec fn run_effect(
    state: ReviewView,
    refs: Map<Seq<char>, Seq<u8>>,
    events: Seq<EventView>,
) -> Map<Seq<char>, Seq<u8>>
    decreases events.len(),
{
    if events.len() == 0 {
        refs
    } else {
        effect(run_effect(state, refs, events.drop_last()), run(state, events).pending)
    }
}

/// Going on from `from` stops at the first branch that is not checked out:
/// every branch passed over is checked out, a key is awaited exactly where
/// such a branch was found, and the undo buffer and the queue are as before.
pub proof fn offer_passes_over_checked_out(state: ReviewView, from: int)
    requires
        0 <= from <= state.queue.len(),
    ensures
        ({
            let after = state.offer(from).0;
            &&& after.wf()
            &&& after.queue == state.queue
            &&& after.deleted_branch == state.deleted_branch
            &&& from <= after.index <= state.queue.len()
            &&& forall|j: int| from <= j < after.index ==> state.queue[j].is_head
            &&& after.index < state.queue.len() ==> after.pending == RequestView::ReadKey
                && !state.queue[after.index].is_head
            &&& after.index == state.queue.len() ==> after.pending == RequestView::Finish(Ok(()))
        }),
    decreases state.queue.len() - from,
{
    if from < state.queue.len() && state.queue[from].is_head {
        offer_passes_over_checked_out(state, from + 1);
    }
}

/// A branch that is checked out and stands first in line is announced as
/// ignored, and the review goes on behind it without a prompt for it.
pub proof fn checked_out_branch_is_ignored(state: ReviewView, from: int)
    requires
        0 <= from < state.queue.len(),
        state.queue[from].is_head,
    ensures
        state.offer(from).0 == state.offer(from + 1).0,
        state.offer(from).1 == ignoring_text(state.queue[from].name) + state.offer(from + 1).1,
        state.offer(from).0.index > from,
{
    offer_passes_over_checked_out(state, from + 1);
}

/// A review starts in a state that fits.
pub proof fn begin_is_well_formed(queue: Seq<BranchView>)
    ensures
        ReviewView::begin(queue).0.wf(),
        ReviewView::begin(queue).0.queue == queue,
        ReviewView::begin(queue).0.deleted_branch is None,
{
    if queue.len() > 0 {
        let fresh = ReviewView {
            queue,
            index: 0,
            deleted_branch: None,
            pending: RequestView::Finish(Ok(())),
        };
        offer_passes_over_checked_out(fresh, 0);
    }
}

/// Every step keeps the state fitting and the queue as it was, and never
/// goes back in the queue.
pub proof fn next_keeps_well_formed(state: ReviewView, event: EventView)
    requires
        state.wf(),
    ensures
        state.next(event).0.wf(),
        state.next(event).0.queue == state.queue,
        state.next(event).0.index >= state.index,
{
    if state.index < state.queue.len() {
        offer_passes_over_checked_out(state, state.index + 1);
        let kept = ReviewView { deleted_branch: Some(state.current()), ..state };
        offer_passes_over_checked_out(kept, state.index + 1);
    }
}

/// The branch that is checked out is never prompted for and never deleted:
/// while a key or a deletion is awaited, the branch on offer is another, and
/// a deletion names the branch on offer.
pub proof fn checked_out_branch_is_never_offered(state: ReviewView)
    requires
        state.wf(),
    ensures
        state.pending is ReadKey ==> !state.current().is_head,
        state.pending matches RequestView::DeleteBranch { name } ==> !state.current().is_head
            && name == state.current().name,
{
}

/// The same, of every state that a review reaches from its start.
pub proof fn checked_out_branch_is_never_offered_in_a_run(
    queue: Seq<BranchView>,
    events: Seq<EventView>,
)
    ensures
        ({
            let state = run(ReviewView::begin(queue).0, events);
            &&& state.wf()
            &&& state.queue == queue
            &&& state.pending is ReadKey || state.pending is DeleteBranch ==> 0 <= state.index
                < queue.len() && !queue[state.index].is_head
        }),
    decreases events.len(),
{
    if events.len() == 0 {
        begin_is_well_formed(queue);
    } else {
        checked_out_branch_is_never_offered_in_a_run(queue, events.drop_last());
        next_keeps_well_formed(
            run(ReviewView::begin(queue).0, events.drop_last()),
            events.last(),
        );
    }
}

/// Undo with an empty undo buffer says that there is nothing to undo and
/// prompts again: the state is as before, and what is pending afterwards
/// changes nothing in the repository.
pub proof fn undo_with_empty_buffer_changes_nothing(
    state: ReviewView,
    refs: Map<Seq<char>, Seq<u8>>,
)
    requires
        state.wf(),
        state.pending is ReadKey,
        state.deleted_branch is None,
    ensures
        state.next(pressed('u')).0 == state,
        state.next(pressed('u')).1 == echo_text('u') + (nothing_to_undo_text() + prompt_text(
            state.current(),
        )),
        effect(refs, state.next(pressed('u')).0.pending) == refs,
{
}

/// Deleting a branch asks the repository to delete the branch on offer, and
/// once that is done the undo buffer holds that branch and no other.
pub proof fn delete_fills_the_buffer(state: ReviewView)
    requires
        state.wf(),
        state.pending is ReadKey,
    ensures
        ({
            let asked = state.next(pressed('d')).0;
            let deleted = asked.next(EventView::Done).0;
            &&& asked.pending == RequestView::DeleteBranch { name: state.current().name }
            &&& asked.deleted_branch == state.deleted_branch
            &&& deleted.deleted_branch == Some(state.current())
            &&& deleted.wf()
            &&& deleted.index > state.index
        }),
{
    let asked = state.next(pressed('d')).0;
    let kept = ReviewView { deleted_branch: Some(state.current()), ..asked };
    offer_passes_over_checked_out(kept, state.index + 1);
}

/// Undo with a branch in the undo buffer asks the repository to create a
/// branch of that name at that commit, and once that is done the buffer is
/// empty and the branch on offer is the same as before.
pub proof fn undo_empties_the_buffer(state: ReviewView, deleted: BranchView)
    requires
        state.wf(),
        state.pending is ReadKey,
        state.deleted_branch == Some(deleted),
    ensures
        ({
            let asked = state.next(pressed('u')).0;
            let restored = asked.next(EventView::Done).0;
            &&& asked.pending == RequestView::CreateBranch { name: deleted.name, id: deleted.id }
            &&& restored.deleted_branch is None
            &&& restored.pending == RequestView::ReadKey
            &&& restored.index == state.index
            &&& restored.queue == state.queue
        }),
{
}

/// Delete, then undo at the next prompt: the repository is asked for a
/// branch of the deleted branch's name at the deleted branch's commit, so
/// that the name is bound to that commit again, and the undo buffer is empty
/// afterwards.
pub proof fn delete_then_undo_restores(state: ReviewView, refs: Map<Seq<char>, Seq<u8>>)
    requires
        state.wf(),
        state.pending is ReadKey,
        state.next(pressed('d')).0.next(EventView::Done).0.pending is ReadKey,
    ensures
        ({
            let branch = state.current();
            let events = seq![pressed('d'), EventView::Done, pressed('u'), EventView::Done];
            let end = run(state, events);
            let refs_end = run_effect(state, refs, events);
            &&& run(state, events.take(3)).pending == RequestView::CreateBranch {
                name: branch.name,
                id: branch.id,
            }
            &&& end.deleted_branch is None
            &&& refs_end == refs.insert(branch.name, branch.id)
            &&& refs.contains_key(branch.name) && refs[branch.name] == branch.id ==> refs_end
                == refs
        }),
{
    let branch = state.current();
    let events = seq![pressed('d'), EventView::Done, pressed('u'), EventView::Done];
    let s1 = state.next(pressed('d')).0;
    let s2 = s1.next(EventView::Done).0;
    let s3 = s2.next(pressed('u')).0;
    let s4 = s3.next(EventView::Done).0;
    delete_fills_the_buffer(state);
    undo_empties_the_buffer(s2, branch);
    lemma_run_four(state, events);
    lemma_run_effect_four(state, refs, events);
    assert(refs.remove(branch.name).insert(branch.name, branch.id) =~= refs.insert(
        branch.name,
        branch.id,
    ));
    if refs.contains_key(branch.name) && refs[branch.name] == branch.id {
        assert(refs.insert(branch.name, branch.id) =~= refs);
    }
}

/// Two deletions and then undo: only the second branch comes back. The
/// repository is asked for the second branch alone, a further undo finds the
/// buffer empty, and where the two names differ the first stays deleted.
pub proof fn undo_restores_only_the_last_deleted(
    state: ReviewView,
    refs: Map<Seq<char>, Seq<u8>>,
)
    requires
        state.wf(),
        state.pending is ReadKey,
        state.next(pressed('d')).0.next(EventView::Done).0.pending is ReadKey,
        state.next(pressed('d')).0.next(EventView::Done).0.next(pressed('d')).0.next(
            EventView::Done,
        ).0.pending is ReadKey,
    ensures
        ({
            let first = state.current();
            let second = state.next(pressed('d')).0.next(EventView::Done).0.current();
            let events = seq![
                pressed('d'),
                EventView::Done,
                pressed('d'),
                EventView::Done,
                pressed('u'),
                EventView::Done,
            ];
            let end = run(state, events);
            let refs_end = run_effect(state, refs, events);
            &&& run(state, events.take(4)).deleted_branch == Some(second)
            &&& run(state, events.take(5)).pending == RequestView::CreateBranch {
                name: second.name,
                id: second.id,
            }
            &&& end.deleted_branch is None
            &&& end.next(pressed('u')).0 == end
            &&& refs_end == refs.remove(first.name).insert(second.name, second.id)
            &&& first.name != second.name ==> !refs_end.contains_key(first.name)
        }),
{
    let first = state.current();
    let events = seq![
        pressed('d'),
        EventView::Done,
        pressed('d'),
        EventView::Done,
        pressed('u'),
        EventView::Done,
    ];
    let s1 = state.next(pressed('d')).0;
    let s2 = s1.next(EventView::Done).0;
    let second = s2.current();
    let s3 = s2.next(pressed('d')).0;
    let s4 = s3.next(EventView::Done).0;
    let s5 = s4.next(pressed('u')).0;
    let s6 = s5.next(EventView::Done).0;
    delete_fills_the_buffer(state);
    delete_fills_the_buffer(s2);
    undo_empties_the_buffer(s4, second);
    next_keeps_well_formed(s4, pressed('u'));
    next_keeps_well_formed(s5, EventView::Done);
    undo_with_empty_buffer_changes_nothing(s6, refs);
    lemma_run_four(state, events.take(4));
    assert(events.take(4) =~= seq![pressed('d'), EventView::Done, pressed('d'), EventView::Done]);
    assert(events.take(5).drop_last() =~= events.take(4));
    assert(events.drop_last() =~= events.take(5));
    assert(run(state, events.take(5)) == s5);
    assert(run(state, events) == s6);
    lemma_run_effect_four(state, refs, events.take(4));
    assert(run_effect(state, refs, events.take(5)) == effect(
        run_effect(state, refs, events.take(4)),
        s5.pending,
    ));
    assert(run_effect(state, refs, events) == effect(
        run_effect(state, refs, events.take(5)),
        s6.pending,
    ));
    assert(refs.remove(first.name).remove(second.name).insert(second.name, second.id)
        =~= refs.remove(first.name).insert(second.name, second.id));
}

/// The key for help prints the legend and prompts again for the same
/// branch: the state is as before, and the prompt that follows the legend is
/// the prompt of the branch on offer.
pub proof fn help_offers_the_same_branch(state: ReviewView)
    requires
        state.wf(),
        state.pending is ReadKey,
    ensures
        state.next(pressed('?')).0 == state,
        state.next(pressed('?')).1 == echo_text('?') + help_text() + prompt_text(state.current()),
{
}

/// Quit ends the review well, whatever is left in the queue.
pub proof fn quit_ends_the_review(state: ReviewView)
    requires
        state.wf(),
        state.pending is ReadKey,
    ensures
        state.next(pressed('q')).0 == state.finish(Ok(())),
        state.next(pressed('q')).1 == echo_text('q') + quitting_text(),
{
}

/// Once the review is over nothing moves it: whatever is reported, the state
/// stays, and nothing is asked of the repository any more.
pub proof fn finished_review_stays_finished(
    state: ReviewView,
    refs: Map<Seq<char>, Seq<u8>>,
    events: Seq<EventView>,
)
    requires
        state.finished(),
    ensures
        run(state, events) == state,
        run_effect(state, refs, events) == refs,
    decreases events.len(),
{
    if events.len() > 0 {
        finished_review_stays_finished(state, refs, events.drop_last());
    }
}

/// After quit the branches behind the one on offer are as they were: no run
/// of events after it changes the repository.
pub proof fn quit_leaves_the_rest_untouched(
    state: ReviewView,
    refs: Map<Seq<char>, Seq<u8>>,
    events: Seq<EventView>,
)
    requires
        state.wf(),
        state.pending is ReadKey,
    ensures
        ({
            let stopped = state.next(pressed('q')).0;
            &&& stopped.pending == RequestView::Finish(Ok(()))
            &&& run(stopped, events) == stopped
            &&& run_effect(stopped, refs, events) == refs
        }),
{
    finished_review_stays_finished(state.next(pressed('q')).0, refs, events);
}

proof fn lemma_run_four(state: ReviewView, events: Seq<EventView>)
    requires
        events.len() == 4,
    ensures
        run(state, events) == state.next(events[0]).0.next(events[1]).0.next(events[2]).0.next(
            events[3],
        ).0,
        run(state, events.take(3)) == state.next(events[0]).0.next(events[1]).0.next(events[2]).0,
        run(state, events.take(2)) == state.next(events[0]).0.next(events[1]).0,
        run(state, events.take(1)) == state.next(events[0]).0,
{
    assert(events.drop_last() =~= events.take(3));
    assert(events.take(3).drop_last() =~= events.take(2));
    assert(events.take(2).drop_last() =~= events.take(1));
    assert(events.take(1).drop_last() =~= Seq::<EventView>::empty());
    assert(run(state, events.take(1).drop_last()) == state);
    assert(run(state, events.take(1)) == state.next(events[0]).0);
    assert(run(state, events.take(2)) == run(state, events.take(1)).next(events[1]).0);
    assert(run(state, events.take(3)) == run(state, events.take(2)).next(events[2]).0);
}

proof fn lemma_run_effect_four(
    state: ReviewView,
    refs: Map<Seq<char>, Seq<u8>>,
    events: Seq<EventView>,
)
    requires
        events.len() == 4,
    ensures
        run_effect(state, refs, events) == effect(
            effect(
                effect(
                    effect(refs, run(state, events.take(1)).pending),
                    run(state, events.take(2)).pending,
                ),
                run(state, events.take(3)).pending,
            ),
            run(state, events).pending,
        ),
{
    assert(events.drop_last() =~= events.take(3));
    assert(events.take(3).drop_last() =~= events.take(2));
    assert(events.take(2).drop_last() =~= events.take(1));
    assert(events.take(1).drop_last() =~= Seq::<EventView>::empty());
    assert(run_effect(state, refs, events.take(1).drop_last()) == refs);
    assert(run_effect(state, refs, events.take(1)) == effect(
        refs,
        run(state, events.take(1)).pending,
    ));
    assert(run_effect(state, refs, events.take(2)) == effect(
        run_effect(state, refs, events.take(1)),
        run(state, events.take(2)).pending,
    ));
    assert(run_effect(state, refs, events.take(3)) == effect(
        run_effect(state, refs, events.take(2)),
        run(state, events.take(3)).pending,
    ));
}

} // verus!
