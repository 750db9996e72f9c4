//! The review itself: a state machine that is told what happened and says
//! what to print and what to do next.
//!
//! The program that drives a review prints the text it is handed, carries out
//! the pending [`Request`], and reports the result as an [`Event`]:
//! a key for [`Request::ReadKey`], success or failure for a change to the
//! repository. It stops at [`Request::Finish`].

use vstd::prelude::*;
use vstd::string::*;
use crate::action::BranchAction;
use crate::branch::{views, Branch, BranchView, CommitId};
use crate::decision::{answer_decision, answer_output, get_branch_action_from_user};
use crate::error::{Error, ErrorView};
use crate::text::{
    deleted_line,
    deleted_text,
    ignoring_line,
    ignoring_text,
    no_branches_text,
    nothing_to_undo_text,
    prompt_line,
    prompt_text,
    quitting_text,
    undoing_line,
    undoing_text,
};

verus! {

/// What the driver is asked to do next.
#[derive(Debug, PartialEq, Eq)]
pub enum Request {
    /// Read one key, without waiting for a line and without echo.
    ReadKey,
    /// Delete the local branch of this name.
    DeleteBranch { name: String },
    /// Create a branch of this name at this commit, without force.
    CreateBranch { name: String, id: CommitId },
    /// Stop: the review is over, with this outcome.
    Finish(Result<(), Error>),
}

/// A request as plain values.
pub ghost enum RequestView {
    ReadKey,
    DeleteBranch { name: Seq<char> },
    CreateBranch { name: Seq<char>, id: Seq<u8> },
    Finish(Result<(), ErrorView>),
}

impl View for Request {
    type V = RequestView;

    open spec fn view(&self) -> RequestView {
        match self {
            Request::ReadKey => RequestView::ReadKey,
            Request::DeleteBranch { name } => RequestView::DeleteBranch { name: name@ },
            Request::CreateBranch { name, id } => RequestView::CreateBranch {
                name: name@,
                id: id@,
            },
            Request::Finish(Ok(_)) => RequestView::Finish(Ok(())),
            Request::Finish(Err(e)) => RequestView::Finish(Err(e@)),
        }
    }
}

/// What the driver reports back.
#[derive(Clone, Debug, PartialEq, Eq)]
pub enum Event {
    /// The byte that was read, or `None` where the read gave none.
    Key(Option<u8>),
    /// The repository was changed as asked.
    Done,
    /// The repository refused; the field is its description.
    Failed(String),
}

/// An event as plain values.
pub ghost enum EventView {
    Key(Option<u8>),
    Done,
    Failed(Seq<char>),
}

impl View for Event {
    type V = EventView;

    open spec fn view(&self) -> EventView {
        match self {
            Event::Key(key) => EventView::Key(*key),
            Event::Done => EventView::Done,
            Event::Failed(description) => EventView::Failed(description@),
        }
    }
}

/// The state of a review as plain values.
pub ghost struct ReviewView {
    /// The branches to review, in order. It never changes.
    pub queue: Seq<BranchView>,
    /// The place in the queue of the branch on offer.
    pub index: int,
    /// The undo buffer: the branch deleted last, unless it was brought back.
    pub deleted_branch: Option<BranchView>,
    /// What the driver has been asked to do.
    pub pending: RequestView,
}

impl ReviewView {
    /// The pending request fits the rest of the state: a key is only awaited,
    /// and a branch only deleted, for a branch of the queue that is not
    /// checked out, and only the branch in the undo buffer is created.
    pub open spec fn wf(self) -> bool {
        &&& 0 <= self.index <= self.queue.len()
        &&& match self.pending {
            RequestView::ReadKey => self.index < self.queue.len() && !self.current().is_head,
            RequestView::DeleteBranch { name } => {
                &&& self.index < self.queue.len()
                &&& !self.current().is_head
                &&& name == self.current().name
            },
            RequestView::CreateBranch { name, id } => {
                &&& self.index < self.queue.len()
                &&& !self.current().is_head
                &&& self.deleted_branch matches Some(b) && b.name == name && b.id == id
            },
            RequestView::Finish(_) => true,
        }
    }

    /// The branch on offer.
    pub open spec fn current(self) -> BranchView {
        self.queue[self.index]
    }

    /// The review is over.
    pub open spec fn finished(self) -> bool {
        self.pending is Finish
    }

    /// The same state, stopped with `outcome`.
    pub open spec fn finish(self, outcome: Result<(), ErrorView>) -> ReviewView {
        ReviewView { pending: RequestView::Finish(outcome), ..self }
    }

    /// Goes to the first branch at or after `from` that is not checked out
    /// and prompts for it; each checked-out branch on the way is announced
    /// and passed over. Where no branch is left, the review ends well.
    pub open spec fn offer(self, from: int) -> (ReviewView, Seq<char>)
        decreases self.queue.len() - from,
    {
        if from < 0 || from >= self.queue.len() {
            (
                ReviewView { index: self.queue.len() as int, ..self.finish(Ok(())) },
                Seq::empty(),
            )
        } else if self.queue[from].is_head {
            let (after, text) = self.offer(from + 1);
            (after, ignoring_text(self.queue[from].name) + text)
        } else {
            (
                ReviewView { index: from, pending: RequestView::ReadKey, ..self },
                prompt_text(self.queue[from]),
            )
        }
    }

    /// The start of a review: an empty queue is announced and ends the
    /// review; otherwise the first branch is offered.
    pub open spec fn begin(queue: Seq<BranchView>) -> (ReviewView, Seq<char>) {
        let fresh = ReviewView {
            queue,
            index: 0,
            deleted_branch: None,
            pending: RequestView::Finish(Ok(())),
        };
        if queue.len() == 0 {
            (fresh, no_branches_text())
        } else {
            fresh.offer(0)
        }
    }

    /// What an action does at the prompt.
    ///
    /// Quit ends the review. Keep goes on to the next branch. Delete asks the
    /// driver to delete the branch on offer. Undo asks the driver to create
    /// the branch of the undo buffer again; with an empty buffer it says so
    /// and asks for nothing. After undo the same branch is still on offer.
    pub open spec fn on_action(self, action: BranchAction) -> (ReviewView, Seq<char>) {
        match action {
            BranchAction::Quit => (self.finish(Ok(())), quitting_text()),
            BranchAction::Keep => self.offer(self.index + 1),
            BranchAction::Delete => (
                ReviewView {
                    pending: RequestView::DeleteBranch { name: self.current().name },
                    ..self
                },
                Seq::empty(),
            ),
            BranchAction::Undo => match self.deleted_branch {
                Some(b) => (
                    ReviewView {
                        pending: RequestView::CreateBranch { name: b.name, id: b.id },
                        ..self
                    },
                    Seq::empty(),
                ),
                None => (self, nothing_to_undo_text() + prompt_text(self.current())),
            },
        }
    }

    /// What a read of the keyboard does at the prompt.
    pub open spec fn on_key(self, key: Option<u8>) -> (ReviewView, Seq<char>) {
        let said = answer_output(self.current(), key);
        match answer_decision(key) {
            None => (self, said),
            Some(Err(e)) => (self.finish(Err(e)), said),
            Some(Ok(action)) => {
                let (after, text) = self.on_action(action);
                (after, said + text)
            },
        }
    }

    /// The branch on offer was deleted: it goes into the undo buffer in
    /// place of what was there, and the next branch is offered.
    pub open spec fn on_deleted(self) -> (ReviewView, Seq<char>) {
        let kept = ReviewView { deleted_branch: Some(self.current()), ..self };
        let (after, text) = kept.offer(self.index + 1);
        (after, deleted_text(self.current().name) + text)
    }

    /// The branch of the undo buffer was created again: the buffer is
    /// emptied and the branch on offer is prompted for again.
    pub open spec fn on_restored(self, name: Seq<char>) -> (ReviewView, Seq<char>) {
        (
            ReviewView { deleted_branch: None, pending: RequestView::ReadKey, ..self },
            undoing_text(name) + prompt_text(self.current()),
        )
    }

    /// The state after `event`, and what is printed on the way.
    ///
    /// An event that does not answer the pending request changes nothing and
    /// prints nothing. A failure of the repository ends the review with its
    /// error.
    pub open spec fn next(self, event: EventView) -> (ReviewView, Seq<char>) {
        match (self.pending, event) {
            (RequestView::ReadKey, EventView::Key(key)) => self.on_key(key),
            (RequestView::DeleteBranch { .. }, EventView::Done) => self.on_deleted(),
            (RequestView::CreateBranch { name, .. }, EventView::Done) => self.on_restored(name),
            (RequestView::DeleteBranch { .. }, EventView::Failed(description)) => (
                self.finish(Err(ErrorView::GitError(description))),
                Seq::empty(),
            ),
            (RequestView::CreateBranch { .. }, EventView::Failed(description)) => (
                self.finish(Err(ErrorView::GitError(description))),
                Seq::empty(),
            ),
            _ => (self, Seq::empty()),
        }
    }
}

/// The undo buffer as plain values.
pub open spec fn buffer_view(buffer: Option<Branch>) -> Option<BranchView> {
    match buffer {
        Some(b) => Some(b@),
        None => None,
    }
}

/// A review in progress.
#[derive(Debug)]
pub struct Review {
    queue: Vec<Branch>,
    index: usize,
    deleted_branch: Option<Branch>,
    pending: Request,
}

impl View for Review {
    type V = ReviewView;

    closed spec fn view(&self) -> ReviewView {
        ReviewView {
            queue: views(self.queue@),
            index: self.index as int,
            deleted_branch: buffer_view(self.deleted_branch),
            pending: self.pending@,
        }
    }
}

impl Review {
    /// The state is one that a review can reach. It holds of every review.
    pub open spec fn wf(self) -> bool {
        self@.wf()
    }

    #[verifier::type_invariant]
    spec fn fits(self) -> bool {
        self@.wf()
    }

    /// Starts the review of `queue`. Returns the review and what to print
    /// first.
    pub fn begin(queue: Vec<Branch>) -> (r: (Review, String))
        ensures
            r.0.wf(),
            (r.0@, r.1@) == ReviewView::begin(views(queue@)),
    {
        let empty = queue.len() == 0;
        let mut review = Review {
            queue,
            index: 0,
            deleted_branch: None,
            pending: Request::Finish(Ok(())),
        };
        if empty {
            (review, String::from_str("No branches found (master ignored).\r\n"))
        } else {
            let mut output = String::new();
            review.offer(0, &mut output);
            assert(output@ =~= ReviewView::begin(views(queue@)).1);
            (review, output)
        }
    }

    /// What the driver is asked to do.
    pub fn pending(&self) -> (r: &Request)
        ensures
            self.wf(),
            r@ == self@.pending,
    {
        proof {
            use_type_invariant(self);
        }
        &self.pending
    }

    /// The branches under review.
    pub fn queue(&self) -> (r: &Vec<Branch>)
        ensures
            views(r@) == self@.queue,
    {
        &self.queue
    }

    /// The place in the queue of the branch on offer; the length of the
    /// queue when every branch has been dealt with.
    pub fn index(&self) -> (r: usize)
        ensures
            r == self@.index,
    {
        self.index
    }

    /// The undo buffer.
    pub fn deleted_branch(&self) -> (r: &Option<Branch>)
        ensures
            buffer_view(*r) == self@.deleted_branch,
    {
        &self.deleted_branch
    }

    /// Whether the review is over.
    pub fn is_finished(&self) -> (r: bool)
        ensures
            r == self@.finished(),
    {
        match &self.pending {
            Request::Finish(_) => true,
            _ => false,
        }
    }

    fn offer(&mut self, from: usize, output: &mut String)
        requires
            from <= old(self).queue@.len(),
        ensures
            final(self).wf(),
            final(self)@ == old(self)@.offer(from as int).0,
            final(output)@ == old(output)@ + old(self)@.offer(from as int).1,
    {
        proof {
            use_type_invariant(&*self);
        }
        let ghost start = self@;
        let ghost goal = start.offer(from as int);
        let mut at: usize = from;
        while at < self.queue.len() && self.queue[at].is_head
            invariant
                from <= at <= self.queue@.len(),
                *self == *old(self),
                start == old(self)@,
                start.queue.len() == self.queue@.len(),
                output@ + start.offer(at as int).1 == old(output)@ + goal.1,
                start.offer(at as int).0 == goal.0,
            decreases self.queue@.len() - at,
        {
            let line = ignoring_line(self.queue[at].name.as_str());
            output.append(line.as_str());
            proof {
                let rest = start.offer(at + 1).1;
                assert(start.queue[at as int] == self.queue@[at as int]@);
                assert(start.offer(at as int).1 == ignoring_text(start.queue[at as int].name)
                    + rest);
                assert((old(output)@ + goal.1) =~= output@ + rest);
            }
            at += 1;
        }
        self.pending = Request::Finish(Ok(()));
        self.index = at;
        if at < self.queue.len() {
            let prompt = prompt_line(&self.queue[at]);
            output.append(prompt.as_str());
            self.pending = Request::ReadKey;
        } else {
            assert(output@ =~= old(output)@ + goal.1);
        }
    }

    /// Takes the review one step further: `event` is what came of the
    /// pending request. Returns what to print; the next request is then
    /// pending.
    pub fn act_on_branch(&mut self, event: Event) -> (r: String)
        ensures
            old(self).wf(),
            final(self).wf(),
            (final(self)@, r@) == old(self)@.next(event@),
    {
        proof {
            use_type_invariant(&*self);
        }
        let mut output = String::new();
        match event {
            Event::Key(key) => {
                if let Request::ReadKey = &self.pending {
                    let answer = get_branch_action_from_user(&self.queue[self.index], key);
                    output = answer.output;
                    match answer.decision {
                        None => {},
                        Some(Err(e)) => {
                            self.pending = Request::Finish(Err(e));
                        },
                        Some(Ok(action)) => {
                            self.act(action, &mut output);
                        },
                    }
                }
            },
            Event::Done => {
                match &self.pending {
                    Request::DeleteBranch { .. } => {
                        let line = deleted_line(self.queue[self.index].name.as_str());
                        output.append(line.as_str());
                        self.deleted_branch = Some(self.queue[self.index].duplicate());
                        assert(self.index < self.queue.len());
                        let after = self.index + 1;
                        self.offer(after, &mut output);
                    },
                    Request::CreateBranch { name, .. } => {
                        let line = undoing_line(name.as_str());
                        let prompt = prompt_line(&self.queue[self.index]);
                        output.append(line.as_str());
                        output.append(prompt.as_str());
                        self.pending = Request::ReadKey;
                        self.deleted_branch = None;
                    },
                    _ => {},
                }
            },
            Event::Failed(description) => {
                match &self.pending {
                    Request::DeleteBranch { .. } | Request::CreateBranch { .. } => {
                        self.pending = Request::Finish(Err(Error::GitError(description)));
                    },
                    _ => {},
                }
            },
        }
        assert(output@ =~= old(self)@.next(event@).1);
        output
    }

    fn act(&mut self, action: BranchAction, output: &mut String)
        requires
            old(self)@.pending is ReadKey,
        ensures
            final(self).wf(),
            final(self)@ == old(self)@.on_action(action).0,
            final(output)@ == old(output)@ + old(self)@.on_action(action).1,
    {
        proof {
            use_type_invariant(&*self);
        }
        match action {
            BranchAction::Quit => {
                output.append("Quitting...\r\n");
                self.pending = Request::Finish(Ok(()));
            },
            BranchAction::Keep => {
                assert(self.index < self.queue.len());
                let after = self.index + 1;
                self.offer(after, output);
            },
            BranchAction::Delete => {
                self.pending = Request::DeleteBranch {
                    name: self.queue[self.index].name.clone(),
                };
                assert(output@ =~= old(output)@ + Seq::<char>::empty());
            },
            BranchAction::Undo => {
                match &self.deleted_branch {
                    Some(b) => {
                        self.pending = Request::CreateBranch { name: b.name.clone(), id: b.id };
                        assert(output@ =~= old(output)@ + Seq::<char>::empty());
                    },
                    None => {
                        let prompt = prompt_line(&self.queue[self.index]);
                        output.append("No branch to undo deletion of\r\n");
                        output.append(prompt.as_str());
                        assert(output@ =~= old(output)@ + (nothing_to_undo_text() + prompt_text(
                            old(self)@.current(),
                        )));
                    },
                }
            },
        }
    }
}

} // verus!
