//! Tasks and their lifecycle state.

use vstd::prelude::*;
use crate::interpreter::ancestry;
use crate::interpreter::ancestry::Link;
use crate::interpreter::frame::FrameHandle;

verus! {

/// The lifecycle tag of a task. Exactly one tag is active at any time.
///
/// A task starts in `Continue`. Whoever steps it may take it from there to
/// any of the four states, and is not to step a task in `Halt` any further.
/// The tag itself enforces none of this.
#[derive(Clone, Copy, Debug, PartialEq, Eq, Structural)]
pub enum TaskState {
    /// The task is runnable and has not reached a stopping condition.
    Continue,
    /// The task has terminated.
    Halt,
    /// The task has paused of its own accord and expects to be resumed.
    Yield,
    /// The task was paused from outside and expects to be resumed.
    Suspend,
}

/// An independently running function and its call stack.
///
/// A task is a passive container: whoever steps it sets its state and its top
/// frame, and nothing here judges whether a change of state is a legal one.
pub struct Task {
    /// The current lifecycle state.
    state: TaskState,
    /// The frame on top of the call stack that the task is running.
    top_frame: Option<FrameHandle>,
    /// The task that spawned this one, owned by it.
    parent_task: Option<Box<Task>>,
}

impl View for Task {
    type V = Seq<Link>;

    /// The task's spawn ancestry: its own link first, then its parent's
    /// ancestry.
    closed spec fn view(&self) -> Seq<Link> {
        self.links()
    }
}

impl Task {
    /// What the task holds besides its parent.
    spec fn own_link(&self) -> Link {
        Link {
            state: self.state,
            top_frame: match self.top_frame {
                Some(handle) => Some(handle@),
                None => None,
            },
        }
    }

    /// The links from the task itself up to the one that nothing spawned.
    spec fn links(&self) -> Seq<Link>
        decreases self,
    {
        seq![self.own_link()] + match self.parent_task {
            Some(parent) => parent.links(),
            None => Seq::empty(),
        }
    }

    /// Every ancestry starts with the task itself.
    pub proof fn lemma_ancestry_nonempty(&self)
        ensures
            self@.len() >= 1,
    {
    }

    /// The ancestry leaves nothing out: two tasks with the same ancestry
    /// are the same in state, in top frame and in every ancestor.
    pub proof fn lemma_view_is_injective(self, other: Task)
        requires
            self@ == other@,
        ensures
            self == other,
        decreases self,
    {
        let links = self.links();
        assert(links[0] == self.own_link());
        assert(links[0] == other.own_link());
        match (self.top_frame, other.top_frame) {
            (Some(mine), Some(theirs)) => {
                mine.lemma_view_is_injective(theirs);
            },
            _ => {},
        }
        match (self.parent_task, other.parent_task) {
            (Some(mine), Some(theirs)) => {
                assert(mine.links() == links.skip(1));
                assert(theirs.links() == links.skip(1));
                mine.lemma_view_is_injective(*theirs);
            },
            (Some(mine), None) => {
                mine.lemma_ancestry_nonempty();
            },
            (None, Some(theirs)) => {
                theirs.lemma_ancestry_nonempty();
            },
            (None, None) => {},
        }
    }

    /// A runnable task with no call stack and no parent.
    pub fn new() -> (task: Task)
        ensures
            task@ == ancestry::fresh(),
            ancestry::state(task@) == TaskState::Continue,
            ancestry::top_frame(task@) is None,
            ancestry::parent(task@) is None,
    {
        Task { state: TaskState::Continue, top_frame: None, parent_task: None }
    }

    /// Makes `task` the parent of `self`, in place of any parent it had.
    ///
    /// The task is moved in as it is: its state, its top frame and its own
    /// ancestors are kept, and from now on it is reached through `self`
    /// only.
    pub fn set_parent_task(&mut self, task: Task)
        ensures
            final(self)@ == ancestry::attach(old(self)@, task@),
            ancestry::parent(final(self)@) == Some(task@),
    {
        proof {
            task.lemma_ancestry_nonempty();
        }
        self.parent_task = Some(Box::new(task));
    }

    /// The parent, if the task has one.
    pub fn parent_task(&self) -> (parent: Option<&Task>)
        ensures
            match parent {
                Some(task) => ancestry::parent(self@) == Some(task@),
                None => ancestry::parent(self@) is None,
            },
    {
        match &self.parent_task {
            Some(task) => Some(&**task),
            None => None,
        }
    }

    /// Takes the parent out and hands it back, with all that it owns; the
    /// task is left without a parent.
    pub fn take_parent_task(&mut self) -> (parent: Option<Task>)
        ensures
            final(self)@ == ancestry::detach(old(self)@),
            match parent {
                Some(task) => ancestry::parent(old(self)@) == Some(task@),
                None => ancestry::parent(old(self)@) is None,
            },
    {
        match self.parent_task.take() {
            Some(task) => Some(*task),
            None => None,
        }
    }

    /// The current lifecycle state.
    pub fn state(&self) -> (state: TaskState)
        ensures
            state == ancestry::state(self@),
    {
        self.state
    }

    /// Sets the lifecycle state. Any state may follow any other: which
    /// changes are legal is for the caller to decide.
    pub fn set_state(&mut self, state: TaskState)
        ensures
            final(self)@ == ancestry::with_state(old(self)@, state),
    {
        self.state = state;
    }

    /// The frame on top of the task's call stack, if it has one.
    pub fn top_frame(&self) -> (frame: Option<&FrameHandle>)
        ensures
            match frame {
                Some(handle) => ancestry::top_frame(self@) == Some(handle@),
                None => ancestry::top_frame(self@) is None,
            },
    {
        self.top_frame.as_ref()
    }

    /// Puts `frame` on top of the task's call stack, or leaves the task
    /// without one, and hands back what was there before.
    pub fn replace_top_frame(&mut self, frame: Option<FrameHandle>) -> (previous: Option<FrameHandle>)
        ensures
            final(self)@ == ancestry::with_top_frame(old(self)@, ancestry::frame_index(frame)),
            ancestry::frame_index(previous) == ancestry::top_frame(old(self)@),
    {
        let previous = self.top_frame.take();
        self.top_frame = frame;
        previous
    }
}

/// A state that was set is the state that is read back, whichever of the
/// four it is and whatever the state was before; the top frame and the
/// ancestors are as they were.
pub proof fn lemma_state_round_trip(task: Task, state: TaskState)
    ensures
        ancestry::state(ancestry::with_state(task@, state)) == state,
        ancestry::top_frame(ancestry::with_state(task@, state)) == ancestry::top_frame(task@),
        ancestry::parent(ancestry::with_state(task@, state)) == ancestry::parent(task@),
{
    task.lemma_ancestry_nonempty();
}

/// A top frame that was put in place is the one that is read back; the state
/// and the ancestors are as they were.
pub proof fn lemma_top_frame_round_trip(task: Task, frame: Option<FrameHandle>)
    ensures
        ancestry::top_frame(ancestry::with_top_frame(task@, ancestry::frame_index(frame)))
            == ancestry::frame_index(frame),
        ancestry::state(ancestry::with_top_frame(task@, ancestry::frame_index(frame)))
            == ancestry::state(task@),
        ancestry::parent(ancestry::with_top_frame(task@, ancestry::frame_index(frame)))
            == ancestry::parent(task@),
{
    task.lemma_ancestry_nonempty();
}

/// Attaching `first` and then `second` leaves the task as if `first` had
/// never been attached: its parent is `second`, with the state, top frame
/// and ancestors that `second` came with, and nothing of `first` is left in
/// the task's ancestry.
pub proof fn lemma_attachment_overwrites(task: Task, first: Task, second: Task)
    ensures
        ancestry::attach(ancestry::attach(task@, first@), second@) == ancestry::attach(
            task@,
            second@,
        ),
        ancestry::parent(ancestry::attach(ancestry::attach(task@, first@), second@)) == Some(
            second@,
        ),
{
    task.lemma_ancestry_nonempty();
    second.lemma_ancestry_nonempty();
}

/// Attaching `a` as the parent of `b`, and then `b` as the parent of `c`,
/// gives the chain `c`, `b`, `a` and then the ancestors of `a`: two deeper
/// than `a` was, so of depth three where `a` had no parent. Each link is
/// reached by going from a task to its parent, and holds what the task
/// held when it was attached.
pub proof fn lemma_attachment_chain(a: Task, b: Task, c: Task)
    ensures
        ({
            let b_with_a = ancestry::attach(b@, a@);
            let chain = ancestry::attach(c@, b_with_a);
            &&& chain == seq![c@[0], b@[0]] + a@
            &&& ancestry::depth(chain) == ancestry::depth(a@) + 2
            &&& ancestry::parent(a@) is None ==> ancestry::depth(chain) == 3
            &&& chain[0] == c@[0]
            &&& ancestry::parent(chain) == Some(b_with_a)
            &&& b_with_a[0] == b@[0]
            &&& ancestry::parent(b_with_a) == Some(a@)
        }),
{
    a.lemma_ancestry_nonempty();
    b.lemma_ancestry_nonempty();
    c.lemma_ancestry_nonempty();
}

/// Taking the parent out undoes attaching it: what comes out is the task
/// that went in, and the task is left with what it held on its own account
/// before.
pub proof fn lemma_detach_undoes_attach(task: Task, parent: Task)
    ensures
        ancestry::parent(ancestry::attach(task@, parent@)) == Some(parent@),
        ancestry::detach(ancestry::attach(task@, parent@)) == ancestry::detach(task@),
{
    task.lemma_ancestry_nonempty();
    parent.lemma_ancestry_nonempty();
}

/// Attaching undoes taking out: a task whose parent was taken out has no
/// parent, and is what it was again once that parent is attached anew.
pub proof fn lemma_attach_undoes_detach(task: Task)
    ensures
        ancestry::parent(ancestry::detach(task@)) is None,
        ancestry::parent(task@) matches Some(parent) ==> ancestry::attach(
            ancestry::detach(task@),
            parent,
        ) == task@,
{
    task.lemma_ancestry_nonempty();
}

} // verus!
