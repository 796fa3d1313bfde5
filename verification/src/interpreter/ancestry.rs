//! The spawn ancestry of a task, as a sequence of links.
//!
//! The first link of an ancestry stands for the task itself, the second for
//! the task that spawned it, and so on up to a task that nothing spawned. An
//! ancestry is therefore never empty and, being a sequence, never a cycle.
//! The operations on tasks are specified by the functions of this module.

use vstd::prelude::*;
use crate::interpreter::frame::FrameHandle;
use crate::interpreter::task::TaskState;

verus! {

/// What one task holds on its own account: its lifecycle state and the index
/// of the frame on top of its call stack, if it has one.
pub struct Link {
    pub state: TaskState,
    pub top_frame: Option<nat>,
}

/// The index of the frame that `frame` names, if it names one.
pub open spec fn frame_index(frame: Option<FrameHandle>) -> Option<nat> {
    match frame {
        Some(handle) => Some(handle@),
        None => None,
    }
}

/// The ancestry of a task that has just been made: runnable, with no call
/// stack and no parent.
pub open spec fn fresh() -> Seq<Link> {
    seq![Link { state: TaskState::Continue, top_frame: None }]
}

/// The number of tasks in the ancestry, the task itself included.
pub open spec fn depth(links: Seq<Link>) -> nat {
    links.len()
}

/// The lifecycle state of the task itself.
pub open spec fn state(links: Seq<Link>) -> TaskState {
    links[0].state
}

/// The index of the frame on top of the task's own call stack, if it has
/// one.
pub open spec fn top_frame(links: Seq<Link>) -> Option<nat> {
    links[0].top_frame
}

/// The ancestry after the task's state was set to `state`.
pub open spec fn with_state(links: Seq<Link>, state: TaskState) -> Seq<Link> {
    links.update(0, Link { state, ..links[0] })
}

/// The ancestry after the task's top frame was replaced by `top_frame`.
pub open spec fn with_top_frame(links: Seq<Link>, top_frame: Option<nat>) -> Seq<Link> {
    links.update(0, Link { top_frame, ..links[0] })
}

/// The ancestry after a task with the ancestry `parent` was attached as the
/// task's parent: the task's own link, then all of `parent`. Whatever the
/// task had for ancestors before is gone.
pub open spec fn attach(links: Seq<Link>, parent: Seq<Link>) -> Seq<Link> {
    links.take(1) + parent
}

/// The ancestry after the task's parent was taken out: the task's own link
/// alone.
pub open spec fn detach(links: Seq<Link>) -> Seq<Link> {
    links.take(1)
}

/// The ancestry of the task's parent, if the task has one.
pub open spec fn parent(links: Seq<Link>) -> Option<Seq<Link>> {
    if links.len() > 1 {
        Some(links.skip(1))
    } else {
        None
    }
}

} // verus!
