//! Handles to call-stack frames.
//!
//! Frames live in storage that belongs to whoever pushes and pops them. A
//! task never looks inside a frame; it only remembers which frame is on top
//! of its stack, by a handle that cannot be duplicated.

use vstd::prelude::*;

verus! {

/// Names one frame in the frame storage by its index there.
///
/// A handle is neither `Copy` nor `Clone`: whoever holds it holds the only
/// way to that frame that was handed out.
#[derive(Debug, PartialEq, Eq, Structural)]
pub struct FrameHandle {
    index: usize,
}

impl View for FrameHandle {
    type V = nat;

    /// The index of the frame that the handle names.
    closed spec fn view(&self) -> nat {
        self.index as nat
    }
}

impl FrameHandle {
    /// A handle to the frame stored at `index`.
    pub fn new(index: usize) -> (handle: FrameHandle)
        ensures
            handle@ == index,
    {
        FrameHandle { index }
    }

    /// The index of the frame that the handle names.
    pub fn index(&self) -> (index: usize)
        ensures
            index == self@,
    {
        self.index
    }

    /// A handle is no more than its index: two handles with the same view
    /// are the same handle.
    pub proof fn lemma_view_is_injective(self, other: FrameHandle)
        requires
            self@ == other@,
        ensures
            self == other,
    {
    }
}

} // verus!
