use std::collections::VecDeque;
use vstd::prelude::*;

use crate::frame::VideoFrame;

verus! {

/// An unbounded first-in first-out queue of video frames.
///
/// Pushing never blocks and never fails; frames come out in the order in
/// which they went in, each one at most once.
pub struct FrameQueue {
    frames: VecDeque<VideoFrame>,
}

impl View for FrameQueue {
    type V = Seq<VideoFrame>;

    closed spec fn view(&self) -> Seq<VideoFrame> {
        self.frames@
    }
}

impl FrameQueue {
    pub fn new() -> (r: FrameQueue)
        ensures
            r@ == Seq::<VideoFrame>::empty(),
    {
        FrameQueue { frames: VecDeque::new() }
    }

    /// Appends a frame at the back.
    pub fn push(&mut self, frame: VideoFrame)
        ensures
            final(self)@ == old(self)@.push(frame),
    {
        self.frames.push_back(frame);
    }

    /// Takes the frame at the front, if there is one.
    pub fn pop(&mut self) -> (r: Option<VideoFrame>)
        ensures
            old(self)@.len() == 0 ==> r is None && final(self)@ == old(self)@,
            old(self)@.len() > 0 ==> r == Some(old(self)@[0]) && final(self)@ == old(self)@.drop_first(),
    {
        self.frames.pop_front()
    }

    pub fn len(&self) -> (r: usize)
        ensures
            r == self@.len(),
    {
        self.frames.len()
    }
}

} // verus!
