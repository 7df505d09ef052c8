//! The bounded conduit between the producer of frames and their consumer.

use crate::frame::AudioFrame;
use std::collections::VecDeque;
use vstd::prelude::*;

verus! {

/// A first-in, first-out queue of frames that never holds more than its
/// bound. Neither end waits: a full queue refuses a frame, an empty one has
/// none to give, and the caller decides how to wait.
pub struct FrameChannel {
    frames: VecDeque<AudioFrame>,
    bound: usize,
}

impl View for FrameChannel {
    type V = Seq<AudioFrame>;

    /// The queued frames, oldest first.
    closed spec fn view(&self) -> Seq<AudioFrame> {
        self.frames@
    }
}

impl FrameChannel {
    /// The most frames that the queue holds at a time.
    pub closed spec fn capacity(&self) -> nat {
        self.bound as nat
    }

    /// The queue holds no more than its bound.
    pub open spec fn wf(&self) -> bool {
        self@.len() <= self.capacity()
    }

    /// An empty queue for at most `bound` frames.
    pub fn new(bound: usize) -> (channel: Self)
        ensures
            channel.wf(),
            channel@ == Seq::<AudioFrame>::empty(),
            channel.capacity() == bound,
    {
        FrameChannel { frames: VecDeque::new(), bound }
    }

    /// Number of queued frames.
    pub fn len(&self) -> (n: usize)
        requires
            self.wf(),
        ensures
            n == self@.len(),
    {
        self.frames.len()
    }

    /// The bound that the queue was made with.
    pub fn bound(&self) -> (n: usize)
        ensures
            n == self.capacity(),
    {
        self.bound
    }

    /// Whether no frame is queued.
    pub fn is_empty(&self) -> (empty: bool)
        requires
            self.wf(),
        ensures
            empty == (self@.len() == 0),
    {
        self.frames.len() == 0
    }

    /// Whether the next `try_send` would be refused.
    pub fn is_full(&self) -> (full: bool)
        requires
            self.wf(),
        ensures
            full == (self@.len() == self.capacity()),
    {
        self.frames.len() >= self.bound
    }

    /// Queues `frame` behind the others, or hands it back when the queue is
    /// full.
    pub fn try_send(&mut self, frame: AudioFrame) -> (sent: Result<(), AudioFrame>)
        requires
            old(self).wf(),
        ensures
            final(self).wf(),
            final(self).capacity() == old(self).capacity(),
            old(self)@.len() < old(self).capacity() ==> sent == Ok::<(), AudioFrame>(())
                && final(self)@ == old(self)@.push(frame),
            old(self)@.len() >= old(self).capacity() ==> sent == Err::<(), AudioFrame>(frame)
                && final(self)@ == old(self)@,
    {
        if self.frames.len() < self.bound {
            self.frames.push_back(frame);
            Ok(())
        } else {
            Err(frame)
        }
    }

    /// Takes the oldest frame, if there is one.
    pub fn try_recv(&mut self) -> (got: Option<AudioFrame>)
        requires
            old(self).wf(),
        ensures
            final(self).wf(),
            final(self).capacity() == old(self).capacity(),
            old(self)@.len() == 0 ==> got.is_none() && final(self)@ == old(self)@,
            old(self)@.len() > 0 ==> got == Some(old(self)@[0]) && final(self)@ == old(self)@.skip(
                1,
            ),
    {
        let got = self.frames.pop_front();
        proof {
            if old(self)@.len() > 0 {
                assert(final(self)@ =~= old(self)@.skip(1));
            }
        }
        got
    }

    /// Throws away every queued frame.
    pub fn clear(&mut self)
        ensures
            final(self).wf(),
            final(self).capacity() == old(self).capacity(),
            final(self)@ == Seq::<AudioFrame>::empty(),
    {
        self.frames.clear();
    }
}

} // verus!
