//! The audio bridge between the decoder and the voice transport.
//!
//! The decoder pushes packets of interleaved samples at the source rate; the
//! bridge collects them into blocks of the size that the resampler asks for.
//! The resampler's output comes back as frames at the target rate and waits
//! in a bounded queue until the transport reads it as bytes.
//!
//! The bridge never waits and never resamples. Where the producer would have
//! to wait for room, or the consumer for a frame, the call says so and
//! changes nothing, and the caller waits and calls again.

use crate::channel::FrameChannel;
use crate::error::BridgeError;
use crate::frame::{encode, lemma_encode_push, splice, AudioFrame, FRAME_BYTES};
use vstd::prelude::*;

verus! {

/// Input block size that the bridge asks the resampler for.
pub const REQUESTED_BLOCK: usize = 1024;

/// Channels of the stream.
pub const CHANNELS: usize = 2;

/// Frames that the queue between producer and consumer holds: one output
/// block of the resampler at the rates in use.
pub const QUEUE_CAPACITY: usize = 1120;

/// What the decoder hands over.
pub enum AudioPacket {
    /// Interleaved stereo samples at the source rate, left first.
    Samples(Vec<u32>),
    /// Undecoded data, which the bridge cannot use.
    Raw(Vec<u8>),
}

/// One full input block for the resampler, channel by channel.
pub struct Block {
    /// Samples of the left channel.
    pub left: Vec<u32>,
    /// Samples of the right channel.
    pub right: Vec<u32>,
    /// Whether the resampler has to be constructed anew before it sees this
    /// block, so that no filter history of an earlier track reaches it.
    pub fresh: bool,
}

/// The frames that two channel sequences form, as far as both reach.
pub open spec fn pair_up(left: Seq<u32>, right: Seq<u32>) -> Seq<AudioFrame> {
    Seq::new(
        if left.len() <= right.len() {
            left.len()
        } else {
            right.len()
        },
        |i: int| AudioFrame { left: left[i], right: right[i] },
    )
}

/// The frames of a packet of interleaved samples. A last sample without a
/// partner is not part of any frame.
pub open spec fn frames_of(samples: Seq<u32>) -> Seq<AudioFrame> {
    Seq::new(
        (samples.len() / 2) as nat,
        |i: int| AudioFrame { left: samples[2 * i], right: samples[2 * i + 1] },
    )
}

/// The full blocks of `size` frames that `frames` holds, in order.
pub open spec fn blocks_of(frames: Seq<AudioFrame>, size: nat) -> Seq<Seq<AudioFrame>> {
    Seq::new(
        (frames.len() / size) as nat,
        |j: int| frames.subrange(j * size, (j + 1) * size),
    )
}

/// What is left of `frames` behind its last full block of `size` frames.
pub open spec fn rest_of(frames: Seq<AudioFrame>, size: nat) -> Seq<AudioFrame> {
    frames.subrange((frames.len() / size) * size as int, frames.len() as int)
}

impl Block {
    /// The frames of the block.
    pub open spec fn frames(&self) -> Seq<AudioFrame> {
        pair_up(self.left@, self.right@)
    }
}

/// The frames of each block of `blocks`.
pub open spec fn frames_of_blocks(blocks: Seq<Block>) -> Seq<Seq<AudioFrame>> {
    Seq::new(blocks.len(), |j: int| blocks[j].frames())
}

/// The bridge: an input accumulator, the queue towards the transport, and
/// the knowledge of whether the resampler is due for reconstruction.
pub struct EmittedSink {
    left: Vec<u32>,
    right: Vec<u32>,
    frames_needed: usize,
    channel: FrameChannel,
    cold: bool,
}

impl EmittedSink {
    /// Frames collected for the next input block, oldest first.
    pub closed spec fn pending(&self) -> Seq<AudioFrame> {
        pair_up(self.left@, self.right@)
    }

    /// Frames waiting for the transport, oldest first.
    pub closed spec fn queued(&self) -> Seq<AudioFrame> {
        self.channel@
    }

    /// Frames that make one input block.
    pub closed spec fn block_size(&self) -> nat {
        self.frames_needed as nat
    }

    /// Frames that the queue holds at most.
    pub closed spec fn capacity(&self) -> nat {
        self.channel.capacity()
    }

    /// Whether the next block goes to a resampler without history.
    pub closed spec fn is_cold(&self) -> bool {
        self.cold
    }

    /// The accumulator is short of a block, and the queue within its bound.
    pub closed spec fn wf(&self) -> bool {
        &&& self.left@.len() == self.right@.len()
        &&& self.left@.len() < self.frames_needed
        &&& self.channel.wf()
    }

    /// A bridge for a resampler that takes `frames_needed` frames at a time,
    /// with nothing collected and nothing queued.
    pub fn new(frames_needed: usize) -> (sink: Self)
        requires
            frames_needed > 0,
        ensures
            sink.wf(),
            sink.block_size() == frames_needed,
            sink.capacity() == QUEUE_CAPACITY,
            sink.pending() == Seq::<AudioFrame>::empty(),
            sink.queued() == Seq::<AudioFrame>::empty(),
            sink.is_cold(),
    {
        let sink = EmittedSink {
            left: Vec::new(),
            right: Vec::new(),
            frames_needed,
            channel: FrameChannel::new(QUEUE_CAPACITY),
            cold: true,
        };
        assert(sink.pending() =~= Seq::<AudioFrame>::empty());
        sink
    }

    /// Frames that make one input block.
    pub fn frames_needed(&self) -> (n: usize)
        ensures
            n == self.block_size(),
    {
        self.frames_needed
    }

    /// Number of frames collected for the next input block.
    pub fn pending_len(&self) -> (n: usize)
        requires
            self.wf(),
        ensures
            n == self.pending().len(),
    {
        self.left.len()
    }

    /// Number of frames waiting for the transport.
    pub fn queued_len(&self) -> (n: usize)
        requires
            self.wf(),
        ensures
            n == self.queued().len(),
    {
        self.channel.len()
    }

    /// Starts a new logical track: drops every queued frame and every
    /// collected sample, and marks the resampler for reconstruction.
    pub fn reset(&mut self)
        requires
            old(self).wf(),
        ensures
            final(self).wf(),
            final(self).block_size() == old(self).block_size(),
            final(self).capacity() == old(self).capacity(),
            final(self).pending() == Seq::<AudioFrame>::empty(),
            final(self).queued() == Seq::<AudioFrame>::empty(),
            final(self).is_cold(),
    {
        self.left.clear();
        self.right.clear();
        self.channel.clear();
        self.cold = true;
        assert(self.pending() =~= Seq::<AudioFrame>::empty());
    }

    /// Takes a packet from the decoder. Its frames join the collected ones,
    /// and every block of `block_size` frames that this completes is handed
    /// back for resampling, in order; what remains stays collected. Only the
    /// first block after a reset is marked fresh. A packet without samples
    /// changes nothing and is reported as malformed.
    pub fn write(&mut self, packet: &AudioPacket) -> (jobs: Result<Vec<Block>, BridgeError>)
        requires
            old(self).wf(),
        ensures
            final(self).wf(),
            final(self).block_size() == old(self).block_size(),
            final(self).capacity() == old(self).capacity(),
            final(self).queued() == old(self).queued(),
            packet is Raw ==> jobs == Err::<Vec<Block>, BridgeError>(BridgeError::MalformedPacket)
                && final(self).pending() == old(self).pending() && final(self).is_cold() == old(
                self,
            ).is_cold(),
            packet matches AudioPacket::Samples(samples) ==> jobs matches Ok(blocks) && {
                let all = old(self).pending() + frames_of(samples@);
                &&& frames_of_blocks(blocks@) == blocks_of(all, old(self).block_size())
                &&& final(self).pending() == rest_of(all, old(self).block_size())
                &&& forall|j: int|
                    0 <= j < blocks@.len() ==> {
                        &&& (#[trigger] blocks@[j]).left@.len() == old(self).block_size()
                        &&& blocks@[j].right@.len() == old(self).block_size()
                        &&& blocks@[j].fresh == (j == 0 && old(self).is_cold())
                    }
                &&& final(self).is_cold() == (old(self).is_cold() && blocks@.len() == 0)
            },
    {
        let samples = match packet {
            AudioPacket::Samples(samples) => samples,
            AudioPacket::Raw(_) => {
                return Err(BridgeError::MalformedPacket);
            },
        };
        let ghost size = self.frames_needed as int;
        let ghost before = self.pending();
        let ghost was_cold = self.cold;
        let ghost incoming = frames_of(samples@);
        let ghost all = before + incoming;
        let total: usize = samples.len();
        let pairs: usize = total / 2;
        let mut blocks: Vec<Block> = Vec::new();
        let mut i: usize = 0;
        while i < pairs
            invariant
                self.wf(),
                size == self.frames_needed,
                size > 0,
                self.frames_needed == old(self).frames_needed,
                self.channel == old(self).channel,
                total == samples@.len(),
                pairs == total / 2,
                incoming == frames_of(samples@),
                all == before + incoming,
                i <= pairs,
                blocks@.len() * size + self.left@.len() == before.len() + i,
                self.pending() == all.subrange(blocks@.len() * size, before.len() + i),
                forall|j: int|
                    0 <= j < blocks@.len() ==> {
                        &&& (#[trigger] blocks@[j]).left@.len() == size
                        &&& blocks@[j].right@.len() == size
                        &&& blocks@[j].fresh == (j == 0 && was_cold)
                        &&& blocks@[j].frames() == all.subrange(j * size, (j + 1) * size)
                    },
                self.cold == (was_cold && blocks@.len() == 0),
            decreases pairs - i,
        {
            let ghost collected = self.pending();
            let ghost done = blocks@.len() as int;
            let l = samples[2 * i];
            let r = samples[2 * i + 1];
            self.left.push(l);
            self.right.push(r);
            proof {
                assert(incoming[i as int] == AudioFrame { left: l, right: r });
                assert(all[before.len() + i] == incoming[i as int]);
                assert(self.pending() =~= collected.push(AudioFrame { left: l, right: r }));
                assert(self.pending() =~= all.subrange(done * size, before.len() + i + 1));
            }
            if self.left.len() == self.frames_needed {
                let left = self.left.split_off(0);
                let right = self.right.split_off(0);
                let block = Block { left, right, fresh: self.cold };
                proof {
                    assert(done * size + size == (done + 1) * size) by (nonlinear_arith);
                    assert(block.frames() =~= all.subrange(done * size, (done + 1) * size));
                    assert(self.pending() =~= all.subrange(
                        (done + 1) * size,
                        before.len() + i + 1,
                    ));
                }
                blocks.push(block);
                self.cold = false;
            }
            i += 1;
        }
        proof {
            let count = blocks@.len() as int;
            assert(all.len() == before.len() + pairs);
            lemma_quotient(all.len() as int, size, count, self.left@.len() as int);
            assert(frames_of_blocks(blocks@) =~= blocks_of(all, size as nat));
            assert(self.pending() =~= rest_of(all, size as nat));
        }
        Ok(blocks)
    }

    /// Hands resampled output to the queue: the frames that `left` and
    /// `right` form are queued in order for as long as there is room.
    /// Returns how many went in; the caller offers the others again once the
    /// transport has read.
    pub fn enqueue(&mut self, left: &[u32], right: &[u32]) -> (taken: usize)
        requires
            old(self).wf(),
        ensures
            final(self).wf(),
            final(self).block_size() == old(self).block_size(),
            final(self).capacity() == old(self).capacity(),
            final(self).pending() == old(self).pending(),
            final(self).is_cold() == old(self).is_cold(),
            taken == accepted(
                pair_up(left@, right@).len(),
                (old(self).capacity() - old(self).queued().len()) as nat,
            ),
            final(self).queued() == old(self).queued() + pair_up(left@, right@).take(taken as int),
    {
        let ghost output = pair_up(left@, right@);
        let ghost waiting = self.queued();
        let total = if left.len() <= right.len() {
            left.len()
        } else {
            right.len()
        };
        let mut taken: usize = 0;
        proof {
            assert(waiting + output.take(0) =~= waiting);
        }
        while taken < total && !self.channel.is_full()
            invariant
                self.wf(),
                self.frames_needed == old(self).frames_needed,
                self.left == old(self).left,
                self.right == old(self).right,
                self.cold == old(self).cold,
                self.channel.capacity() == old(self).channel.capacity(),
                output == pair_up(left@, right@),
                total == output.len(),
                total <= left@.len(),
                total <= right@.len(),
                waiting == old(self).channel@,
                taken <= total,
                self.channel@ == waiting + output.take(taken as int),
            decreases total - taken,
        {
            let frame = AudioFrame { left: left[taken], right: right[taken] };
            let ghost so_far = self.channel@;
            let sent = self.channel.try_send(frame);
            proof {
                assert(sent is Ok);
                assert(output[taken as int] == frame);
                assert(so_far.push(frame) =~= waiting + output.take(taken as int + 1));
            }
            taken += 1;
        }
        taken
    }

    /// Fills `buff` for the transport: as many whole frames as `buff` holds
    /// and the queue has, oldest first, each as eight bytes. The result is
    /// the number of bytes written, which is never zero. A buffer too small
    /// for one frame is an error; an empty queue is reported as
    /// [`BridgeError::WouldBlock`]. Neither changes anything.
    pub fn read(&mut self, buff: &mut [u8]) -> (count: Result<usize, BridgeError>)
        requires
            old(self).wf(),
        ensures
            final(self).wf(),
            final(self).block_size() == old(self).block_size(),
            final(self).capacity() == old(self).capacity(),
            final(self).pending() == old(self).pending(),
            final(self).is_cold() == old(self).is_cold(),
            final(buff)@.len() == old(buff)@.len(),
            count is Err ==> final(buff)@ == old(buff)@ && final(self).queued() == old(
                self,
            ).queued(),
            count == read_result(old(self).queued().len(), old(buff)@.len()),
            ({
                let taken = frames_read(old(self).queued().len(), old(buff)@.len()) as int;
                &&& final(self).queued() == old(self).queued().skip(taken)
                &&& final(buff)@ == encode(old(self).queued().take(taken)) + old(buff)@.skip(
                    8 * taken,
                )
            }),
    {
        let ghost waiting = self.queued();
        let ghost start = buff@;
        let room = buff.len();
        proof {
            assert(waiting.skip(0) =~= waiting);
            assert(encode(waiting.take(0)) + start.skip(0) =~= start);
        }
        if room < FRAME_BYTES {
            return Err(BridgeError::BufferTooSmall);
        }
        if self.channel.is_empty() {
            return Err(BridgeError::WouldBlock);
        }
        let fit = room / FRAME_BYTES;
        let mut frames: usize = 0;
        let mut written: usize = 0;
        while frames < fit
            invariant
                self.wf(),
                self.frames_needed == old(self).frames_needed,
                self.left == old(self).left,
                self.right == old(self).right,
                self.cold == old(self).cold,
                self.channel.capacity() == old(self).channel.capacity(),
                waiting == old(self).channel@,
                start == old(buff)@,
                room == start.len(),
                buff@.len() == room,
                fit == room / 8,
                frames <= fit,
                frames <= waiting.len(),
                written == 8 * frames,
                self.channel@ == waiting.skip(frames as int),
                buff@ == encode(waiting.take(frames as int)) + start.skip(8 * frames),
            ensures
                frames == fit || frames == waiting.len(),
            decreases fit - frames,
        {
            let ghost filled = buff@;
            match self.channel.try_recv() {
                Some(frame) => {
                    frame.store(buff, written);
                    proof {
                        assert(self.channel@ =~= waiting.skip(frames as int + 1));
                        lemma_read_step(waiting, start, frames as int, filled, buff@);
                    }
                    frames += 1;
                    written += FRAME_BYTES;
                },
                None => {
                    break ;
                },
            }
        }
        Ok(written)
    }

    /// The stream has no positions to seek to.
    pub fn is_seekable(&self) -> (seekable: bool)
        ensures
            !seekable,
    {
        false
    }

    /// The stream has no known end.
    pub fn byte_len(&self) -> (len: Option<u64>)
        ensures
            len.is_none(),
    {
        None
    }
}

/// How many of `offered` frames a queue with `room` free places takes.
pub open spec fn accepted(offered: nat, room: nat) -> nat {
    if offered <= room {
        offered
    } else {
        room
    }
}

/// How many frames one `read` takes from `queued` frames into a buffer of
/// `room` bytes.
pub open spec fn frames_read(queued: nat, room: nat) -> nat {
    if room / 8 <= queued {
        room / 8
    } else {
        queued
    }
}

/// What one `read` returns with `queued` frames waiting and a buffer of
/// `room` bytes.
pub open spec fn read_result(queued: nat, room: nat) -> Result<usize, BridgeError> {
    if room < 8 {
        Err(BridgeError::BufferTooSmall)
    } else if queued == 0 {
        Err(BridgeError::WouldBlock)
    } else {
        Ok((8 * frames_read(queued, room)) as usize)
    }
}

/// One more frame stored behind `done` frames keeps the buffer in step
/// with the queue.
proof fn lemma_read_step(
    waiting: Seq<AudioFrame>,
    start: Seq<u8>,
    done: int,
    before: Seq<u8>,
    after: Seq<u8>,
)
    requires
        0 <= done < waiting.len(),
        8 * done + 8 <= start.len(),
        before == encode(waiting.take(done)) + start.skip(8 * done),
        after == splice(before, 8 * done, waiting[done].bytes()),
    ensures
        after == encode(waiting.take(done + 1)) + start.skip(8 * done + 8),
{
    let got = waiting.take(done);
    let frame = waiting[done];
    assert(waiting.take(done + 1) =~= got.push(frame));
    lemma_encode_push(got, frame);
    assert(encode(got).len() == 8 * done);
    assert(before.subrange(0, 8 * done) =~= encode(got));
    assert(before.subrange(8 * done + 8, before.len() as int) =~= start.skip(8 * done + 8));
    assert(after =~= encode(got) + frame.bytes() + start.skip(8 * done + 8));
}

/// A quotient is known by its remainder.
proof fn lemma_quotient(total: int, size: int, count: int, rest: int)
    requires
        size > 0,
        0 <= rest < size,
        count * size + rest == total,
    ensures
        total / size == count,
        (total / size) * size == total - rest,
{
    vstd::arithmetic::div_mod::lemma_fundamental_div_mod_converse(total, size, count, rest);
}

} // verus!
