//! What holds of whole runs of the bridge: of every sequence of packets
//! written, and of every interleaving of output queued and buffers read.

use crate::error::BridgeError;
use crate::frame::AudioFrame;
use crate::sink::{accepted, blocks_of, frames_of, frames_read, read_result, rest_of};
use vstd::prelude::*;

verus! {

/// All frames of a sequence of packets, in order.
pub open spec fn stream_frames(packets: Seq<Seq<u32>>) -> Seq<AudioFrame>
    decreases packets.len(),
{
    if packets.len() == 0 {
        Seq::empty()
    } else {
        stream_frames(packets.drop_last()) + frames_of(packets.last())
    }
}

/// The blocks handed out, and the frames still collected, after each packet
/// of `packets` was written in turn to a bridge that started empty and takes
/// `size` frames a block.
pub open spec fn run_writes(size: nat, packets: Seq<Seq<u32>>) -> (
    Seq<Seq<AudioFrame>>,
    Seq<AudioFrame>,
)
    decreases packets.len(),
{
    if packets.len() == 0 {
        (Seq::empty(), Seq::empty())
    } else {
        let (blocks, pending) = run_writes(size, packets.drop_last());
        let all = pending + frames_of(packets.last());
        (blocks + blocks_of(all, size), rest_of(all, size))
    }
}

/// Writing packet by packet cuts the stream exactly as one cut of the whole
/// stream would: the blocks handed out are the consecutive blocks of the
/// stream, and what stays collected is its tail short of a block. No frame
/// is added, dropped or moved, however the stream is split into packets.
pub proof fn lemma_writes_cut_the_stream(size: nat, packets: Seq<Seq<u32>>)
    requires
        size > 0,
    ensures
        run_writes(size, packets).0 == blocks_of(stream_frames(packets), size),
        run_writes(size, packets).1 == rest_of(stream_frames(packets), size),
    decreases packets.len(),
{
    if packets.len() == 0 {
        let none = Seq::<AudioFrame>::empty();
        assert(none.len() / size == 0) by (nonlinear_arith)
            requires
                none.len() == 0,
                size > 0,
        ;
        assert(blocks_of(none, size) =~= Seq::empty());
        assert(rest_of(none, size) =~= none);
    } else {
        lemma_writes_cut_the_stream(size, packets.drop_last());
        let before = stream_frames(packets.drop_last());
        lemma_cut_resumes(before, frames_of(packets.last()), size);
    }
}

/// Cutting `head`, then cutting its rest together with `tail`, gives the
/// blocks and the rest of `head + tail`.
pub proof fn lemma_cut_resumes(head: Seq<AudioFrame>, tail: Seq<AudioFrame>, size: nat)
    requires
        size > 0,
    ensures
        blocks_of(head, size) + blocks_of(rest_of(head, size) + tail, size) == blocks_of(
            head + tail,
            size,
        ),
        rest_of(rest_of(head, size) + tail, size) == rest_of(head + tail, size),
{
    let n = size as int;
    let q = head.len() as int / n;
    let carried = rest_of(head, size);
    let resumed = carried + tail;
    let whole = head + tail;
    let k = resumed.len() as int / n;
    vstd::arithmetic::div_mod::lemma_fundamental_div_mod(head.len() as int, n);
    vstd::arithmetic::div_mod::lemma_mod_bound(head.len() as int, n);
    vstd::arithmetic::div_mod::lemma_fundamental_div_mod(resumed.len() as int, n);
    vstd::arithmetic::div_mod::lemma_mod_bound(resumed.len() as int, n);
    assert(n * q == q * n) by (nonlinear_arith);
    assert(n * k == k * n) by (nonlinear_arith);
    assert(0 <= q * n <= head.len());
    assert(carried.len() == head.len() - q * n);
    assert(resumed =~= whole.skip(q * n));
    assert((q + k) * n == q * n + k * n) by (nonlinear_arith);
    vstd::arithmetic::div_mod::lemma_fundamental_div_mod_converse(
        whole.len() as int,
        n,
        q + k,
        resumed.len() as int % n,
    );
    assert(whole.len() as int / n == q + k);
    let joined = blocks_of(head, size) + blocks_of(resumed, size);
    let direct = blocks_of(whole, size);
    assert(joined.len() == direct.len());
    assert forall|j: int| 0 <= j < direct.len() implies joined[j] == direct[j] by {
        assert(j * n + n == (j + 1) * n) by (nonlinear_arith);
        if j < q {
            assert((j + 1) * n <= q * n) by (nonlinear_arith)
                requires
                    j + 1 <= q,
                    n > 0,
            ;
            assert(0 <= j * n) by (nonlinear_arith)
                requires
                    0 <= j,
                    n > 0,
            ;
            assert(head.subrange(j * n, (j + 1) * n) =~= whole.subrange(j * n, (j + 1) * n));
        } else {
            let i = j - q;
            assert(i * n + n == (i + 1) * n) by (nonlinear_arith);
            assert(i * n + q * n == j * n) by (nonlinear_arith)
                requires
                    i == j - q,
            ;
            assert((i + 1) * n <= k * n) by (nonlinear_arith)
                requires
                    i + 1 <= k,
                    n > 0,
            ;
            assert(0 <= i * n) by (nonlinear_arith)
                requires
                    0 <= i,
                    n > 0,
            ;
            assert(joined[j] == resumed.subrange(i * n, (i + 1) * n));
            assert(resumed.subrange(i * n, (i + 1) * n) =~= whole.subrange(
                j * n,
                (j + 1) * n,
            ));
        }
    }
    assert(joined =~= direct);
    assert(rest_of(resumed, size) =~= rest_of(whole, size));
}

/// A stream of a whole number of blocks leaves nothing collected, and is
/// handed out as exactly that number of blocks of `size` frames each. With a
/// resampler that turns every input block into `output_block` frames, the
/// writes thus produce `(frames / size) * output_block` frames.
pub proof fn lemma_whole_blocks(size: nat, packets: Seq<Seq<u32>>, output_block: nat)
    requires
        size > 0,
        stream_frames(packets).len() % size == 0,
    ensures
        run_writes(size, packets).1 == Seq::<AudioFrame>::empty(),
        run_writes(size, packets).0.len() == stream_frames(packets).len() / size,
        run_writes(size, packets).0.len() * size == stream_frames(packets).len(),
        forall|j: int|
            0 <= j < run_writes(size, packets).0.len() ==> (#[trigger] run_writes(
                size,
                packets,
            ).0[j]).len() == size,
        resampled_frames(run_writes(size, packets).0.len(), output_block) == (stream_frames(
            packets,
        ).len() / size) * output_block,
{
    lemma_writes_cut_the_stream(size, packets);
    let stream = stream_frames(packets);
    let n = size as int;
    let q = stream.len() as int / n;
    vstd::arithmetic::div_mod::lemma_fundamental_div_mod(stream.len() as int, n);
    assert(n * q == q * n) by (nonlinear_arith);
    assert(rest_of(stream, size) =~= Seq::<AudioFrame>::empty());
    assert forall|j: int| 0 <= j < blocks_of(stream, size).len() implies (
    #[trigger] blocks_of(stream, size)[j]).len() == size by {
        assert(j * n + n == (j + 1) * n) by (nonlinear_arith);
        assert((j + 1) * n <= q * n) by (nonlinear_arith)
            requires
                j + 1 <= q,
                n > 0,
        ;
        assert(0 <= j * n) by (nonlinear_arith)
            requires
                0 <= j,
                n > 0,
        ;
    }
}

/// Frames that come out of `blocks` input blocks when each becomes
/// `output_block` frames.
pub open spec fn resampled_frames(blocks: nat, output_block: nat) -> nat {
    blocks * output_block
}

/// One step of a run of the queue.
pub enum QueueOp {
    /// The producer offers these frames; those that find room are queued.
    Offer(Seq<AudioFrame>),
    /// The consumer reads into a buffer of this many bytes.
    Poll(nat),
}

/// Where a run of the queue has got to.
pub struct QueueRun {
    /// Frames waiting, oldest first.
    pub queued: Seq<AudioFrame>,
    /// Every frame that was queued so far, in the order of queueing.
    pub produced: Seq<AudioFrame>,
    /// Every frame that was read so far, in the order of reading.
    pub delivered: Seq<AudioFrame>,
}

/// The run after `op`, on a queue that holds at most `capacity` frames.
pub open spec fn queue_step(capacity: nat, run: QueueRun, op: QueueOp) -> QueueRun {
    match op {
        QueueOp::Offer(frames) => {
            let taken = frames.take(
                accepted(frames.len(), (capacity - run.queued.len()) as nat) as int,
            );
            QueueRun {
                queued: run.queued + taken,
                produced: run.produced + taken,
                delivered: run.delivered,
            }
        },
        QueueOp::Poll(room) => {
            let count = frames_read(run.queued.len(), room) as int;
            QueueRun {
                queued: run.queued.skip(count),
                produced: run.produced,
                delivered: run.delivered + run.queued.take(count),
            }
        },
    }
}

/// The run after all of `ops`, from an empty queue.
pub open spec fn run_queue(capacity: nat, ops: Seq<QueueOp>) -> QueueRun
    decreases ops.len(),
{
    if ops.len() == 0 {
        QueueRun { queued: Seq::empty(), produced: Seq::empty(), delivered: Seq::empty() }
    } else {
        queue_step(capacity, run_queue(capacity, ops.drop_last()), ops.last())
    }
}

/// Frames leave the queue in the order in which they entered it, none twice
/// and none skipped: in every interleaving of offers and reads, what was
/// read, followed by what waits, is what was queued. So the k-th frame read
/// is the k-th frame produced. The queue never exceeds its bound.
pub proof fn lemma_order_is_kept(capacity: nat, ops: Seq<QueueOp>)
    ensures
        run_queue(capacity, ops).delivered + run_queue(capacity, ops).queued == run_queue(
            capacity,
            ops,
        ).produced,
        run_queue(capacity, ops).queued.len() <= capacity,
        forall|k: int|
            0 <= k < run_queue(capacity, ops).delivered.len() ==> run_queue(
                capacity,
                ops,
            ).delivered[k] == run_queue(capacity, ops).produced[k],
    decreases ops.len(),
{
    let now = run_queue(capacity, ops);
    if ops.len() == 0 {
        assert(now.delivered + now.queued =~= now.produced);
    } else {
        lemma_order_is_kept(capacity, ops.drop_last());
        let before = run_queue(capacity, ops.drop_last());
        match ops.last() {
            QueueOp::Offer(frames) => {
                assert(now.delivered + now.queued =~= now.produced);
            },
            QueueOp::Poll(room) => {
                assert(now.delivered + now.queued =~= before.delivered + before.queued);
            },
        }
    }
    assert forall|k: int| 0 <= k < now.delivered.len() implies now.delivered[k]
        == now.produced[k] by {
        assert((now.delivered + now.queued)[k] == now.delivered[k]);
    }
}

/// After a reset nothing that was queued before can be read: the queue is
/// empty, and a read of an empty queue takes no frame and writes no byte,
/// whatever the buffer.
pub proof fn lemma_reset_leaves_nothing_to_read(room: nat)
    ensures
        frames_read(0, room) == 0,
        read_result(0, room) == Err::<usize, BridgeError>(
            if room < 8 {
                BridgeError::BufferTooSmall
            } else {
                BridgeError::WouldBlock
            },
        ),
{
}

/// A read never reports zero bytes: it fails, asks the caller to wait, or
/// returns at least one whole frame and only whole frames.
pub proof fn lemma_read_is_never_empty(queued: nat, room: nat)
    requires
        room <= usize::MAX,
    ensures
        read_result(queued, room) matches Ok(count) ==> count >= 8 && count % 8 == 0 && count
            <= room && queued > 0,
        read_result(queued, room) == Err::<usize, BridgeError>(BridgeError::BufferTooSmall)
            <==> room < 8,
        read_result(queued, room) == Err::<usize, BridgeError>(BridgeError::WouldBlock) <==> room
            >= 8 && queued == 0,
        read_result(queued, room) is Err ==> frames_read(queued, room) == 0,
{
}

} // verus!
