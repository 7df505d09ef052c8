//! Stereo frames and their byte form on the transport side.
//!
//! A sample is kept as the bit pattern of a 32-bit IEEE-754 number. The
//! transport wants each frame as two such numbers in little-endian order,
//! left channel first.

use byteorder::{ByteOrder, LittleEndian};
use vstd::prelude::*;

verus! {

/// Bytes that one frame occupies in a transport buffer.
pub const FRAME_BYTES: usize = 8;

/// One synchronized pair of samples at the target rate.
#[derive(Clone, Copy, Debug, PartialEq, Eq, Structural)]
pub struct AudioFrame {
    /// Bits of the left sample.
    pub left: u32,
    /// Bits of the right sample.
    pub right: u32,
}

/// The four bytes of `word`, least significant first.
pub open spec fn le_bytes(word: u32) -> Seq<u8> {
    seq![
        (word % 256) as u8,
        ((word / 256) % 256) as u8,
        ((word / 65536) % 256) as u8,
        ((word / 16777216) % 256) as u8,
    ]
}

impl AudioFrame {
    /// The eight bytes of this frame: left sample, then right sample.
    pub open spec fn bytes(self) -> Seq<u8> {
        le_bytes(self.left) + le_bytes(self.right)
    }

    /// Stores this frame into `buff[at .. at + 8]` and leaves the other bytes
    /// alone.
    pub fn store(&self, buff: &mut [u8], at: usize)
        requires
            at + FRAME_BYTES <= old(buff)@.len(),
        ensures
            final(buff)@ == splice(old(buff)@, at as int, self.bytes()),
    {
        let len = buff.len();
        assert(at + FRAME_BYTES <= len);
        write_words_le(buff, at, at + FRAME_BYTES, self.left, self.right);
        proof {
            assert(final(buff)@ =~= splice(old(buff)@, at as int, self.bytes()));
        }
    }
}

/// `base` with the bytes from `at` on replaced by `patch`, as far as `patch`
/// reaches.
pub open spec fn splice(base: Seq<u8>, at: int, patch: Seq<u8>) -> Seq<u8>
    recommends
        0 <= at,
        at + patch.len() <= base.len(),
{
    base.subrange(0, at) + patch + base.subrange(at + patch.len(), base.len() as int)
}

/// The byte form of a run of frames: eight bytes each, in order.
pub open spec fn encode(frames: Seq<AudioFrame>) -> Seq<u8> {
    Seq::new((8 * frames.len()) as nat, |i: int| frames[i / 8].bytes()[i % 8])
}

/// The byte form of no frames is empty.
pub proof fn lemma_encode_empty()
    ensures
        encode(Seq::<AudioFrame>::empty()) == Seq::<u8>::empty(),
{
    assert(encode(Seq::<AudioFrame>::empty()) =~= Seq::<u8>::empty());
}

/// Appending a frame appends its eight bytes.
pub proof fn lemma_encode_push(frames: Seq<AudioFrame>, frame: AudioFrame)
    ensures
        encode(frames.push(frame)) == encode(frames) + frame.bytes(),
        encode(frames).len() == 8 * frames.len(),
        frame.bytes().len() == 8,
{
    let whole = encode(frames.push(frame));
    let parts = encode(frames) + frame.bytes();
    assert(whole.len() == parts.len());
    assert forall|i: int| 0 <= i < whole.len() implies whole[i] == parts[i] by {
        if i < 8 * frames.len() {
            assert(i / 8 < frames.len());
            assert(frames.push(frame)[i / 8] == frames[i / 8]);
        } else {
            assert(i / 8 == frames.len());
            assert(i % 8 == i - 8 * frames.len());
        }
    }
    assert(whole =~= parts);
}

/// The byte form of two runs of frames, one after the other, is the byte
/// form of the first followed by that of the second.
pub proof fn lemma_encode_concat(first: Seq<AudioFrame>, second: Seq<AudioFrame>)
    ensures
        encode(first + second) == encode(first) + encode(second),
{
    let whole = encode(first + second);
    let parts = encode(first) + encode(second);
    assert(whole.len() == parts.len());
    assert forall|i: int| 0 <= i < whole.len() implies whole[i] == parts[i] by {
        if i < 8 * first.len() {
            assert(i / 8 < first.len());
        } else {
            let k = i - 8 * first.len();
            assert(i / 8 == first.len() + k / 8);
            assert(i % 8 == k % 8);
            assert((first + second)[i / 8] == second[k / 8]);
        }
    }
    assert(whole =~= parts);
}

/// `byteorder::LittleEndian::write_u32_into` on the two words `left` and
/// `right` and the window `buff[from .. to]`: each word is stored as its four
/// bytes, least significant first, the left word in the first half of the
/// window. Bytes outside the window are not touched. The callee panics unless
/// the window is exactly eight bytes long, which `requires` asks for.
#[verifier::external_body]
fn write_words_le(buff: &mut [u8], from: usize, to: usize, left: u32, right: u32)
    requires
        from + 8 == to,
        to <= old(buff)@.len(),
    ensures
        final(buff)@ == old(buff)@.subrange(0, from as int) + le_bytes(left) + le_bytes(right)
            + old(buff)@.subrange(to as int, old(buff)@.len() as int),
{
    LittleEndian::write_u32_into(&[left, right], &mut buff[from..to]);
}

} // verus!
