use std::collections::VecDeque;

use vstd::arithmetic::mul::{lemma_mul_inequality, lemma_mul_is_distributive_add_other_way};
use vstd::prelude::*;

verus! {

/// The value of four bytes read as a little-endian 32-bit word.
pub open spec fn spec_le_u32(b0: u8, b1: u8, b2: u8, b3: u8) -> int {
    b0 + 256 * b1 + 65536 * b2 + 16777216 * b3
}

/// The sample bit pattern at slot `i` of an interleaved byte stream:
/// the little-endian word formed by the first four bytes of frame `i`,
/// that is, the frame's first channel.
pub open spec fn spec_sample_at(bytes: Seq<u8>, frame_size: int, i: int) -> u32
    recommends
        4 <= frame_size,
        0 <= i,
        i * frame_size + 4 <= bytes.len(),
{
    spec_le_u32(
        bytes[i * frame_size],
        bytes[i * frame_size + 1],
        bytes[i * frame_size + 2],
        bytes[i * frame_size + 3],
    ) as u32
}

/// Extract `chunk_size` samples from the front of an interleaved byte
/// queue whose frames are `blockalign` bytes wide.
///
/// Each sample is the little-endian 32-bit word at the start of its
/// frame — the bit pattern of the frame's first-channel float — and the
/// remaining `blockalign - 4` bytes of the frame (the other channels)
/// are discarded, so exactly `chunk_size * blockalign` bytes leave the
/// queue. Callers that need numeric samples reinterpret each word as an
/// IEEE 754 single-precision float.
pub fn extract_float_samples(
    sample_queue: &mut VecDeque<u8>,
    chunk_size: usize,
    blockalign: usize,
) -> (r: Vec<u32>)
    requires
        4 <= blockalign,
        chunk_size * blockalign <= old(sample_queue)@.len(),
    ensures
        r@.len() == chunk_size,
        forall|i: int|
            0 <= i < chunk_size ==> r@[i] == spec_sample_at(
                old(sample_queue)@,
                blockalign as int,
                i,
            ),
        final(sample_queue)@ == old(sample_queue)@.skip((chunk_size * blockalign) as int),
{
    proof {
        vstd::std_specs::vecdeque::axiom_spec_len(sample_queue);
    }
    let ghost original: Seq<u8> = sample_queue@;
    let mut float_samples: Vec<u32> = Vec::new();
    let mut i: usize = 0;
    while i < chunk_size
        invariant
            4 <= blockalign,
            chunk_size * blockalign <= original.len(),
            original.len() <= usize::MAX,
            sample_queue@ == original,
            i <= chunk_size,
            float_samples@.len() == i,
            forall|j: int|
                0 <= j < i ==> float_samples@[j] == spec_sample_at(
                    original,
                    blockalign as int,
                    j,
                ),
        decreases chunk_size - i,
    {
        proof {
            lemma_mul_inequality(i + 1, chunk_size as int, blockalign as int);
            lemma_mul_is_distributive_add_other_way(blockalign as int, i as int, 1);
            assert(i * blockalign + blockalign <= original.len());
        }
        let offset: usize = i * blockalign;
        let b0: u8 = sample_queue[offset];
        let b1: u8 = sample_queue[offset + 1];
        let b2: u8 = sample_queue[offset + 2];
        let b3: u8 = sample_queue[offset + 3];
        let value: u32 = (b0 as u32) + (b1 as u32) * 256 + (b2 as u32) * 65536 + (b3 as u32)
            * 16777216;
        float_samples.push(value);
        i += 1;
    }
    let total: usize = chunk_size * blockalign;
    let mut consumed: usize = 0;
    while consumed < total
        invariant
            total <= original.len(),
            consumed <= total,
            sample_queue@ == original.skip(consumed as int),
        decreases total - consumed,
    {
        let _ = sample_queue.pop_front();
        proof {
            assert(original.skip(consumed as int).subrange(
                1,
                original.skip(consumed as int).len() as int,
            ) =~= original.skip(consumed as int + 1));
        }
        consumed += 1;
    }
    float_samples
}

/// Whether a device-id list contains the given id.
pub open spec fn spec_contains_id(ids: Seq<String>, id: Seq<char>) -> bool {
    exists|j: int| 0 <= j < ids.len() && ids[j]@ == id
}

/// Look for a device id in the list of available output-device ids.
pub fn contains_device_id(ids: &Vec<String>, id: &String) -> (r: bool)
    ensures
        r == spec_contains_id(ids@, id@),
{
    let mut i: usize = 0;
    while i < ids.len()
        invariant
            i <= ids@.len(),
            forall|j: int| 0 <= j < i ==> ids@[j]@ != id@,
        decreases ids@.len() - i,
    {
        if ids[i].eq(id) {
            return true;
        }
        i += 1;
    }
    false
}

} // verus!
