//! The one-byte integrity code that closes every frame.
//!
//! A frame is valid when the sum of all its bytes, the checksum byte
//! included, is zero modulo 256.

use vstd::prelude::*;

verus! {

/// The sum of the bytes of `data`, modulo 256.
pub open spec fn byte_sum(data: Seq<u8>) -> int
    decreases data.len(),
{
    if data.len() == 0 {
        0
    } else {
        (byte_sum(data.drop_last()) + data.last() as int) % 256
    }
}

/// The byte that brings the sum of `data` to zero modulo 256.
pub open spec fn checksum_of(data: Seq<u8>) -> u8 {
    ((256 - byte_sum(data)) % 256) as u8
}

/// A frame is valid when its bytes, checksum included, sum to zero.
pub open spec fn frame_is_valid(frame: Seq<u8>) -> bool {
    byte_sum(frame) == 0
}

/// The sum stays within a byte.
pub proof fn lemma_byte_sum_range(data: Seq<u8>)
    ensures
        0 <= byte_sum(data) < 256,
    decreases data.len(),
{
    if data.len() > 0 {
        lemma_byte_sum_range(data.drop_last());
    }
}

/// Calculates the checksum of some data: the two's complement of the
/// wrapping sum of its bytes.
pub fn calculate(data: &[u8]) -> (checksum: u8)
    ensures
        checksum == checksum_of(data@),
{
    let mut sum: u8 = 0;
    let mut i: usize = 0;
    while i < data.len()
        invariant
            i <= data.len(),
            sum as int == byte_sum(data@.take(i as int)),
        decreases data.len() - i,
    {
        proof {
            assert(data@.take(i + 1).drop_last() =~= data@.take(i as int));
        }
        sum = sum.wrapping_add(data[i]);
        i += 1;
    }
    proof {
        assert(data@.take(i as int) =~= data@);
    }
    0u8.wrapping_sub(sum)
}

/// Calculates the checksum of a frame, ignoring the checksum it
/// currently ends with: every byte but the last one is summed.
pub fn calculate_for_frame(frame: &[u8]) -> (checksum: u8)
    requires
        frame@.len() > 0,
    ensures
        checksum == checksum_of(frame@.drop_last()),
{
    let payload = vstd::slice::slice_subrange(frame, 0, frame.len() - 1);
    calculate(payload)
}

/// Returns `data` followed by `checksum`.
pub fn append(data: &[u8], checksum: u8) -> (frame: Vec<u8>)
    ensures
        frame@ == data@.push(checksum),
{
    let mut frame = vstd::slice::slice_to_vec(data);
    frame.push(checksum);
    frame
}

/// Verifies a frame with its checksum: since the checksum is the
/// complement of the sum, the checksum of a whole valid frame is zero.
pub fn verify(frame: &[u8]) -> (valid: bool)
    ensures
        valid == frame_is_valid(frame@),
{
    proof {
        lemma_byte_sum_range(frame@);
    }
    calculate(frame) == 0
}

/// The checksum of no data is zero, and the checksum of a single byte
/// is its two's complement.
pub proof fn lemma_checksum_of_short_data(b: u8)
    ensures
        checksum_of(Seq::<u8>::empty()) == 0,
        checksum_of(seq![b]) as int == (256 - b as int) % 256,
{
    let one = seq![b];
    assert(one.drop_last() =~= Seq::<u8>::empty());
}

/// A payload followed by a byte is a valid frame exactly when that byte
/// is the payload's checksum: the right byte is accepted and every
/// other byte in the last place is refused.
pub proof fn lemma_valid_iff_checksum(payload: Seq<u8>, last: u8)
    ensures
        frame_is_valid(payload.push(last)) <==> last == checksum_of(payload),
{
    lemma_byte_sum_range(payload);
    assert(payload.push(last).drop_last() =~= payload);
}

/// Appending to a payload the checksum calculated for the frame, whatever
/// byte stood in the checksum's place before, gives a valid frame.
pub proof fn lemma_checksum_round_trip(payload: Seq<u8>, stale: u8)
    ensures
        frame_is_valid(payload.push(checksum_of(payload.push(stale).drop_last()))),
{
    assert(payload.push(stale).drop_last() =~= payload);
    lemma_valid_iff_checksum(payload, checksum_of(payload));
}

} // verus!
