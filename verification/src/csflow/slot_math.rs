use vstd::prelude::*;

verus! {

/// The batch count as the validator stamps it into a slot: its low 32 bits, as an `i32`.
pub(crate) fn count_stamp(last_count: usize) -> (r: i32)
    ensures
        r == last_count as i32,
{
    last_count as i32
}

/// The batch count after one more batch: it wraps around at `usize::MAX`.
pub open spec fn next_count(last_count: usize) -> usize {
    if last_count == usize::MAX { 0 } else { (last_count + 1) as usize }
}

/// Consecutive batch counts never share their stamp.
pub proof fn lemma_next_count_stamp_differs(last_count: usize)
    ensures
        next_count(last_count) as i32 != last_count as i32,
{
    let y = last_count as u64;
    assert(y as int == last_count as int);
    if last_count == usize::MAX {
        assert(y == 0xffff_ffffu64 || y == 0xffff_ffff_ffff_ffffu64);
        assert(y == 0xffff_ffffu64 || y == 0xffff_ffff_ffff_ffffu64 ==> y as i32 == -1i32) by (bit_vector);
        assert(0u64 as i32 == 0i32) by (bit_vector);
    } else {
        assert(y < 0xffff_ffff_ffff_ffffu64);
        assert(y < 0xffff_ffff_ffff_ffffu64 ==> ((y + 1) as u64) as i32 != y as i32) by (bit_vector);
        assert(((y + 1) as u64) as int == (last_count + 1) as int);
    }
}

} // verus!
