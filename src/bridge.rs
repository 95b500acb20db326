use vstd::prelude::*;

use crate::types::Format;

verus! {

/// Bytes in a callback buffer of `num_frames` frames, or `None` when a count is
/// negative or the size does not fit in memory.
pub open spec fn callback_bytes(num_frames: i32, channel_count: i32, format: Format) -> Option<
    usize,
> {
    let n = num_frames as int * channel_count as int * format.spec_sample_size() as int;
    if num_frames < 0 || channel_count < 0 || n > usize::MAX {
        None
    } else {
        Some(n as usize)
    }
}

/// The length of the byte view that a data callback gets: frames times
/// channels times the size of one sample.
pub fn callback_buffer_len(num_frames: i32, channel_count: i32, format: Format) -> (r: Option<
    usize,
>)
    ensures
        r == callback_bytes(num_frames, channel_count, format),
{
    if num_frames < 0 || channel_count < 0 {
        return None;
    }
    let size = format.sample_size();
    proof {
        assert(0 <= num_frames as int * channel_count as int <= 0x7fff_ffff * 0x7fff_ffff)
            by (nonlinear_arith)
            requires
                0 <= num_frames <= 0x7fff_ffff,
                0 <= channel_count <= 0x7fff_ffff,
        ;
        assert(0 <= num_frames as int * channel_count as int * size as int <= 0x7fff_ffff
            * 0x7fff_ffff * 4) by (nonlinear_arith)
            requires
                0 <= num_frames as int * channel_count as int <= 0x7fff_ffff * 0x7fff_ffff,
                0 <= size <= 4,
        ;
    }
    let n: u128 = (num_frames as u128) * (channel_count as u128) * (size as u128);
    if n > usize::MAX as u128 {
        None
    } else {
        Some(n as usize)
    }
}

} // verus!
