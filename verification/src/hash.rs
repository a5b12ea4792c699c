//! The output checks of the generic hashing API of `libavutil/hash.h`.

use vstd::prelude::*;

verus! {

/// The width of an output buffer as the `int` the finalizers take, or
/// `AVERROR(EINVAL)` (-22) when it does not fit.
pub fn output_size(len: usize) -> (result: Result<i32, i32>)
    ensures
        len <= i32::MAX ==> result == Ok::<i32, i32>(len as i32),
        len > i32::MAX ==> result == Err::<i32, i32>(-22i32),
{
    if len > 0x7fff_ffffusize {
        Err(-22)
    } else {
        Ok(len as i32)
    }
}

/// The check before `av_hash_final`, which writes the algorithm's full
/// digest and takes no width: the output must hold `digest_size` bytes, and
/// then that many are written.
pub fn check_full_digest_output(len: usize, digest_size: usize) -> (result: Result<usize, i32>)
    ensures
        len < digest_size ==> result == Err::<usize, i32>(-22i32),
        len >= digest_size ==> result == Ok::<usize, i32>(digest_size),
{
    if len < digest_size {
        Err(-22)
    } else {
        Ok(digest_size)
    }
}

/// The check before `av_hash_final_b64`: the width must fit an `int` and be
/// positive, since C terminates a short output at `size - 1`.
pub fn check_b64_output(len: usize) -> (result: Result<i32, i32>)
    ensures
        len == 0 || len > i32::MAX ==> result == Err::<i32, i32>(-22i32),
        0 < len <= i32::MAX ==> result == Ok::<i32, i32>(len as i32),
{
    let size = output_size(len)?;
    if size == 0 {
        Err(-22)
    } else {
        Ok(size)
    }
}

} // verus!
