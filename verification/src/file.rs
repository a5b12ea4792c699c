//! The release strategy of file mappings from `libavutil/file.h`.

use vstd::prelude::*;

verus! {

/// The release strategy for a byte mapping produced by `av_file_map`: the
/// exact base and size it reported go back to `av_file_unmap`.
pub struct AvFileUnmap;

/// The outcome of `av_file_map` from its status and whether it produced a
/// mapping: a negative status is its error; success without a mapping is an
/// empty file.
pub fn file_map_outcome(status: i32, mapped: bool) -> (result: Result<bool, i32>)
    ensures
        status < 0 ==> result == Err::<bool, i32>(status),
        status >= 0 ==> result == Ok::<bool, i32>(mapped),
{
    if status < 0 {
        Err(status)
    } else {
        Ok(mapped)
    }
}

} // verus!
