//! Byte sizes of typed allocations and copies.

use vstd::prelude::*;

use super::result::{ur_result_t, UnifiedRuntimeError};

verus! {

/// The error that refuses a size or a pair of lengths.
pub open spec fn invalid_size() -> UnifiedRuntimeError {
    UnifiedRuntimeError(ur_result_t::UR_RESULT_ERROR_INVALID_SIZE)
}

/// The number of bytes that `len` elements of `T` take, or
/// `UR_RESULT_ERROR_INVALID_SIZE` when that number does not fit in `usize`.
pub fn usm_size<T>(len: usize) -> (r: Result<usize, UnifiedRuntimeError>)
    ensures
        len * vstd::layout::size_of::<T>() <= usize::MAX <==> r is Ok,
        r matches Ok(n) ==> n == len * vstd::layout::size_of::<T>(),
        r matches Err(e) ==> e == invalid_size(),
{
    match len.checked_mul(core::mem::size_of::<T>()) {
        Some(n) => Ok(n),
        None => Err(UnifiedRuntimeError(ur_result_t::UR_RESULT_ERROR_INVALID_SIZE)),
    }
}

/// The number of bytes to copy from `src_len` elements of `T` into
/// `dst_len` elements: refused with `UR_RESULT_ERROR_INVALID_SIZE` when the
/// lengths differ or the size does not fit in `usize`.
pub fn copy_size<T>(src_len: usize, dst_len: usize) -> (r: Result<usize, UnifiedRuntimeError>)
    ensures
        (src_len == dst_len && src_len * vstd::layout::size_of::<T>() <= usize::MAX) <==> r is Ok,
        r matches Ok(n) ==> n == src_len * vstd::layout::size_of::<T>(),
        r matches Err(e) ==> e == invalid_size(),
{
    if src_len != dst_len {
        return Err(UnifiedRuntimeError(ur_result_t::UR_RESULT_ERROR_INVALID_SIZE));
    }
    usm_size::<T>(src_len)
}

} // verus!
