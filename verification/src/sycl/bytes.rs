//! The in-memory bytes of plain values, as a kernel receives them.

use vstd::prelude::*;

verus! {

/// What `u16::to_ne_bytes` gives for `x`.
pub uninterp spec fn ne_bytes_u16(x: u16) -> Seq<u8>;

/// What `u32::to_ne_bytes` gives for `x`.
pub uninterp spec fn ne_bytes_u32(x: u32) -> Seq<u8>;

/// What `u64::to_ne_bytes` gives for `x`.
pub uninterp spec fn ne_bytes_u64(x: u64) -> Seq<u8>;

/// What `u128::to_ne_bytes` gives for `x`.
pub uninterp spec fn ne_bytes_u128(x: u128) -> Seq<u8>;

/// What `usize::to_ne_bytes` gives for `x`.
pub uninterp spec fn ne_bytes_usize(x: usize) -> Seq<u8>;

/// Calls `u16::to_ne_bytes`: the two bytes of `x` in the machine's order.
#[verifier::external_body]
pub(crate) fn u16_ne_bytes(x: u16) -> (b: Vec<u8>)
    ensures
        b@ == ne_bytes_u16(x),
        b@.len() == 2,
{
    x.to_ne_bytes().to_vec()
}

/// Calls `u32::to_ne_bytes`: the four bytes of `x` in the machine's order.
#[verifier::external_body]
pub(crate) fn u32_ne_bytes(x: u32) -> (b: Vec<u8>)
    ensures
        b@ == ne_bytes_u32(x),
        b@.len() == 4,
{
    x.to_ne_bytes().to_vec()
}

/// Calls `u64::to_ne_bytes`: the eight bytes of `x` in the machine's order.
#[verifier::external_body]
pub(crate) fn u64_ne_bytes(x: u64) -> (b: Vec<u8>)
    ensures
        b@ == ne_bytes_u64(x),
        b@.len() == 8,
{
    x.to_ne_bytes().to_vec()
}

/// Calls `u128::to_ne_bytes`: the sixteen bytes of `x` in the machine's order.
#[verifier::external_body]
pub(crate) fn u128_ne_bytes(x: u128) -> (b: Vec<u8>)
    ensures
        b@ == ne_bytes_u128(x),
        b@.len() == 16,
{
    x.to_ne_bytes().to_vec()
}

/// Calls `usize::to_ne_bytes`: the bytes of `x` in the machine's order, as
/// many as a `usize` takes. Zero is all zero bytes in either order.
#[verifier::external_body]
pub(crate) fn usize_ne_bytes(x: usize) -> (b: Vec<u8>)
    ensures
        b@ == ne_bytes_usize(x),
        b@.len() == vstd::layout::size_of::<usize>(),
        x == 0 ==> forall|i: int| 0 <= i < b@.len() ==> #[trigger] b@[i] == 0u8,
{
    x.to_ne_bytes().to_vec()
}

} // verus!
