//! Owned SYCL values and the checks made before each shim call: sizes of
//! allocations and copies, kernel names and kernel arguments.

use vstd::prelude::*;
use vstd::string::StringExecFns;
use vstd::string::StringSliceAdditionalSpecFns;

use std::marker::PhantomData;
use std::sync::Arc;

use super::bytes::{
    ne_bytes_u128, ne_bytes_u16, ne_bytes_u32, ne_bytes_u64, ne_bytes_usize, u128_ne_bytes,
    u16_ne_bytes, u32_ne_bytes, u64_ne_bytes, usize_ne_bytes,
};
use super::result::{sycl_rs_result_t, SyclError};
use crate::text::{c_string_text, utf8_lossy};

verus! {

/// Plain values that can be copied to a device and passed to a kernel.
pub trait DeviceCopy: Copy {
    /// The bytes of the value as a kernel receives them.
    spec fn spec_device_bytes(&self) -> Seq<u8>;

    /// The number of bytes of a value: `size_of::<Self>()` for each
    /// primitive, and for an array its length times the element's, the size
    /// Rust gives an array.
    spec fn spec_size() -> nat;

    /// The bytes of the value as a kernel receives them, as many as the
    /// value takes.
    fn device_bytes(&self) -> (b: Vec<u8>)
        ensures
            b@ == self.spec_device_bytes(),
            b@.len() == Self::spec_size(),
    ;
}

/// Device-copyable types for which the all-zero byte pattern is a valid value.
pub trait ValidAsZeroBits: DeviceCopy {}

/// Read-only access to a typed device pointer, given as its address.
pub trait DevicePtr<T> {
    /// The address of the device memory.
    spec fn spec_device_ptr(&self) -> usize;

    fn device_ptr(&self) -> (p: usize)
        ensures
            p == self.spec_device_ptr(),
    ;
}

/// Mutable access to a typed device pointer, given as its address.
pub trait DevicePtrMut<T>: DevicePtr<T> {
    fn device_ptr_mut(&mut self) -> (p: usize)
        ensures
            p == old(self).spec_device_ptr(),
            final(self).spec_device_ptr() == old(self).spec_device_ptr(),
    ;
}

impl DeviceCopy for bool {
    open spec fn spec_size() -> nat {
        vstd::layout::size_of::<bool>()
    }

    open spec fn spec_device_bytes(&self) -> Seq<u8> {
        seq![if *self { 1u8 } else { 0u8 }]
    }

    fn device_bytes(&self) -> (b: Vec<u8>) {
        let v: Vec<u8> = vec![if *self { 1u8 } else { 0u8 }];
        assert(v@ =~= self.spec_device_bytes());
        v
    }
}

impl DeviceCopy for u8 {
    open spec fn spec_size() -> nat {
        vstd::layout::size_of::<u8>()
    }

    open spec fn spec_device_bytes(&self) -> Seq<u8> {
        seq![*self]
    }

    fn device_bytes(&self) -> (b: Vec<u8>) {
        let v: Vec<u8> = vec![*self];
        assert(v@ =~= self.spec_device_bytes());
        v
    }
}

impl DeviceCopy for i8 {
    open spec fn spec_size() -> nat {
        vstd::layout::size_of::<i8>()
    }

    open spec fn spec_device_bytes(&self) -> Seq<u8> {
        seq![*self as u8]
    }

    fn device_bytes(&self) -> (b: Vec<u8>) {
        let v: Vec<u8> = vec![*self as u8];
        assert(v@ =~= self.spec_device_bytes());
        v
    }
}

impl DeviceCopy for u16 {
    open spec fn spec_size() -> nat {
        vstd::layout::size_of::<u16>()
    }

    open spec fn spec_device_bytes(&self) -> Seq<u8> {
        ne_bytes_u16(*self)
    }

    fn device_bytes(&self) -> (b: Vec<u8>) {
        u16_ne_bytes(*self)
    }
}

impl DeviceCopy for i16 {
    open spec fn spec_size() -> nat {
        vstd::layout::size_of::<i16>()
    }

    open spec fn spec_device_bytes(&self) -> Seq<u8> {
        ne_bytes_u16(*self as u16)
    }

    fn device_bytes(&self) -> (b: Vec<u8>) {
        u16_ne_bytes(*self as u16)
    }
}

impl DeviceCopy for u32 {
    open spec fn spec_size() -> nat {
        vstd::layout::size_of::<u32>()
    }

    open spec fn spec_device_bytes(&self) -> Seq<u8> {
        ne_bytes_u32(*self)
    }

    fn device_bytes(&self) -> (b: Vec<u8>) {
        u32_ne_bytes(*self)
    }
}

impl DeviceCopy for i32 {
    open spec fn spec_size() -> nat {
        vstd::layout::size_of::<i32>()
    }

    open spec fn spec_device_bytes(&self) -> Seq<u8> {
        ne_bytes_u32(*self as u32)
    }

    fn device_bytes(&self) -> (b: Vec<u8>) {
        u32_ne_bytes(*self as u32)
    }
}

impl DeviceCopy for u64 {
    open spec fn spec_size() -> nat {
        vstd::layout::size_of::<u64>()
    }

    open spec fn spec_device_bytes(&self) -> Seq<u8> {
        ne_bytes_u64(*self)
    }

    fn device_bytes(&self) -> (b: Vec<u8>) {
        u64_ne_bytes(*self)
    }
}

impl DeviceCopy for i64 {
    open spec fn spec_size() -> nat {
        vstd::layout::size_of::<i64>()
    }

    open spec fn spec_device_bytes(&self) -> Seq<u8> {
        ne_bytes_u64(*self as u64)
    }

    fn device_bytes(&self) -> (b: Vec<u8>) {
        u64_ne_bytes(*self as u64)
    }
}

impl DeviceCopy for u128 {
    open spec fn spec_size() -> nat {
        vstd::layout::size_of::<u128>()
    }

    open spec fn spec_device_bytes(&self) -> Seq<u8> {
        ne_bytes_u128(*self)
    }

    fn device_bytes(&self) -> (b: Vec<u8>) {
        u128_ne_bytes(*self)
    }
}

impl DeviceCopy for i128 {
    open spec fn spec_size() -> nat {
        vstd::layout::size_of::<i128>()
    }

    open spec fn spec_device_bytes(&self) -> Seq<u8> {
        ne_bytes_u128(*self as u128)
    }

    fn device_bytes(&self) -> (b: Vec<u8>) {
        u128_ne_bytes(*self as u128)
    }
}

impl DeviceCopy for usize {
    open spec fn spec_size() -> nat {
        vstd::layout::size_of::<usize>()
    }

    open spec fn spec_device_bytes(&self) -> Seq<u8> {
        ne_bytes_usize(*self)
    }

    fn device_bytes(&self) -> (b: Vec<u8>) {
        usize_ne_bytes(*self)
    }
}

impl DeviceCopy for isize {
    open spec fn spec_size() -> nat {
        vstd::layout::size_of::<isize>()
    }

    open spec fn spec_device_bytes(&self) -> Seq<u8> {
        ne_bytes_usize(*self as usize)
    }

    fn device_bytes(&self) -> (b: Vec<u8>) {
        usize_ne_bytes(*self as usize)
    }
}

impl<T: DeviceCopy, const N: usize> DeviceCopy for [T; N] {
    open spec fn spec_size() -> nat {
        (N as nat) * T::spec_size()
    }

    open spec fn spec_device_bytes(&self) -> Seq<u8> {
        self@.map_values(|x: T| x.spec_device_bytes()).flatten()
    }

    fn device_bytes(&self) -> (b: Vec<u8>) {
        let mut out: Vec<u8> = Vec::new();
        for i in 0..N
            invariant
                self@.len() == N,
                out@ == self@.take(i as int).map_values(|x: T| x.spec_device_bytes()).flatten(),
                out@.len() == i * T::spec_size(),
        {
            let mut part = self[i].device_bytes();
            proof {
                assert((i + 1) * T::spec_size() == i * T::spec_size() + T::spec_size()) by (nonlinear_arith);
                let pieces = self@.take(i as int).map_values(|x: T| x.spec_device_bytes());
                pieces.lemma_flatten_push(self@[i as int].spec_device_bytes());
                assert(self@.take(i + 1).map_values(|x: T| x.spec_device_bytes()) =~= pieces.push(
                    self@[i as int].spec_device_bytes(),
                ));
            }
            out.append(&mut part);
        }
        assert(self@.take(N as int) =~= self@);
        out
    }
}

/// The bytes a scalar reaches a kernel as are its in-memory bytes: a `bool`
/// is one byte, 0 for `false` and 1 for `true`, so the two values differ;
/// a `u8` is itself; an `i8` is its two's-complement byte; and each wider
/// signed integer is the bytes of the unsigned integer of the same width
/// and bit pattern.
pub proof fn lemma_scalar_bytes(b: bool, x: u8, y: i8, a: i16, c: i32, d: i64, e: i128, f: isize)
    ensures
        b.spec_device_bytes() == seq![if b { 1u8 } else { 0u8 }],
        false.spec_device_bytes() == seq![0u8],
        true.spec_device_bytes() == seq![1u8],
        false.spec_device_bytes() != true.spec_device_bytes(),
        b.spec_device_bytes() == (if b { 1u8 } else { 0u8 }).spec_device_bytes(),
        x.spec_device_bytes() == seq![x],
        y.spec_device_bytes() == seq![y as u8],
        a.spec_device_bytes() == (a as u16).spec_device_bytes(),
        c.spec_device_bytes() == (c as u32).spec_device_bytes(),
        d.spec_device_bytes() == (d as u64).spec_device_bytes(),
        e.spec_device_bytes() == (e as u128).spec_device_bytes(),
        f.spec_device_bytes() == (f as usize).spec_device_bytes(),
{
    assert(false.spec_device_bytes()[0] != true.spec_device_bytes()[0]);
}

impl ValidAsZeroBits for bool {}
impl ValidAsZeroBits for i8 {}
impl ValidAsZeroBits for i16 {}
impl ValidAsZeroBits for i32 {}
impl ValidAsZeroBits for i64 {}
impl ValidAsZeroBits for i128 {}
impl ValidAsZeroBits for isize {}
impl ValidAsZeroBits for u8 {}
impl ValidAsZeroBits for u16 {}
impl ValidAsZeroBits for u32 {}
impl ValidAsZeroBits for u64 {}
impl ValidAsZeroBits for u128 {}
impl ValidAsZeroBits for usize {}
impl<T: ValidAsZeroBits, const N: usize> ValidAsZeroBits for [T; N] {}

/// An error with code `SYCL_RS_RESULT_INVALID_ARGUMENT` and `message`.
pub fn invalid_argument(message: &str) -> (e: SyclError)
    ensures
        e.code == sycl_rs_result_t::SYCL_RS_RESULT_INVALID_ARGUMENT,
        e.message@ == message@,
{
    SyclError { code: sycl_rs_result_t::SYCL_RS_RESULT_INVALID_ARGUMENT, message: String::from_str(message) }
}

/// Whether `e` is the error that refuses mismatched or oversized lengths.
pub open spec fn is_length_mismatch(e: SyclError) -> bool {
    e.code == sycl_rs_result_t::SYCL_RS_RESULT_INVALID_ARGUMENT && e.message@ == "buffer length mismatch"@
}

/// The error that refuses mismatched or oversized lengths.
pub fn length_mismatch() -> (e: SyclError)
    ensures
        is_length_mismatch(e),
{
    invalid_argument("buffer length mismatch")
}

/// The number of bytes that `len` elements of `T` take, refused as a
/// length mismatch when that number does not fit in `usize`.
pub fn bytes_for_len<T>(len: usize) -> (r: Result<usize, SyclError>)
    ensures
        len * vstd::layout::size_of::<T>() <= usize::MAX <==> r is Ok,
        r matches Ok(n) ==> n == len * vstd::layout::size_of::<T>(),
        r matches Err(e) ==> is_length_mismatch(e),
{
    match len.checked_mul(core::mem::size_of::<T>()) {
        Some(n) => Ok(n),
        None => Err(length_mismatch()),
    }
}

/// The number of bytes a copy of `src_len` elements of `T` into `dst_len`
/// elements moves; lengths that differ, or a size that does not fit in
/// `usize`, are refused as a length mismatch.
pub fn memcpy_size<T>(src_len: usize, dst_len: usize) -> (r: Result<usize, SyclError>)
    ensures
        (src_len == dst_len && src_len * vstd::layout::size_of::<T>() <= usize::MAX) <==> r is Ok,
        r matches Ok(n) ==> n == src_len * vstd::layout::size_of::<T>(),
        r matches Err(e) ==> is_length_mismatch(e),
{
    if src_len != dst_len {
        return Err(length_mismatch());
    }
    bytes_for_len::<T>(src_len)
}

/// The kind of unified shared memory an allocation lives in.
#[derive(Clone, Copy, Debug, PartialEq, Eq, Structural)]
pub enum sycl_rs_alloc_kind_t {
    SYCL_RS_ALLOC_KIND_DEVICE,
    SYCL_RS_ALLOC_KIND_SHARED,
    SYCL_RS_ALLOC_KIND_HOST,
}

/// A SYCL device.
#[derive(Debug)]
pub struct SyclDevice {
    handle: u64,
}

impl SyclDevice {
    /// The device with shim handle `handle`.
    pub fn from_handle(handle: u64) -> (d: SyclDevice)
        ensures
            d.handle() == handle,
    {
        SyclDevice { handle }
    }

    /// The shim handle of the device.
    #[verifier::when_used_as_spec(spec_handle)]
    pub fn handle(&self) -> (h: u64)
        ensures
            h == self.spec_handle(),
    {
        self.handle
    }

    pub closed spec fn spec_handle(&self) -> u64 {
        self.handle
    }
}

/// A SYCL event.
#[derive(Debug)]
pub struct SyclEvent {
    handle: u64,
}

impl SyclEvent {
    /// The event with shim handle `handle`.
    pub fn from_handle(handle: u64) -> (e: SyclEvent)
        ensures
            e.handle() == handle,
    {
        SyclEvent { handle }
    }

    /// The shim handle of the event.
    #[verifier::when_used_as_spec(spec_handle)]
    pub fn handle(&self) -> (h: u64)
        ensures
            h == self.spec_handle(),
    {
        self.handle
    }

    pub closed spec fn spec_handle(&self) -> u64 {
        self.handle
    }
}

/// A SYCL context over one device.
#[derive(Debug)]
pub struct SyclContext {
    handle: u64,
    device: Arc<SyclDevice>,
}

impl SyclContext {
    /// The context with shim handle `handle`, created over `device`.
    pub fn from_parts(handle: u64, device: Arc<SyclDevice>) -> (c: SyclContext)
        ensures
            c.handle() == handle,
            c.device() == device,
    {
        SyclContext { handle, device }
    }

    /// The device of the context.
    #[verifier::when_used_as_spec(spec_device)]
    pub fn device(&self) -> (d: &Arc<SyclDevice>)
        ensures
            d == self.spec_device(),
    {
        &self.device
    }

    pub closed spec fn spec_device(&self) -> &Arc<SyclDevice> {
        &self.device
    }

    /// The shim handle of the context.
    #[verifier::when_used_as_spec(spec_handle)]
    pub fn handle(&self) -> (h: u64)
        ensures
            h == self.spec_handle(),
    {
        self.handle
    }

    pub closed spec fn spec_handle(&self) -> u64 {
        self.handle
    }
}

/// The size and alignment of a unified shared memory allocation.
#[derive(Clone, Copy, Debug, PartialEq, Eq, Structural)]
pub struct AllocRequest {
    pub bytes: usize,
    pub alignment: usize,
}

/// A SYCL queue in a context, on the context's device.
#[derive(Debug)]
pub struct SyclQueue {
    handle: u64,
    context: Arc<SyclContext>,
}

impl SyclQueue {
    /// The queue with shim handle `handle`, created in `context`.
    pub fn from_parts(handle: u64, context: Arc<SyclContext>) -> (q: SyclQueue)
        ensures
            q.handle() == handle,
            q.context() == context,
    {
        SyclQueue { handle, context }
    }

    /// The context of the queue.
    #[verifier::when_used_as_spec(spec_context)]
    pub fn context(&self) -> (c: &Arc<SyclContext>)
        ensures
            c == self.spec_context(),
    {
        &self.context
    }

    pub closed spec fn spec_context(&self) -> &Arc<SyclContext> {
        &self.context
    }

    /// The shim handle of the queue.
    #[verifier::when_used_as_spec(spec_handle)]
    pub fn handle(&self) -> (h: u64)
        ensures
            h == self.spec_handle(),
    {
        self.handle
    }

    pub closed spec fn spec_handle(&self) -> u64 {
        self.handle
    }

    /// What the shim is asked to allocate for `len` elements of `T`: nothing
    /// for an empty allocation, which keeps a null pointer; otherwise the
    /// byte size and the alignment of `T`. A size that does not fit in
    /// `usize` is refused as a length mismatch.
    pub fn alloc_request<T>(len: usize) -> (r: Result<Option<AllocRequest>, SyclError>)
        ensures
            len == 0 ==> r == Ok::<Option<AllocRequest>, SyclError>(None),
            len > 0 ==> (len * vstd::layout::size_of::<T>() <= usize::MAX <==> r is Ok),
            len > 0 && r is Ok ==> r == Ok::<Option<AllocRequest>, SyclError>(
                Some(
                    AllocRequest {
                        bytes: (len * vstd::layout::size_of::<T>()) as usize,
                        alignment: vstd::layout::align_of::<T>() as usize,
                    },
                ),
            ),
            r matches Err(e) ==> is_length_mismatch(e),
    {
        if len == 0 {
            return Ok(None);
        }
        match bytes_for_len::<T>(len) {
            Ok(bytes) => Ok(Some(AllocRequest { bytes, alignment: core::mem::align_of::<T>() })),
            Err(e) => Err(e),
        }
    }

    /// A host vector of `len` copies of the default value, the destination into which a
    /// buffer of `len` elements is copied back.
    pub fn host_buffer<T: DeviceCopy + Default>(len: usize) -> (v: Vec<T>)
        ensures
            v.len() == len,
            forall|i: int| 0 <= i < len ==> #[trigger] v@[i] == v@[0],
    {
        let value = T::default();
        let mut v: Vec<T> = Vec::new();
        for i in 0..len
            invariant
                v.len() == i,
                forall|j: int| 0 <= j < i ==> #[trigger] v@[j] == value,
        {
            v.push(value);
        }
        v
    }
}

/// A unified shared memory allocation of `len` elements of `T`, owned by a
/// queue; the pointer is held as its address.
#[derive(Debug)]
pub struct SyclBuffer<T> {
    ptr: usize,
    len: usize,
    queue: Arc<SyclQueue>,
    kind: sycl_rs_alloc_kind_t,
    marker: PhantomData<T>,
}

impl<T> SyclBuffer<T> {
    /// The allocation at address `ptr` of `len` elements and kind `kind`,
    /// owned by `queue`.
    pub fn from_raw_parts(ptr: usize, len: usize, queue: Arc<SyclQueue>, kind: sycl_rs_alloc_kind_t) -> (b:
        Self)
        ensures
            b.as_mut_ptr() == ptr,
            b.len() == len,
            b.queue() == queue,
            b.allocation_kind() == kind,
    {
        SyclBuffer { ptr, len, queue, kind, marker: PhantomData }
    }

    /// The device allocation of `len` elements that the shim placed at
    /// `address` in `queue` (address 0 when nothing was allocated).
    pub fn device_allocation(address: usize, len: usize, queue: Arc<SyclQueue>) -> (b: Self)
        ensures
            b.as_mut_ptr() == address,
            b.len() == len,
            b.queue() == queue,
            b.allocation_kind() == sycl_rs_alloc_kind_t::SYCL_RS_ALLOC_KIND_DEVICE,
    {
        Self::from_raw_parts(address, len, queue, sycl_rs_alloc_kind_t::SYCL_RS_ALLOC_KIND_DEVICE)
    }

    /// The shared allocation of `len` elements that the shim placed at
    /// `address` in `queue` (address 0 when nothing was allocated).
    pub fn shared_allocation(address: usize, len: usize, queue: Arc<SyclQueue>) -> (b: Self)
        ensures
            b.as_mut_ptr() == address,
            b.len() == len,
            b.queue() == queue,
            b.allocation_kind() == sycl_rs_alloc_kind_t::SYCL_RS_ALLOC_KIND_SHARED,
    {
        Self::from_raw_parts(address, len, queue, sycl_rs_alloc_kind_t::SYCL_RS_ALLOC_KIND_SHARED)
    }

    /// The host allocation of `len` elements that the shim placed at
    /// `address` in `queue` (address 0 when nothing was allocated).
    pub fn host_allocation(address: usize, len: usize, queue: Arc<SyclQueue>) -> (b: Self)
        ensures
            b.as_mut_ptr() == address,
            b.len() == len,
            b.queue() == queue,
            b.allocation_kind() == sycl_rs_alloc_kind_t::SYCL_RS_ALLOC_KIND_HOST,
    {
        Self::from_raw_parts(address, len, queue, sycl_rs_alloc_kind_t::SYCL_RS_ALLOC_KIND_HOST)
    }

    /// The number of elements in the buffer.
    #[verifier::when_used_as_spec(spec_len)]
    pub fn len(&self) -> (n: usize)
        ensures
            n == self.spec_len(),
    {
        self.len
    }

    pub closed spec fn spec_len(&self) -> usize {
        self.len
    }

    /// Whether the buffer holds no element.
    pub fn is_empty(&self) -> (b: bool)
        ensures
            b <==> self.len() == 0,
    {
        self.len == 0
    }

    /// The address of the buffer.
    #[verifier::when_used_as_spec(spec_as_mut_ptr)]
    pub fn as_mut_ptr(&self) -> (p: usize)
        ensures
            p == self.spec_as_mut_ptr(),
    {
        self.ptr
    }

    pub closed spec fn spec_as_mut_ptr(&self) -> usize {
        self.ptr
    }

    /// The queue that owns the buffer.
    #[verifier::when_used_as_spec(spec_queue)]
    pub fn queue(&self) -> (q: &Arc<SyclQueue>)
        ensures
            q == self.spec_queue(),
    {
        &self.queue
    }

    pub closed spec fn spec_queue(&self) -> &Arc<SyclQueue> {
        &self.queue
    }

    /// The kind of memory the buffer lives in.
    #[verifier::when_used_as_spec(spec_allocation_kind)]
    pub fn allocation_kind(&self) -> (k: sycl_rs_alloc_kind_t)
        ensures
            k == self.spec_allocation_kind(),
    {
        self.kind
    }

    pub closed spec fn spec_allocation_kind(&self) -> sycl_rs_alloc_kind_t {
        self.kind
    }
}

impl<T> DevicePtr<T> for SyclBuffer<T> {
    open spec fn spec_device_ptr(&self) -> usize {
        self.as_mut_ptr()
    }

    fn device_ptr(&self) -> (p: usize) {
        self.ptr
    }
}

impl<T> DevicePtrMut<T> for SyclBuffer<T> {
    fn device_ptr_mut(&mut self) -> (p: usize)
        ensures
            *final(self) == *old(self),
    {
        self.ptr
    }
}

/// A program built from SYCL source in a context.
#[derive(Debug)]
pub struct SyclProgram {
    handle: u64,
    context: Arc<SyclContext>,
}

impl SyclProgram {
    /// The program with shim handle `handle`, built in `context`.
    pub fn from_parts(handle: u64, context: Arc<SyclContext>) -> (p: SyclProgram)
        ensures
            p.handle() == handle,
            p.context() == context,
    {
        SyclProgram { handle, context }
    }

    /// The context of the program.
    #[verifier::when_used_as_spec(spec_context)]
    pub fn context(&self) -> (c: &Arc<SyclContext>)
        ensures
            c == self.spec_context(),
    {
        &self.context
    }

    pub closed spec fn spec_context(&self) -> &Arc<SyclContext> {
        &self.context
    }

    /// The shim handle of the program.
    #[verifier::when_used_as_spec(spec_handle)]
    pub fn handle(&self) -> (h: u64)
        ensures
            h == self.spec_handle(),
    {
        self.handle
    }

    pub closed spec fn spec_handle(&self) -> u64 {
        self.handle
    }

    /// The text of the build log the shim kept: empty when it has none,
    /// otherwise its bytes decoded lossily.
    pub fn build_log_text(log: Option<&[u8]>) -> (s: String)
        ensures
            log is None ==> s@.len() == 0,
            log matches Some(bytes) ==> s@ == utf8_lossy(bytes@),
    {
        c_string_text(log)
    }

    /// The NUL-terminated kernel name handed to the shim, or an invalid
    /// argument error when the name itself holds a NUL character.
    pub fn kernel_name(name: &str) -> (r: Result<Vec<u8>, SyclError>)
        ensures
            name.spec_bytes().contains(0u8) <==> r is Err,
            r matches Ok(bytes) ==> bytes@ == name.spec_bytes().push(0u8),
            r matches Err(e) ==> e.code == sycl_rs_result_t::SYCL_RS_RESULT_INVALID_ARGUMENT
                && e.message@ == "kernel name contains interior NUL"@,
    {
        let bytes = name.as_bytes();
        let mut out: Vec<u8> = Vec::new();
        for i in 0..bytes.len()
            invariant
                bytes@ == name.spec_bytes(),
                out@ == bytes@.take(i as int),
                !bytes@.take(i as int).contains(0u8),
        {
            if bytes[i] == 0 {
                assert(bytes@.contains(0u8)) by {
                    assert(bytes@[i as int] == 0u8);
                }
                return Err(invalid_argument("kernel name contains interior NUL"));
            }
            out.push(bytes[i]);
            assert(bytes@.take(i as int).push(bytes@[i as int]) =~= bytes@.take(i + 1));
        }
        assert(bytes@.take(bytes@.len() as int) =~= bytes@);
        out.push(0u8);
        Ok(out)
    }
}

/// A kernel taken by name from a program.
#[derive(Debug)]
pub struct SyclKernel {
    handle: u64,
    program: Arc<SyclProgram>,
}

impl SyclKernel {
    /// The kernel with shim handle `handle`, taken from `program`.
    pub fn from_parts(handle: u64, program: Arc<SyclProgram>) -> (k: SyclKernel)
        ensures
            k.handle() == handle,
            k.program() == program,
    {
        SyclKernel { handle, program }
    }

    /// The program the kernel comes from.
    #[verifier::when_used_as_spec(spec_program)]
    pub fn program(&self) -> (p: &Arc<SyclProgram>)
        ensures
            p == self.spec_program(),
    {
        &self.program
    }

    pub closed spec fn spec_program(&self) -> &Arc<SyclProgram> {
        &self.program
    }

    /// The shim handle of the kernel.
    #[verifier::when_used_as_spec(spec_handle)]
    pub fn handle(&self) -> (h: u64)
        ensures
            h == self.spec_handle(),
    {
        self.handle
    }

    pub closed spec fn spec_handle(&self) -> u64 {
        self.handle
    }
}

/// One kernel argument: the bytes the kernel receives for it.
#[derive(Clone, Debug, PartialEq, Eq)]
pub struct SyclKernelArg {
    bytes: Vec<u8>,
}

impl View for SyclKernelArg {
    type V = Seq<u8>;

    closed spec fn view(&self) -> Seq<u8> {
        self.bytes@
    }
}

impl SyclKernelArg {
    /// An argument passed by value: the bytes of `value`.
    pub fn scalar<T: DeviceCopy>(value: &T) -> (arg: Self)
        ensures
            arg@ == value.spec_device_bytes(),
            arg@.len() == T::spec_size(),
    {
        SyclKernelArg { bytes: value.device_bytes() }
    }

    /// An argument that is a pointer to constant memory at `address`.
    pub fn ptr(address: usize) -> (arg: Self)
        ensures
            arg@ == ne_bytes_usize(address),
            arg@.len() == vstd::layout::size_of::<usize>(),
            address == 0 ==> forall|i: int| 0 <= i < arg@.len() ==> #[trigger] arg@[i] == 0u8,
    {
        SyclKernelArg { bytes: usize_ne_bytes(address) }
    }

    /// An argument that is a pointer to mutable memory at `address`.
    pub fn ptr_mut(address: usize) -> (arg: Self)
        ensures
            arg@ == ne_bytes_usize(address),
            arg@.len() == vstd::layout::size_of::<usize>(),
            address == 0 ==> forall|i: int| 0 <= i < arg@.len() ==> #[trigger] arg@[i] == 0u8,
    {
        SyclKernelArg { bytes: usize_ne_bytes(address) }
    }

    /// An argument that points to the device memory of `value`.
    pub fn device_ptr<T, P: DevicePtr<T>>(value: &P) -> (arg: Self)
        ensures
            arg@ == ne_bytes_usize(value.spec_device_ptr()),
            arg@.len() == vstd::layout::size_of::<usize>(),
            value.spec_device_ptr() == 0 ==> forall|i: int| 0 <= i < arg@.len() ==> #[trigger] arg@[i] == 0u8,
    {
        Self::ptr(value.device_ptr())
    }

    /// An argument that points, mutably, to the device memory of `value`.
    pub fn device_ptr_mut<T, P: DevicePtrMut<T>>(value: &mut P) -> (arg: Self)
        ensures
            arg@ == ne_bytes_usize(old(value).spec_device_ptr()),
            arg@.len() == vstd::layout::size_of::<usize>(),
            old(value).spec_device_ptr() == 0 ==> forall|i: int| 0 <= i < arg@.len() ==> #[trigger] arg@[i] == 0u8,
            final(value).spec_device_ptr() == old(value).spec_device_ptr(),
    {
        Self::ptr_mut(value.device_ptr_mut())
    }

    /// An argument that points to the memory of `buffer`.
    pub fn buffer<T>(buffer: &SyclBuffer<T>) -> (arg: Self)
        ensures
            arg@ == ne_bytes_usize(buffer.as_mut_ptr()),
            arg@.len() == vstd::layout::size_of::<usize>(),
            buffer.as_mut_ptr() == 0 ==> forall|i: int| 0 <= i < arg@.len() ==> #[trigger] arg@[i] == 0u8,
    {
        Self::device_ptr::<T, SyclBuffer<T>>(buffer)
    }

    /// An argument that points, mutably, to the memory of `buffer`.
    pub fn buffer_mut<T>(buffer: &mut SyclBuffer<T>) -> (arg: Self)
        ensures
            arg@ == ne_bytes_usize(old(buffer).as_mut_ptr()),
            arg@.len() == vstd::layout::size_of::<usize>(),
            old(buffer).as_mut_ptr() == 0 ==> forall|i: int| 0 <= i < arg@.len() ==> #[trigger] arg@[i] == 0u8,
            *final(buffer) == *old(buffer),
    {
        Self::ptr_mut(buffer.device_ptr_mut())
    }

    /// The bytes handed to the shim for this argument.
    pub fn bytes(&self) -> (b: &[u8])
        ensures
            b@ == self@,
    {
        self.bytes.as_slice()
    }
}

} // verus!
