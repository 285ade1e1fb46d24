//! Owned values of the earlier Unified Runtime surface: contexts, queues,
//! events with their execution status, programs, kernels and allocations.

use vstd::prelude::*;
use vstd::string::StringSliceAdditionalSpecFns;

use std::marker::PhantomData;
use std::sync::Arc;

use crate::text::{text_without_trailing_nuls, trim_trailing_zeros, utf8_lossy};
use crate::unified_runtime::creation::{ContextParts, PartsView};
use crate::unified_runtime::result::{ur_result_t, UnifiedRuntimeError};
use crate::unified_runtime::safe::{queue_device, same_handles};

verus! {

/// The error type of this surface: a Unified Runtime result code.
pub type UrError = UnifiedRuntimeError;

/// Types for which the all-zero byte pattern is a valid value.
pub trait ValidAsZeroBits {}

/// Types with a stable device-compatible representation.
pub trait DeviceRepr {}

/// Read-only access to a typed device pointer, given as its address.
pub trait DevicePtr<T> {
    fn device_ptr(&self) -> usize;
}

/// Mutable access to a typed device pointer, given as its address.
pub trait DevicePtrMut<T>: DevicePtr<T> {
    fn device_ptr_mut(&mut self) -> usize;
}

impl ValidAsZeroBits for bool {}
impl ValidAsZeroBits for i8 {}
impl ValidAsZeroBits for i16 {}
impl ValidAsZeroBits for i32 {}
impl ValidAsZeroBits for i64 {}
impl ValidAsZeroBits for i128 {}
impl ValidAsZeroBits for isize {}
impl ValidAsZeroBits for u8 {}
impl ValidAsZeroBits for u16 {}
impl ValidAsZeroBits for u32 {}
impl ValidAsZeroBits for u64 {}
impl ValidAsZeroBits for u128 {}
impl ValidAsZeroBits for usize {}
impl<T: ValidAsZeroBits, const N: usize> ValidAsZeroBits for [T; N] {}

impl DeviceRepr for bool {}
impl DeviceRepr for i8 {}
impl DeviceRepr for i16 {}
impl DeviceRepr for i32 {}
impl DeviceRepr for i64 {}
impl DeviceRepr for i128 {}
impl DeviceRepr for isize {}
impl DeviceRepr for u8 {}
impl DeviceRepr for u16 {}
impl DeviceRepr for u32 {}
impl DeviceRepr for u64 {}
impl DeviceRepr for u128 {}
impl DeviceRepr for usize {}
impl<T: DeviceRepr, const N: usize> DeviceRepr for [T; N] {}

/// A Unified Runtime context over one or more devices, holding the adapter
/// references it was created with.
#[derive(Debug)]
pub struct UrContext {
    handle: u64,
    devices: Vec<u64>,
    adapters: Vec<u64>,
}

impl View for UrContext {
    type V = PartsView;

    closed spec fn view(&self) -> PartsView {
        PartsView { handle: self.handle, devices: self.devices@, adapters: self.adapters@ }
    }
}

impl UrContext {
    /// A context spans at least one device.
    #[verifier::type_invariant]
    spec fn spans_a_device(self) -> bool {
        self.devices@.len() > 0
    }

    /// The context made of the parts that a creation produced.
    pub fn from_parts(parts: ContextParts) -> (c: UrContext)
        requires
            parts@.devices.len() > 0,
        ensures
            c@ == parts@,
    {
        UrContext { handle: parts.handle, devices: parts.devices, adapters: parts.adapters }
    }

    /// The device handles associated with this context.
    pub fn devices(&self) -> (ds: &[u64])
        ensures
            ds@ == self@.devices,
            ds@.len() > 0,
    {
        proof {
            use_type_invariant(self);
        }
        self.devices.as_slice()
    }

    /// The underlying Unified Runtime context handle.
    pub fn handle(&self) -> (h: u64)
        ensures
            h == self@.handle,
    {
        self.handle
    }

    /// The adapter handles whose references this context holds.
    pub fn adapters(&self) -> (a: &[u64])
        ensures
            a@ == self@.adapters,
    {
        self.adapters.as_slice()
    }

    /// Whether two contexts have the same handle, devices and adapters.
    pub fn eq(&self, other: &UrContext) -> (b: bool)
        ensures
            b <==> self@ == other@,
    {
        self.handle == other.handle && same_handles(&self.devices, &other.devices) && same_handles(
            &self.adapters,
            &other.adapters,
        )
    }
}

/// A Unified Runtime queue tied to a context and a single device.
#[derive(Debug)]
pub struct UrQueue {
    handle: u64,
    ctx: Arc<UrContext>,
    device: u64,
}

impl UrQueue {
    /// The queue with handle `handle`, created in `ctx` on `device`.
    pub fn from_parts(handle: u64, ctx: Arc<UrContext>, device: u64) -> (q: UrQueue)
        ensures
            q.handle() == handle,
            q.context()@ == ctx@,
            q.device() == device,
    {
        UrQueue { handle, ctx, device }
    }

    /// The device on which a queue for `ctx` is created: its first device.
    /// A context always has one; [`queue_device`] refuses an empty device
    /// list with `UR_RESULT_ERROR_INVALID_DEVICE`.
    pub fn device_for(ctx: &UrContext) -> (r: Result<u64, UrError>)
        ensures
            ctx@.devices.len() > 0,
            r == Ok::<u64, UrError>(ctx@.devices[0]),
    {
        queue_device(ctx.devices())
    }

    /// The underlying Unified Runtime queue handle.
    #[verifier::when_used_as_spec(spec_handle)]
    pub fn handle(&self) -> (h: u64)
        ensures
            h == self.spec_handle(),
    {
        self.handle
    }

    pub closed spec fn spec_handle(&self) -> u64 {
        self.handle
    }

    /// The context this queue belongs to.
    #[verifier::when_used_as_spec(spec_context)]
    pub fn context(&self) -> (c: &Arc<UrContext>)
        ensures
            c == self.spec_context(),
    {
        &self.ctx
    }

    pub closed spec fn spec_context(&self) -> &Arc<UrContext> {
        &self.ctx
    }

    /// The device the queue runs on.
    #[verifier::when_used_as_spec(spec_device)]
    pub fn device(&self) -> (d: u64)
        ensures
            d == self.spec_device(),
    {
        self.device
    }

    pub closed spec fn spec_device(&self) -> u64 {
        self.device
    }

    /// Whether two queues have the same handle, context and device.
    pub fn eq(&self, other: &UrQueue) -> (b: bool)
        ensures
            b <==> (self.handle() == other.handle() && self.context()@ == other.context()@
                && self.device() == other.device()),
    {
        self.handle == other.handle && self.ctx.eq(&other.ctx) && self.device == other.device
    }

    /// A host vector of `len` copies of the default value, the destination into which
    /// an allocation of `len` elements is copied back.
    pub fn host_buffer<T: Default + Copy>(len: usize) -> (v: Vec<T>)
        ensures
            v.len() == len,
            forall|i: int| 0 <= i < len ==> #[trigger] v@[i] == v@[0],
    {
        let value = T::default();
        let mut v: Vec<T> = Vec::new();
        for i in 0..len
            invariant
                v.len() == i,
                forall|j: int| 0 <= j < i ==> #[trigger] v@[j] == value,
        {
            v.push(value);
        }
        v
    }
}

/// The execution status of an event, as polled without blocking.
#[derive(Debug, Clone, Copy, PartialEq, Eq, Structural)]
pub enum UrEventStatus {
    Complete,
    Running,
    Submitted,
    Queued,
    Error,
}

impl UrEventStatus {
    /// The raw `ur_event_status_t` value of each status.
    pub open spec fn raw_code(self) -> u32 {
        match self {
            UrEventStatus::Complete => 0,
            UrEventStatus::Running => 1,
            UrEventStatus::Submitted => 2,
            UrEventStatus::Queued => 3,
            UrEventStatus::Error => 4,
        }
    }

    /// The status whose raw value is `raw`, or
    /// `UR_RESULT_ERROR_INVALID_ENUMERATION` for any other value.
    pub fn from_raw(raw: u32) -> (r: Result<Self, UrError>)
        ensures
            r matches Ok(s) ==> s.raw_code() == raw,
            r is Ok <==> raw <= 4,
            r matches Err(e) ==> e == UnifiedRuntimeError(ur_result_t::UR_RESULT_ERROR_INVALID_ENUMERATION),
    {
        let r = match raw {
            0 => Ok(UrEventStatus::Complete),
            1 => Ok(UrEventStatus::Running),
            2 => Ok(UrEventStatus::Submitted),
            3 => Ok(UrEventStatus::Queued),
            4 => Ok(UrEventStatus::Error),
            _ => Err(UnifiedRuntimeError(ur_result_t::UR_RESULT_ERROR_INVALID_ENUMERATION)),
        };
        r
    }

    /// Whether the status says the command has completed.
    pub fn is_complete(self) -> (b: bool)
        ensures
            b <==> self == UrEventStatus::Complete,
    {
        self == UrEventStatus::Complete
    }

    /// Whether the raw status `raw` says the command has completed, or the
    /// error that refuses a raw value that names no status.
    pub fn completion(raw: u32) -> (r: Result<bool, UrError>)
        ensures
            r matches Ok(done) ==> (done <==> raw == 0),
            r is Ok <==> raw <= 4,
            r matches Err(e) ==> e == UnifiedRuntimeError(ur_result_t::UR_RESULT_ERROR_INVALID_ENUMERATION),
    {
        match Self::from_raw(raw) {
            Ok(status) => Ok(status.is_complete()),
            Err(e) => {
                proof {
                    assert(UrEventStatus::Complete.raw_code() == 0);
                    assert(UrEventStatus::Running.raw_code() == 1);
                    assert(UrEventStatus::Submitted.raw_code() == 2);
                    assert(UrEventStatus::Queued.raw_code() == 3);
                    assert(UrEventStatus::Error.raw_code() == 4);
                }
                Err(e)
            },
        }
    }
}

/// Decoding the raw value of a status gives that status back, and no two
/// statuses share a raw value.
pub proof fn lemma_event_status_round_trip(s: UrEventStatus, t: UrEventStatus)
    ensures
        s.raw_code() == t.raw_code() ==> s == t,
        s.raw_code() <= 4,
{
}

/// An event of the Unified Runtime.
#[derive(Debug)]
pub struct UrEvent {
    handle: u64,
}

impl UrEvent {
    /// The event with handle `handle`.
    pub fn from_handle(handle: u64) -> (e: UrEvent)
        ensures
            e.handle() == handle,
    {
        UrEvent { handle }
    }

    /// The underlying Unified Runtime event handle.
    #[verifier::when_used_as_spec(spec_handle)]
    pub fn handle(&self) -> (h: u64)
        ensures
            h == self.spec_handle(),
    {
        self.handle
    }

    pub closed spec fn spec_handle(&self) -> u64 {
        self.handle
    }

    /// Whether two events have the same handle.
    pub fn eq(&self, other: &UrEvent) -> (b: bool)
        ensures
            b <==> self.handle() == other.handle(),
    {
        self.handle == other.handle
    }
}

/// The handles of the events to wait for, in their order.
pub fn event_wait_list(wait_for: &[&UrEvent]) -> (handles: Vec<u64>)
    ensures
        handles@.len() == wait_for@.len(),
        forall|i: int| 0 <= i < wait_for@.len() ==> handles@[i] == wait_for@[i].handle(),
{
    let mut handles: Vec<u64> = Vec::new();
    for i in 0..wait_for.len()
        invariant
            handles@.len() == i,
            forall|j: int| 0 <= j < i ==> handles@[j] == wait_for@[j].handle(),
    {
        handles.push(wait_for[i].handle());
    }
    handles
}

/// A program built from IL for the first device of its context.
#[derive(Debug)]
pub struct UrProgram {
    handle: u64,
    ctx: Arc<UrContext>,
    device: u64,
}

impl UrProgram {
    /// The program with handle `handle`, created in `ctx` for its first device.
    pub fn from_parts(handle: u64, ctx: Arc<UrContext>) -> (p: UrProgram)
        ensures
            p.handle() == handle,
            p.context()@ == ctx@,
            p.device() == ctx@.devices[0],
    {
        let device = ctx.devices()[0];
        UrProgram { handle, ctx, device }
    }

    /// The underlying Unified Runtime program handle.
    #[verifier::when_used_as_spec(spec_handle)]
    pub fn handle(&self) -> (h: u64)
        ensures
            h == self.spec_handle(),
    {
        self.handle
    }

    pub closed spec fn spec_handle(&self) -> u64 {
        self.handle
    }

    /// The context the program belongs to.
    #[verifier::when_used_as_spec(spec_context)]
    pub fn context(&self) -> (c: &Arc<UrContext>)
        ensures
            c == self.spec_context(),
    {
        &self.ctx
    }

    pub closed spec fn spec_context(&self) -> &Arc<UrContext> {
        &self.ctx
    }

    /// The device the program is built for.
    #[verifier::when_used_as_spec(spec_device)]
    pub fn device(&self) -> (d: u64)
        ensures
            d == self.spec_device(),
    {
        self.device
    }

    pub closed spec fn spec_device(&self) -> u64 {
        self.device
    }

    /// The text of a build-information buffer: the bytes the runtime wrote,
    /// without the zero bytes that end them, decoded lossily. An empty
    /// buffer (a reported size of zero) gives the empty text.
    pub fn build_info_text(bytes: &[u8]) -> (s: String)
        ensures
            s@ == utf8_lossy(trim_trailing_zeros(bytes@)),
            crate::text::all_ascii(bytes@) ==> s@ == crate::text::ascii_chars(
                trim_trailing_zeros(bytes@),
            ),
    {
        text_without_trailing_nuls(bytes)
    }

    /// The build log of a program from the size the runtime first reported
    /// and the bytes it then wrote: empty when the reported size is zero, in
    /// which case no bytes are asked for, otherwise the text of the bytes.
    pub fn build_log_text(size: usize, bytes: &[u8]) -> (s: String)
        ensures
            size == 0 ==> s@.len() == 0,
            size > 0 ==> s@ == utf8_lossy(trim_trailing_zeros(bytes@)),
            size > 0 && crate::text::all_ascii(bytes@) ==> s@ == crate::text::ascii_chars(
                trim_trailing_zeros(bytes@),
            ),
    {
        if size == 0 {
            String::new()
        } else {
            Self::build_info_text(bytes)
        }
    }

    /// The NUL-terminated form of a kernel name; a name holding a NUL
    /// character has none.
    pub fn kernel_name(name: &str) -> (bytes: Vec<u8>)
        requires
            !name.spec_bytes().contains(0u8),
        ensures
            bytes@ == name.spec_bytes().push(0u8),
    {
        nul_terminated(name.as_bytes())
    }
}

/// The bytes followed by a terminating zero byte.
pub fn nul_terminated(bytes: &[u8]) -> (r: Vec<u8>)
    ensures
        r@ == bytes@.push(0u8),
{
    let mut r: Vec<u8> = Vec::new();
    for i in 0..bytes.len()
        invariant
            r@ == bytes@.take(i as int),
    {
        r.push(bytes[i]);
        assert(bytes@.take(i as int).push(bytes@[i as int]) =~= bytes@.take(i + 1));
    }
    assert(bytes@.take(bytes@.len() as int) =~= bytes@);
    r.push(0u8);
    r
}

/// A kernel created by name from a program.
#[derive(Debug)]
pub struct UrKernel {
    handle: u64,
    program: Arc<UrProgram>,
}

impl UrKernel {
    /// The kernel with handle `handle`, created from `program`.
    pub fn from_parts(handle: u64, program: Arc<UrProgram>) -> (k: UrKernel)
        ensures
            k.handle() == handle,
            k.program() == program,
    {
        UrKernel { handle, program }
    }

    /// The underlying Unified Runtime kernel handle.
    #[verifier::when_used_as_spec(spec_handle)]
    pub fn handle(&self) -> (h: u64)
        ensures
            h == self.spec_handle(),
    {
        self.handle
    }

    pub closed spec fn spec_handle(&self) -> u64 {
        self.handle
    }

    /// The program the kernel comes from.
    #[verifier::when_used_as_spec(spec_program)]
    pub fn program(&self) -> (p: &Arc<UrProgram>)
        ensures
            p == self.spec_program(),
    {
        &self.program
    }

    pub closed spec fn spec_program(&self) -> &Arc<UrProgram> {
        &self.program
    }

    /// The byte size of a kernel argument passed by value.
    pub fn arg_size<T: DeviceRepr>() -> (n: usize)
        ensures
            n == vstd::layout::size_of::<T>(),
    {
        core::mem::size_of::<T>()
    }

    /// The one-dimensional global work size of a launch.
    pub fn global_work_size(global_work_items: usize) -> (g: [usize; 1])
        ensures
            g@ == seq![global_work_items],
    {
        let g = [global_work_items];
        assert(g@ =~= seq![global_work_items]);
        g
    }
}

/// A device allocation of `len` elements of `T` owned by a [`UrQueue`]; the
/// pointer is held as its address.
#[derive(Debug)]
pub struct UrDeviceSlice<T> {
    ptr: usize,
    len: usize,
    queue: Arc<UrQueue>,
    marker: PhantomData<T>,
}

impl<T> UrDeviceSlice<T> {
    /// The allocation at address `ptr` of `len` elements, owned by `queue`.
    pub fn from_raw_parts(ptr: usize, len: usize, queue: Arc<UrQueue>) -> (s: Self)
        ensures
            s.as_mut_ptr() == ptr,
            s.len() == len,
            s.queue() == queue,
    {
        UrDeviceSlice { ptr, len, queue, marker: PhantomData }
    }

    /// The number of elements in the allocation.
    #[verifier::when_used_as_spec(spec_len)]
    pub fn len(&self) -> (n: usize)
        ensures
            n == self.spec_len(),
    {
        self.len
    }

    pub closed spec fn spec_len(&self) -> usize {
        self.len
    }

    /// Whether the allocation holds no element.
    pub fn is_empty(&self) -> (b: bool)
        ensures
            b <==> self.len() == 0,
    {
        self.len == 0
    }

    /// The address of the allocation.
    #[verifier::when_used_as_spec(spec_as_mut_ptr)]
    pub fn as_mut_ptr(&self) -> (p: usize)
        ensures
            p == self.spec_as_mut_ptr(),
    {
        self.ptr
    }

    pub closed spec fn spec_as_mut_ptr(&self) -> usize {
        self.ptr
    }

    /// The queue that owns this allocation.
    #[verifier::when_used_as_spec(spec_queue)]
    pub fn queue(&self) -> (q: &Arc<UrQueue>)
        ensures
            q == self.spec_queue(),
    {
        &self.queue
    }

    pub closed spec fn spec_queue(&self) -> &Arc<UrQueue> {
        &self.queue
    }
}

impl<T> DevicePtr<T> for UrDeviceSlice<T> {
    fn device_ptr(&self) -> (p: usize)
        ensures
            p == self.as_mut_ptr(),
    {
        self.ptr
    }
}

impl<T> DevicePtrMut<T> for UrDeviceSlice<T> {
    fn device_ptr_mut(&mut self) -> (p: usize)
        ensures
            p == old(self).as_mut_ptr(),
            *final(self) == *old(self),
    {
        self.ptr
    }
}

} // verus!
