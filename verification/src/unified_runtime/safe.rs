//! Owned Unified Runtime values: a context over devices, a queue on the
//! first device of a context, and an allocation owned by a queue.

use vstd::prelude::*;

use std::marker::PhantomData;
use std::sync::Arc;

use super::creation::{ContextParts, PartsView};
use super::result::{ur_result_t, UnifiedRuntimeError};

verus! {

/// A Unified Runtime context over one or more devices, together with the
/// adapter references it holds.
#[derive(Debug)]
pub struct Context {
    handle: u64,
    devices: Vec<u64>,
    adapters: Vec<u64>,
}

impl View for Context {
    type V = PartsView;

    closed spec fn view(&self) -> PartsView {
        PartsView { handle: self.handle, devices: self.devices@, adapters: self.adapters@ }
    }
}

impl Context {
    /// A context spans at least one device.
    #[verifier::type_invariant]
    spec fn spans_a_device(self) -> bool {
        self.devices@.len() > 0
    }

    /// The context made of the parts that a creation produced.
    pub fn from_parts(parts: ContextParts) -> (c: Context)
        requires
            parts@.devices.len() > 0,
        ensures
            c@ == parts@,
    {
        Context { handle: parts.handle, devices: parts.devices, adapters: parts.adapters }
    }

    /// The device handles associated with this context.
    pub fn devices(&self) -> (ds: &[u64])
        ensures
            ds@ == self@.devices,
            ds@.len() > 0,
    {
        proof {
            use_type_invariant(self);
        }
        self.devices.as_slice()
    }

    /// The underlying Unified Runtime context handle.
    pub fn handle(&self) -> (h: u64)
        ensures
            h == self@.handle,
    {
        self.handle
    }

    /// The adapter handles whose references this context holds.
    pub fn adapters(&self) -> (a: &[u64])
        ensures
            a@ == self@.adapters,
    {
        self.adapters.as_slice()
    }

    /// Whether two contexts have the same handle, devices and adapters.
    pub fn eq(&self, other: &Context) -> (b: bool)
        ensures
            b <==> self@ == other@,
    {
        self.handle == other.handle && same_handles(&self.devices, &other.devices) && same_handles(
            &self.adapters,
            &other.adapters,
        )
    }
}

/// Whether two handle lists are equal.
pub fn same_handles(a: &Vec<u64>, b: &Vec<u64>) -> (r: bool)
    ensures
        r <==> a@ == b@,
{
    if a.len() != b.len() {
        return false;
    }
    for i in 0..a.len()
        invariant
            a.len() == b.len(),
            forall|j: int| 0 <= j < i ==> a@[j] == b@[j],
    {
        if a[i] != b[i] {
            return false;
        }
    }
    assert(a@ =~= b@);
    true
}

/// The device on which a queue for `ctx` is created: its first device, or
/// `UR_RESULT_ERROR_INVALID_DEVICE` when it has none.
pub fn queue_device(devices: &[u64]) -> (r: Result<u64, UnifiedRuntimeError>)
    ensures
        devices@.len() > 0 <==> r is Ok,
        r matches Ok(d) ==> d == devices@[0],
        r matches Err(e) ==> e == UnifiedRuntimeError(ur_result_t::UR_RESULT_ERROR_INVALID_DEVICE),
{
    if devices.len() == 0 {
        Err(UnifiedRuntimeError(ur_result_t::UR_RESULT_ERROR_INVALID_DEVICE))
    } else {
        Ok(devices[0])
    }
}

/// A Unified Runtime queue tied to a context and a single device.
#[derive(Debug)]
pub struct Queue {
    handle: u64,
    ctx: Arc<Context>,
    device: u64,
}

impl Queue {
    /// The queue with handle `handle`, created in `ctx` on `device`.
    pub fn from_parts(handle: u64, ctx: Arc<Context>, device: u64) -> (q: Queue)
        ensures
            q.handle() == handle,
            q.context()@ == ctx@,
            q.device() == device,
    {
        Queue { handle, ctx, device }
    }

    /// The device on which a queue for `ctx` is created: its first device.
    /// A context always has one; [`queue_device`] refuses an empty device
    /// list with `UR_RESULT_ERROR_INVALID_DEVICE`.
    pub fn device_for(ctx: &Context) -> (r: Result<u64, UnifiedRuntimeError>)
        ensures
            ctx@.devices.len() > 0,
            r == Ok::<u64, UnifiedRuntimeError>(ctx@.devices[0]),
    {
        queue_device(ctx.devices())
    }

    /// The underlying Unified Runtime queue handle.
    #[verifier::when_used_as_spec(spec_handle)]
    pub fn handle(&self) -> (h: u64)
        ensures
            h == self.spec_handle(),
    {
        self.handle
    }

    pub closed spec fn spec_handle(&self) -> u64 {
        self.handle
    }

    /// The context this queue belongs to.
    #[verifier::when_used_as_spec(spec_context)]
    pub fn context(&self) -> (c: &Arc<Context>)
        ensures
            c == self.spec_context(),
    {
        &self.ctx
    }

    pub closed spec fn spec_context(&self) -> &Arc<Context> {
        &self.ctx
    }

    /// The device the queue runs on.
    #[verifier::when_used_as_spec(spec_device)]
    pub fn device(&self) -> (d: u64)
        ensures
            d == self.spec_device(),
    {
        self.device
    }

    pub closed spec fn spec_device(&self) -> u64 {
        self.device
    }

    /// Whether two queues have the same handle, context and device.
    pub fn eq(&self, other: &Queue) -> (b: bool)
        ensures
            b <==> (self.handle() == other.handle() && self.context()@ == other.context()@
                && self.device() == other.device()),
    {
        self.handle == other.handle && self.ctx.eq(&other.ctx) && self.device == other.device
    }
}

/// A device allocation of `len` elements of `T` owned by a [`Queue`]; the
/// pointer is held as its address.
#[derive(Debug)]
pub struct UrDeviceSlice<T> {
    ptr: usize,
    len: usize,
    queue: Arc<Queue>,
    marker: PhantomData<T>,
}

impl<T> UrDeviceSlice<T> {
    /// The allocation at address `ptr` of `len` elements, owned by `queue`.
    pub fn from_raw_parts(ptr: usize, len: usize, queue: Arc<Queue>) -> (s: Self)
        ensures
            s.as_mut_ptr() == ptr,
            s.len() == len,
            s.queue() == queue,
    {
        UrDeviceSlice { ptr, len, queue, marker: PhantomData }
    }

    /// The number of elements in the allocation.
    #[verifier::when_used_as_spec(spec_len)]
    pub fn len(&self) -> (n: usize)
        ensures
            n == self.spec_len(),
    {
        self.len
    }

    pub closed spec fn spec_len(&self) -> usize {
        self.len
    }

    /// Whether the allocation holds no element.
    pub fn is_empty(&self) -> (b: bool)
        ensures
            b <==> self.len() == 0,
    {
        self.len == 0
    }

    /// The address of the allocation.
    #[verifier::when_used_as_spec(spec_as_mut_ptr)]
    pub fn as_mut_ptr(&self) -> (p: usize)
        ensures
            p == self.spec_as_mut_ptr(),
    {
        self.ptr
    }

    pub closed spec fn spec_as_mut_ptr(&self) -> usize {
        self.ptr
    }

    /// The queue that owns this allocation.
    #[verifier::when_used_as_spec(spec_queue)]
    pub fn queue(&self) -> (q: &Arc<Queue>)
        ensures
            q == self.spec_queue(),
    {
        &self.queue
    }

    pub closed spec fn spec_queue(&self) -> &Arc<Queue> {
        &self.queue
    }
}

} // verus!
