//! The runtime calls that the discovery and creation steps ask for, and the
//! replies that come back from the runtime.

use vstd::prelude::*;

use super::result::{ur_result_t, UnifiedRuntimeError};

verus! {

/// A call into the Unified Runtime that a step of this library asks for.
///
/// Handles are the runtime's opaque handle values, held as integers.
#[derive(Clone, Debug, PartialEq, Eq)]
pub enum UrCall {
    /// Initialise the loader.
    LoaderInit,
    /// List the adapters of this process.
    AdapterGet,
    /// Take a reference on an adapter.
    AdapterRetain(u64),
    /// Drop a reference on an adapter.
    AdapterRelease(u64),
    /// List the platforms of an adapter.
    PlatformGet(u64),
    /// List every device of a platform.
    DeviceGet(u64),
    /// Take a reference on a device.
    DeviceRetain(u64),
    /// Drop a reference on a device.
    DeviceRelease(u64),
    /// Create a context over the given devices.
    ContextCreate(Vec<u64>),
}

/// The mathematical form of a [`UrCall`].
pub enum CallView {
    LoaderInit,
    AdapterGet,
    AdapterRetain(u64),
    AdapterRelease(u64),
    PlatformGet(u64),
    DeviceGet(u64),
    DeviceRetain(u64),
    DeviceRelease(u64),
    ContextCreate(Seq<u64>),
}

impl View for UrCall {
    type V = CallView;

    open spec fn view(&self) -> CallView {
        match self {
            UrCall::LoaderInit => CallView::LoaderInit,
            UrCall::AdapterGet => CallView::AdapterGet,
            UrCall::AdapterRetain(a) => CallView::AdapterRetain(*a),
            UrCall::AdapterRelease(a) => CallView::AdapterRelease(*a),
            UrCall::PlatformGet(a) => CallView::PlatformGet(*a),
            UrCall::DeviceGet(p) => CallView::DeviceGet(*p),
            UrCall::DeviceRetain(d) => CallView::DeviceRetain(*d),
            UrCall::DeviceRelease(d) => CallView::DeviceRelease(*d),
            UrCall::ContextCreate(ds) => CallView::ContextCreate(ds@),
        }
    }
}

/// What the runtime answered to a [`UrCall`].
#[derive(Debug, PartialEq, Eq)]
pub enum UrReply {
    /// The result code of a call that only reports a status
    /// (loader initialisation, retain and release).
    Status(ur_result_t),
    /// The handles listed by a query (adapters, platforms, devices).
    Handles(Result<Vec<u64>, UnifiedRuntimeError>),
    /// The handle created by a call (a context).
    Handle(Result<u64, UnifiedRuntimeError>),
}

/// The mathematical form of a [`UrReply`].
pub enum ReplyView {
    Status(ur_result_t),
    Handles(Result<Seq<u64>, UnifiedRuntimeError>),
    Handle(Result<u64, UnifiedRuntimeError>),
}

impl View for UrReply {
    type V = ReplyView;

    open spec fn view(&self) -> ReplyView {
        match self {
            UrReply::Status(code) => ReplyView::Status(*code),
            UrReply::Handles(Ok(hs)) => ReplyView::Handles(Ok(hs@)),
            UrReply::Handles(Err(e)) => ReplyView::Handles(Err(*e)),
            UrReply::Handle(h) => ReplyView::Handle(*h),
        }
    }
}

impl CallView {
    /// Whether `reply` has the form that answers this call.
    pub open spec fn accepts(self, reply: ReplyView) -> bool {
        match self {
            CallView::AdapterGet | CallView::PlatformGet(_) | CallView::DeviceGet(_) => reply is Handles,
            CallView::ContextCreate(_) => reply is Handle,
            _ => reply is Status,
        }
    }
}

/// The mathematical form of an optional call, as returned by the steps.
pub open spec fn pending_view(call: Option<UrCall>) -> Option<CallView> {
    match call {
        Some(c) => Some(c@),
        None => None,
    }
}

/// The error that a status reply carries, if any.
pub open spec fn status_error(code: ur_result_t) -> Option<UnifiedRuntimeError> {
    if code == ur_result_t::UR_RESULT_SUCCESS {
        None
    } else {
        Some(UnifiedRuntimeError(code))
    }
}

} // verus!
