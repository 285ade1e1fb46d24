//! Creating a context over given devices.
//!
//! An empty device list is refused with `UR_RESULT_ERROR_INVALID_SIZE` after
//! the adapters handed over are released. Otherwise each device is retained
//! (a failed retain ends the creation at once), the context is created, and
//! a failed creation releases the devices and then the adapters.

use vstd::prelude::*;

use super::calls::{pending_view, status_error, CallView, ReplyView, UrCall, UrReply};
use super::result::{ur_result_t, UnifiedRuntimeError};

verus! {

/// The handles that make up a created context: the context handle, the
/// retained devices it spans, and the adapters whose references it holds.
#[derive(Debug, PartialEq, Eq)]
pub struct ContextParts {
    pub handle: u64,
    pub devices: Vec<u64>,
    pub adapters: Vec<u64>,
}

/// The mathematical form of [`ContextParts`].
pub struct PartsView {
    pub handle: u64,
    pub devices: Seq<u64>,
    pub adapters: Seq<u64>,
}

impl View for ContextParts {
    type V = PartsView;

    open spec fn view(&self) -> PartsView {
        PartsView { handle: self.handle, devices: self.devices@, adapters: self.adapters@ }
    }
}

/// Where a context creation stands.
pub enum CreationPhase {
    /// `devices[index]` is to be retained.
    Retain { index: int },
    /// The context is to be created over all the devices.
    Create,
    /// After `error`, `devices[index]` is to be released.
    ReleaseDevices { error: UnifiedRuntimeError, index: int },
    /// After `error`, `adapters[index]` is to be released.
    ReleaseAdapters { error: UnifiedRuntimeError, index: int },
    /// The creation has ended with `outcome` (the context handle, or the
    /// error); the first `kept` devices are still retained, and
    /// `adapters_released` tells whether the adapters were released.
    Finished { outcome: Result<u64, UnifiedRuntimeError>, kept: int, adapters_released: bool },
}

/// The mathematical state of a context creation.
pub struct CreationView {
    pub devices: Seq<u64>,
    pub adapters: Seq<u64>,
    pub phase: CreationPhase,
}

impl CreationView {
    /// Moves on to releasing `adapters[index]`, or ends with `error`.
    pub open spec fn at_adapter_release(
        adapters: Seq<u64>,
        error: UnifiedRuntimeError,
        index: int,
    ) -> CreationPhase {
        if index < adapters.len() {
            CreationPhase::ReleaseAdapters { error, index }
        } else {
            CreationPhase::Finished { outcome: Err(error), kept: 0, adapters_released: true }
        }
    }

    /// Moves on to releasing `devices[index]`, or to releasing the adapters.
    pub open spec fn at_device_release(
        devices: Seq<u64>,
        adapters: Seq<u64>,
        error: UnifiedRuntimeError,
        index: int,
    ) -> CreationPhase {
        if index < devices.len() {
            CreationPhase::ReleaseDevices { error, index }
        } else {
            Self::at_adapter_release(adapters, error, 0)
        }
    }

    /// Moves on to retaining `devices[index]`, or to creating the context.
    pub open spec fn at_retain(devices: Seq<u64>, index: int) -> CreationPhase {
        if index < devices.len() {
            CreationPhase::Retain { index }
        } else {
            CreationPhase::Create
        }
    }

    /// The state at the start of a creation over `devices`, holding `adapters`.
    pub open spec fn initial(devices: Seq<u64>, adapters: Seq<u64>) -> CreationView {
        CreationView {
            devices,
            adapters,
            phase: if devices.len() == 0 {
                Self::at_adapter_release(
                    adapters,
                    UnifiedRuntimeError(ur_result_t::UR_RESULT_ERROR_INVALID_SIZE),
                    0,
                )
            } else {
                Self::at_retain(devices, 0)
            },
        }
    }

    /// The indices of the phase lie within their sequences.
    pub open spec fn wf(self) -> bool {
        match self.phase {
            CreationPhase::Retain { index } => 0 <= index < self.devices.len(),
            CreationPhase::Create => self.devices.len() > 0,
            CreationPhase::ReleaseDevices { index, .. } => 0 <= index < self.devices.len(),
            CreationPhase::ReleaseAdapters { index, .. } => 0 <= index < self.adapters.len(),
            CreationPhase::Finished { outcome, kept, adapters_released } => {
                &&& 0 <= kept <= self.devices.len()
                &&& outcome is Ok ==> kept == self.devices.len() && !adapters_released
                    && self.devices.len() > 0
                &&& adapters_released ==> kept == 0 && outcome is Err
            },
        }
    }

    /// The call that the creation needs next; `None` once it has ended.
    pub open spec fn pending(self) -> Option<CallView> {
        match self.phase {
            CreationPhase::Retain { index } => Some(CallView::DeviceRetain(self.devices[index])),
            CreationPhase::Create => Some(CallView::ContextCreate(self.devices)),
            CreationPhase::ReleaseDevices { index, .. } => Some(
                CallView::DeviceRelease(self.devices[index]),
            ),
            CreationPhase::ReleaseAdapters { index, .. } => Some(
                CallView::AdapterRelease(self.adapters[index]),
            ),
            CreationPhase::Finished { .. } => None,
        }
    }

    /// The state after the runtime answered the pending call with `reply`.
    pub open spec fn after(self, reply: ReplyView) -> CreationView {
        match self.phase {
            CreationPhase::Retain { index } => match reply {
                ReplyView::Status(code) => match status_error(code) {
                    None => CreationView { phase: Self::at_retain(self.devices, index + 1), ..self },
                    Some(error) => CreationView {
                        phase: CreationPhase::Finished {
                            outcome: Err(error),
                            kept: index,
                            adapters_released: false,
                        },
                        ..self
                    },
                },
                _ => self,
            },
            CreationPhase::Create => match reply {
                ReplyView::Handle(Ok(handle)) => CreationView {
                    phase: CreationPhase::Finished {
                        outcome: Ok(handle),
                        kept: self.devices.len() as int,
                        adapters_released: false,
                    },
                    ..self
                },
                ReplyView::Handle(Err(error)) => CreationView {
                    phase: Self::at_device_release(self.devices, self.adapters, error, 0),
                    ..self
                },
                _ => self,
            },
            CreationPhase::ReleaseDevices { error, index } => match reply {
                ReplyView::Status(_) => CreationView {
                    phase: Self::at_device_release(self.devices, self.adapters, error, index + 1),
                    ..self
                },
                _ => self,
            },
            CreationPhase::ReleaseAdapters { error, index } => match reply {
                ReplyView::Status(_) => CreationView {
                    phase: Self::at_adapter_release(self.adapters, error, index + 1),
                    ..self
                },
                _ => self,
            },
            CreationPhase::Finished { .. } => self,
        }
    }

    /// The result of an ended creation; `None` while it runs.
    pub open spec fn outcome(self) -> Option<Result<PartsView, UnifiedRuntimeError>> {
        match self.phase {
            CreationPhase::Finished { outcome: Ok(handle), .. } => Some(
                Ok(PartsView { handle, devices: self.devices, adapters: self.adapters }),
            ),
            CreationPhase::Finished { outcome: Err(e), .. } => Some(Err(e)),
            _ => None,
        }
    }

    /// The devices on which the creation holds a reference it took.
    pub open spec fn owned_devices(self) -> Seq<u64> {
        match self.phase {
            CreationPhase::Retain { index } => self.devices.take(index),
            CreationPhase::Create => self.devices,
            CreationPhase::ReleaseDevices { index, .. } => self.devices.skip(index),
            CreationPhase::ReleaseAdapters { .. } => Seq::empty(),
            CreationPhase::Finished { kept, .. } => self.devices.take(kept),
        }
    }

    /// The adapters whose references the creation still holds.
    pub open spec fn owned_adapters(self) -> Seq<u64> {
        match self.phase {
            CreationPhase::ReleaseAdapters { index, .. } => self.adapters.skip(index),
            CreationPhase::Finished { adapters_released: true, .. } => Seq::empty(),
            _ => self.adapters,
        }
    }
}

enum Stage {
    Retain { index: usize },
    Create,
    ReleaseDevices { error: UnifiedRuntimeError, index: usize },
    ReleaseAdapters { error: UnifiedRuntimeError, index: usize },
    Finished { outcome: Result<u64, UnifiedRuntimeError>, kept: usize, adapters_released: bool },
}

impl Stage {
    spec fn phase(&self) -> CreationPhase {
        match self {
            Stage::Retain { index } => CreationPhase::Retain { index: *index as int },
            Stage::Create => CreationPhase::Create,
            Stage::ReleaseDevices { error, index } => CreationPhase::ReleaseDevices {
                error: *error,
                index: *index as int,
            },
            Stage::ReleaseAdapters { error, index } => CreationPhase::ReleaseAdapters {
                error: *error,
                index: *index as int,
            },
            Stage::Finished { outcome, kept, adapters_released } => CreationPhase::Finished {
                outcome: *outcome,
                kept: *kept as int,
                adapters_released: *adapters_released,
            },
        }
    }
}

/// A context creation over a device list, driven one runtime call at a time.
pub struct ContextCreation {
    devices: Vec<u64>,
    adapters: Vec<u64>,
    stage: Stage,
}

impl View for ContextCreation {
    type V = CreationView;

    closed spec fn view(&self) -> CreationView {
        CreationView { devices: self.devices@, adapters: self.adapters@, phase: self.stage.phase() }
    }
}

fn stage_at_adapter_release(adapters: &Vec<u64>, error: UnifiedRuntimeError, index: usize) -> (s: Stage)
    requires
        index <= adapters.len(),
    ensures
        s.phase() == CreationView::at_adapter_release(adapters@, error, index as int),
{
    if index < adapters.len() {
        Stage::ReleaseAdapters { error, index }
    } else {
        Stage::Finished { outcome: Err(error), kept: 0, adapters_released: true }
    }
}

fn stage_at_device_release(
    devices: &Vec<u64>,
    adapters: &Vec<u64>,
    error: UnifiedRuntimeError,
    index: usize,
) -> (s: Stage)
    requires
        index <= devices.len(),
    ensures
        s.phase() == CreationView::at_device_release(devices@, adapters@, error, index as int),
{
    if index < devices.len() {
        Stage::ReleaseDevices { error, index }
    } else {
        stage_at_adapter_release(adapters, error, 0)
    }
}

fn stage_at_retain(devices: &Vec<u64>, index: usize) -> (s: Stage)
    ensures
        s.phase() == CreationView::at_retain(devices@, index as int),
{
    if index < devices.len() {
        Stage::Retain { index }
    } else {
        Stage::Create
    }
}

impl ContextCreation {
    /// The well-formedness of the running creation.
    pub closed spec fn wf(&self) -> bool {
        self@.wf()
    }

    /// Starts creating a context over `devices`, taking over the references
    /// held on `adapters`.
    pub fn new(devices: Vec<u64>, adapters: Vec<u64>) -> (c: Self)
        ensures
            c.wf(),
            c@ == CreationView::initial(devices@, adapters@),
    {
        let stage = if devices.len() == 0 {
            stage_at_adapter_release(
                &adapters,
                UnifiedRuntimeError(ur_result_t::UR_RESULT_ERROR_INVALID_SIZE),
                0,
            )
        } else {
            stage_at_retain(&devices, 0)
        };
        ContextCreation { devices, adapters, stage }
    }

    /// The call that the creation needs next, or `None` once it has ended.
    pub fn next_call(&self) -> (call: Option<UrCall>)
        requires
            self.wf(),
        ensures
            pending_view(call) == self@.pending(),
    {
        match &self.stage {
            Stage::Retain { index } => Some(UrCall::DeviceRetain(self.devices[*index])),
            Stage::Create => Some(UrCall::ContextCreate(self.devices.clone())),
            Stage::ReleaseDevices { index, .. } => Some(UrCall::DeviceRelease(self.devices[*index])),
            Stage::ReleaseAdapters { index, .. } => Some(
                UrCall::AdapterRelease(self.adapters[*index]),
            ),
            Stage::Finished { .. } => None,
        }
    }

    /// Whether the creation has ended.
    pub fn is_finished(&self) -> (b: bool)
        ensures
            b <==> self@.phase is Finished,
    {
        matches!(self.stage, Stage::Finished { .. })
    }

    /// Takes the runtime's answer to the pending call and moves on.
    pub fn resume(&mut self, reply: UrReply)
        requires
            old(self).wf(),
            old(self)@.pending() matches Some(call) && call.accepts(reply@),
        ensures
            final(self).wf(),
            final(self)@ == old(self)@.after(reply@),
    {
        let mut stage = Stage::Create;
        std::mem::swap(&mut stage, &mut self.stage);
        let _ = self.devices.len();
        let _ = self.adapters.len();
        match stage {
            Stage::Retain { index } => match reply {
                UrReply::Status(code) => match code.result() {
                    Ok(()) => {
                        self.stage = stage_at_retain(&self.devices, index + 1);
                    },
                    Err(error) => {
                        self.stage = Stage::Finished {
                            outcome: Err(error),
                            kept: index,
                            adapters_released: false,
                        };
                    },
                },
                _ => {
                    self.stage = Stage::Retain { index };
                },
            },
            Stage::Create => match reply {
                UrReply::Handle(Ok(handle)) => {
                    self.stage = Stage::Finished {
                        outcome: Ok(handle),
                        kept: self.devices.len(),
                        adapters_released: false,
                    };
                },
                UrReply::Handle(Err(error)) => {
                    self.stage = stage_at_device_release(&self.devices, &self.adapters, error, 0);
                },
                _ => {
                    self.stage = Stage::Create;
                },
            },
            Stage::ReleaseDevices { error, index } => {
                self.stage = stage_at_device_release(&self.devices, &self.adapters, error, index + 1);
            },
            Stage::ReleaseAdapters { error, index } => {
                self.stage = stage_at_adapter_release(&self.adapters, error, index + 1);
            },
            Stage::Finished { outcome, kept, adapters_released } => {
                self.stage = Stage::Finished { outcome, kept, adapters_released };
            },
        }
    }

    /// The result of an ended creation: the parts of the new context, or the
    /// error that ended it.
    pub fn finish(self) -> (r: Result<ContextParts, UnifiedRuntimeError>)
        requires
            self.wf(),
            self@.phase is Finished,
        ensures
            self@.outcome() == Some(
                match r {
                    Ok(parts) => Ok(parts@),
                    Err(e) => Err::<PartsView, UnifiedRuntimeError>(e),
                },
            ),
            r matches Ok(parts) ==> parts.devices@.len() > 0,
    {
        match self.stage {
            Stage::Finished { outcome: Ok(handle), .. } => Ok(
                ContextParts { handle, devices: self.devices, adapters: self.adapters },
            ),
            Stage::Finished { outcome: Err(e), .. } => Err(e),
            _ => Err(UnifiedRuntimeError(ur_result_t::UR_RESULT_ERROR_INVALID_SIZE)),
        }
    }
}

/// Ownership changes only through the calls the creation makes: a retain
/// that succeeds adds a device, a device release drops the first device
/// held, an adapter release drops the first adapter held, and nothing else
/// changes what the creation holds.
pub proof fn lemma_creation_ownership(v: CreationView, reply: ReplyView)
    requires
        v.wf(),
        v.pending() matches Some(call) && call.accepts(reply),
    ensures
        v.after(reply).wf(),
        match v.pending() {
            Some(CallView::DeviceRetain(d)) => {
                &&& v.after(reply).owned_adapters() == v.owned_adapters()
                &&& match reply {
                    ReplyView::Status(ur_result_t::UR_RESULT_SUCCESS) => v.after(reply).owned_devices()
                        == v.owned_devices().push(d),
                    _ => v.after(reply).owned_devices() == v.owned_devices(),
                }
            },
            Some(CallView::DeviceRelease(d)) => {
                &&& v.owned_devices().len() > 0
                &&& v.owned_devices()[0] == d
                &&& v.after(reply).owned_devices() == v.owned_devices().drop_first()
                &&& v.after(reply).owned_adapters() == v.owned_adapters()
            },
            Some(CallView::AdapterRelease(a)) => {
                &&& v.owned_adapters().len() > 0
                &&& v.owned_adapters()[0] == a
                &&& v.after(reply).owned_adapters() == v.owned_adapters().drop_first()
                &&& v.after(reply).owned_devices() == v.owned_devices()
            },
            _ => {
                &&& v.after(reply).owned_devices() == v.owned_devices()
                &&& v.after(reply).owned_adapters() == v.owned_adapters()
            },
        },
{
    match v.phase {
        CreationPhase::Retain { index } => {
            assert(v.devices.take(index).push(v.devices[index]) =~= v.devices.take(index + 1));
            if index + 1 == v.devices.len() {
                assert(v.devices.take(index + 1) =~= v.devices);
            }
        },
        CreationPhase::Create => {
            assert(v.devices.skip(0) =~= v.devices);
            assert(v.devices.take(v.devices.len() as int) =~= v.devices);
        },
        CreationPhase::ReleaseDevices { index, .. } => {
            assert(v.devices.skip(index).drop_first() =~= v.devices.skip(index + 1));
            if index + 1 == v.devices.len() && v.adapters.len() > 0 {
                assert(v.adapters.skip(0) =~= v.adapters);
            }
        },
        CreationPhase::ReleaseAdapters { index, .. } => {
            assert(v.adapters.skip(index).drop_first() =~= v.adapters.skip(index + 1));
        },
        _ => {},
    }
}

/// A creation that succeeds leaves the new context holding every device it
/// was given, at least one, and every adapter handed over; one that ends after a failed
/// context creation, or on an empty device list, holds nothing.
pub proof fn lemma_creation_final_ownership(v: CreationView)
    requires
        v.wf(),
        v.phase is Finished,
    ensures
        v.outcome() matches Some(Ok(parts)) ==> v.owned_devices() == parts.devices
            && v.owned_adapters() == parts.adapters && parts.devices.len() > 0,
        v.phase matches CreationPhase::Finished { adapters_released: true, .. }
            ==> v.owned_devices().len() == 0 && v.owned_adapters().len() == 0,
{
    assert(v.devices.take(v.devices.len() as int) =~= v.devices);
}

} // verus!
