//! Creating a context on the device with a given ordinal among all the
//! devices that every adapter and platform offers.
//!
//! The loader is initialised and the adapters listed; the devices are
//! discovered across all adapters. If the ordinal names no device, the
//! adapters and then the discovered devices are released and the request is
//! refused with `UR_RESULT_ERROR_INVALID_DEVICE`. Otherwise a context is
//! created on that one device, holding the adapters, and the discovered
//! devices are released whatever came of the creation.

use vstd::prelude::*;

use super::calls::{pending_view, CallView, ReplyView, UrCall, UrReply};
use super::creation::{ContextCreation, ContextParts, CreationView, PartsView};
use super::enumeration::{DeviceEnumeration, EnumerationView};
use super::result::{ur_result_t, UnifiedRuntimeError};

verus! {

/// Copies a list of handles.
pub fn copy_handles(handles: &Vec<u64>) -> (r: Vec<u64>)
    ensures
        r@ == handles@,
{
    let mut r: Vec<u64> = Vec::new();
    for i in 0..handles.len()
        invariant
            r@ == handles@.take(i as int),
    {
        r.push(handles[i]);
        assert(handles@.take(i as int).push(handles@[i as int]) =~= handles@.take(i + 1));
    }
    assert(handles@.take(handles@.len() as int) =~= handles@);
    r
}

/// The mathematical form of the result of a creation.
pub open spec fn parts_result(r: Result<ContextParts, UnifiedRuntimeError>) -> Result<
    PartsView,
    UnifiedRuntimeError,
> {
    match r {
        Ok(parts) => Ok(parts@),
        Err(e) => Err(e),
    }
}

/// The error that refuses an ordinal that names no device.
pub open spec fn invalid_device() -> UnifiedRuntimeError {
    UnifiedRuntimeError(ur_result_t::UR_RESULT_ERROR_INVALID_DEVICE)
}

/// Where a context setup by ordinal stands.
pub enum SetupPhase {
    /// The loader is to be initialised.
    InitLoader,
    /// The adapters are to be listed.
    GetAdapters,
    /// The devices of `adapters` are being discovered.
    Discover { adapters: Seq<u64>, discovery: EnumerationView },
    /// The ordinal named no device: `adapters[index]` is to be released,
    /// then the discovered `devices`.
    ReleaseAdapters { adapters: Seq<u64>, devices: Seq<u64>, index: int },
    /// A context is being created on the chosen device among `devices`.
    Create { devices: Seq<u64>, creation: CreationView },
    /// `devices[index]` is to be released before ending with `outcome`.
    ReleaseDevices { devices: Seq<u64>, index: int, outcome: Result<PartsView, UnifiedRuntimeError> },
    /// The setup has ended with `outcome`.
    Finished { outcome: Result<PartsView, UnifiedRuntimeError> },
}

/// The mathematical state of a context setup.
pub struct SetupView {
    pub ordinal: nat,
    pub phase: SetupPhase,
}

impl SetupView {
    /// Releases `devices[index]` next, or ends with `outcome`.
    pub open spec fn at_device_release(
        devices: Seq<u64>,
        index: int,
        outcome: Result<PartsView, UnifiedRuntimeError>,
    ) -> SetupPhase {
        if index < devices.len() {
            SetupPhase::ReleaseDevices { devices, index, outcome }
        } else {
            SetupPhase::Finished { outcome }
        }
    }

    /// Releases `adapters[index]` next, or moves on to the devices.
    pub open spec fn at_adapter_release(adapters: Seq<u64>, devices: Seq<u64>, index: int) -> SetupPhase {
        if index < adapters.len() {
            SetupPhase::ReleaseAdapters { adapters, devices, index }
        } else {
            Self::at_device_release(devices, 0, Err(invalid_device()))
        }
    }

    /// What follows an ended discovery over `adapters`.
    pub open spec fn after_discovery(ordinal: nat, adapters: Seq<u64>, discovery: EnumerationView) -> SetupPhase {
        match discovery.outcome() {
            Some(Ok(devices)) => if ordinal < devices.len() {
                SetupPhase::Create {
                    devices,
                    creation: CreationView::initial(seq![devices[ordinal as int]], adapters),
                }
            } else {
                Self::at_adapter_release(adapters, devices, 0)
            },
            Some(Err(e)) => SetupPhase::Finished { outcome: Err(e) },
            None => SetupPhase::Discover { adapters, discovery },
        }
    }

    /// A discovery over `adapters` whose state is `discovery`.
    pub open spec fn discovering(ordinal: nat, adapters: Seq<u64>, discovery: EnumerationView) -> SetupPhase {
        if discovery.phase is Finished {
            Self::after_discovery(ordinal, adapters, discovery)
        } else {
            SetupPhase::Discover { adapters, discovery }
        }
    }

    /// A creation on one of `devices` whose state is `creation`.
    pub open spec fn creating(devices: Seq<u64>, creation: CreationView) -> SetupPhase {
        match creation.outcome() {
            Some(outcome) => Self::at_device_release(devices, 0, outcome),
            None => SetupPhase::Create { devices, creation },
        }
    }

    /// The state at the start of a setup for `ordinal`.
    pub open spec fn initial(ordinal: nat) -> SetupView {
        SetupView { ordinal, phase: SetupPhase::InitLoader }
    }

    pub open spec fn wf(self) -> bool {
        match self.phase {
            SetupPhase::Discover { discovery, adapters } => {
                &&& discovery.wf()
                &&& discovery.adapters == adapters
                &&& !(discovery.phase is Finished)
            },
            SetupPhase::ReleaseAdapters { adapters, index, .. } => 0 <= index < adapters.len(),
            SetupPhase::Create { creation, devices } => {
                &&& creation.wf()
                &&& creation.outcome() is None
                &&& self.ordinal < devices.len()
                &&& creation.devices == seq![devices[self.ordinal as int]]
            },
            SetupPhase::ReleaseDevices { devices, index, outcome } => {
                &&& 0 <= index < devices.len()
                &&& outcome matches Ok(parts) ==> self.ordinal < devices.len() && parts.devices
                    == seq![devices[self.ordinal as int]]
            },
            SetupPhase::Finished { outcome } => outcome matches Ok(parts) ==> parts.devices.len() == 1,
            _ => true,
        }
    }

    /// The call that the setup needs next; `None` once it has ended.
    pub open spec fn pending(self) -> Option<CallView> {
        match self.phase {
            SetupPhase::InitLoader => Some(CallView::LoaderInit),
            SetupPhase::GetAdapters => Some(CallView::AdapterGet),
            SetupPhase::Discover { discovery, .. } => discovery.pending(),
            SetupPhase::ReleaseAdapters { adapters, index, .. } => Some(
                CallView::AdapterRelease(adapters[index]),
            ),
            SetupPhase::Create { creation, .. } => creation.pending(),
            SetupPhase::ReleaseDevices { devices, index, .. } => Some(
                CallView::DeviceRelease(devices[index]),
            ),
            SetupPhase::Finished { .. } => None,
        }
    }

    /// The state after the runtime answered the pending call with `reply`.
    pub open spec fn after(self, reply: ReplyView) -> SetupView {
        let phase = match self.phase {
            SetupPhase::InitLoader => match reply {
                ReplyView::Status(ur_result_t::UR_RESULT_SUCCESS) => SetupPhase::GetAdapters,
                ReplyView::Status(code) => SetupPhase::Finished {
                    outcome: Err(UnifiedRuntimeError(code)),
                },
                _ => self.phase,
            },
            SetupPhase::GetAdapters => match reply {
                ReplyView::Handles(Ok(adapters)) => Self::discovering(
                    self.ordinal,
                    adapters,
                    EnumerationView::initial(adapters),
                ),
                ReplyView::Handles(Err(e)) => SetupPhase::Finished { outcome: Err(e) },
                _ => self.phase,
            },
            SetupPhase::Discover { adapters, discovery } => Self::discovering(
                self.ordinal,
                adapters,
                discovery.after(reply),
            ),
            SetupPhase::ReleaseAdapters { adapters, devices, index } => Self::at_adapter_release(
                adapters,
                devices,
                index + 1,
            ),
            SetupPhase::Create { devices, creation } => Self::creating(devices, creation.after(reply)),
            SetupPhase::ReleaseDevices { devices, index, outcome } => Self::at_device_release(
                devices,
                index + 1,
                outcome,
            ),
            SetupPhase::Finished { .. } => self.phase,
        };
        SetupView { phase, ..self }
    }

    /// The result of an ended setup; `None` while it runs.
    pub open spec fn outcome(self) -> Option<Result<PartsView, UnifiedRuntimeError>> {
        match self.phase {
            SetupPhase::Finished { outcome } => Some(outcome),
            _ => None,
        }
    }
}

enum Stage {
    InitLoader,
    GetAdapters,
    Discover { adapters: Vec<u64>, discovery: DeviceEnumeration },
    ReleaseAdapters { adapters: Vec<u64>, devices: Vec<u64>, index: usize },
    Create { devices: Vec<u64>, creation: ContextCreation },
    ReleaseDevices {
        devices: Vec<u64>,
        index: usize,
        outcome: Result<ContextParts, UnifiedRuntimeError>,
    },
    Finished { outcome: Result<ContextParts, UnifiedRuntimeError> },
}

impl Stage {
    spec fn phase(&self) -> SetupPhase {
        match self {
            Stage::InitLoader => SetupPhase::InitLoader,
            Stage::GetAdapters => SetupPhase::GetAdapters,
            Stage::Discover { adapters, discovery } => SetupPhase::Discover {
                adapters: adapters@,
                discovery: discovery@,
            },
            Stage::ReleaseAdapters { adapters, devices, index } => SetupPhase::ReleaseAdapters {
                adapters: adapters@,
                devices: devices@,
                index: *index as int,
            },
            Stage::Create { devices, creation } => SetupPhase::Create {
                devices: devices@,
                creation: creation@,
            },
            Stage::ReleaseDevices { devices, index, outcome } => SetupPhase::ReleaseDevices {
                devices: devices@,
                index: *index as int,
                outcome: parts_result(*outcome),
            },
            Stage::Finished { outcome } => SetupPhase::Finished { outcome: parts_result(*outcome) },
        }
    }

    spec fn inner_wf(&self) -> bool {
        match self {
            Stage::Discover { discovery, .. } => discovery.wf(),
            Stage::Create { creation, .. } => creation.wf(),
            _ => true,
        }
    }
}

/// Creating a context on the device with a given ordinal, driven one
/// runtime call at a time.
pub struct ContextSetup {
    ordinal: usize,
    stage: Stage,
}

impl View for ContextSetup {
    type V = SetupView;

    closed spec fn view(&self) -> SetupView {
        SetupView { ordinal: self.ordinal as nat, phase: self.stage.phase() }
    }
}

fn stage_at_device_release(
    devices: Vec<u64>,
    index: usize,
    outcome: Result<ContextParts, UnifiedRuntimeError>,
) -> (s: Stage)
    ensures
        s.phase() == SetupView::at_device_release(devices@, index as int, parts_result(outcome)),
        s.inner_wf(),
{
    if index < devices.len() {
        Stage::ReleaseDevices { devices, index, outcome }
    } else {
        Stage::Finished { outcome }
    }
}

fn stage_at_adapter_release(adapters: Vec<u64>, devices: Vec<u64>, index: usize) -> (s: Stage)
    ensures
        s.phase() == SetupView::at_adapter_release(adapters@, devices@, index as int),
        s.inner_wf(),
{
    if index < adapters.len() {
        Stage::ReleaseAdapters { adapters, devices, index }
    } else {
        stage_at_device_release(
            devices,
            0,
            Err(UnifiedRuntimeError(ur_result_t::UR_RESULT_ERROR_INVALID_DEVICE)),
        )
    }
}

fn stage_discovering(ordinal: usize, adapters: Vec<u64>, discovery: DeviceEnumeration) -> (s: Stage)
    requires
        discovery.wf(),
        discovery@.adapters == adapters@,
    ensures
        s.phase() == SetupView::discovering(ordinal as nat, adapters@, discovery@),
        s.inner_wf(),
{
    if discovery.is_finished() {
        match discovery.finish() {
            Ok(devices) => {
                if ordinal < devices.len() {
                    let chosen = vec![devices[ordinal]];
                    assert(chosen@ =~= seq![devices@[ordinal as int]]);
                    let creation = ContextCreation::new(chosen, adapters);
                    Stage::Create { devices, creation }
                } else {
                    stage_at_adapter_release(adapters, devices, 0)
                }
            },
            Err(e) => Stage::Finished { outcome: Err(e) },
        }
    } else {
        Stage::Discover { adapters, discovery }
    }
}

fn stage_creating(devices: Vec<u64>, creation: ContextCreation) -> (s: Stage)
    requires
        creation.wf(),
    ensures
        s.phase() == SetupView::creating(devices@, creation@),
        s.inner_wf(),
{
    if creation.is_finished() {
        let outcome = creation.finish();
        stage_at_device_release(devices, 0, outcome)
    } else {
        Stage::Create { devices, creation }
    }
}

impl ContextSetup {
    pub closed spec fn wf(&self) -> bool {
        self@.wf() && self.stage.inner_wf()
    }

    /// Starts setting up a context on the device with the given ordinal.
    pub fn new(ordinal: usize) -> (s: Self)
        ensures
            s.wf(),
            s@ == SetupView::initial(ordinal as nat),
    {
        ContextSetup { ordinal, stage: Stage::InitLoader }
    }

    /// The call that the setup needs next, or `None` once it has ended.
    pub fn next_call(&self) -> (call: Option<UrCall>)
        requires
            self.wf(),
        ensures
            pending_view(call) == self@.pending(),
    {
        match &self.stage {
            Stage::InitLoader => Some(UrCall::LoaderInit),
            Stage::GetAdapters => Some(UrCall::AdapterGet),
            Stage::Discover { discovery, .. } => discovery.next_call(),
            Stage::ReleaseAdapters { adapters, index, .. } => Some(UrCall::AdapterRelease(adapters[*index])),
            Stage::Create { creation, .. } => creation.next_call(),
            Stage::ReleaseDevices { devices, index, .. } => Some(UrCall::DeviceRelease(devices[*index])),
            Stage::Finished { .. } => None,
        }
    }

    /// Whether the setup has ended.
    pub fn is_finished(&self) -> (b: bool)
        ensures
            b <==> self@.phase is Finished,
    {
        matches!(self.stage, Stage::Finished { .. })
    }

    /// Takes the runtime's answer to the pending call and moves on.
    pub fn resume(&mut self, reply: UrReply)
        requires
            old(self).wf(),
            old(self)@.pending() matches Some(call) && call.accepts(reply@),
        ensures
            final(self).wf(),
            final(self)@ == old(self)@.after(reply@),
    {
        let mut stage = Stage::InitLoader;
        std::mem::swap(&mut stage, &mut self.stage);
        let ordinal = self.ordinal;
        self.stage = match stage {
            Stage::InitLoader => match reply {
                UrReply::Status(code) => match code.result() {
                    Ok(()) => Stage::GetAdapters,
                    Err(e) => Stage::Finished { outcome: Err(e) },
                },
                _ => Stage::InitLoader,
            },
            Stage::GetAdapters => match reply {
                UrReply::Handles(Ok(adapters)) => {
                    let discovery = DeviceEnumeration::new(copy_handles(&adapters));
                    stage_discovering(ordinal, adapters, discovery)
                },
                UrReply::Handles(Err(e)) => Stage::Finished { outcome: Err(e) },
                _ => Stage::GetAdapters,
            },
            Stage::Discover { adapters, mut discovery } => {
                discovery.resume(reply);
                stage_discovering(ordinal, adapters, discovery)
            },
            Stage::ReleaseAdapters { adapters, devices, index } => {
                let _ = adapters.len();
                stage_at_adapter_release(adapters, devices, index + 1)
            },
            Stage::Create { devices, mut creation } => {
                creation.resume(reply);
                stage_creating(devices, creation)
            },
            Stage::ReleaseDevices { devices, index, outcome } => {
                let _ = devices.len();
                stage_at_device_release(devices, index + 1, outcome)
            },
            Stage::Finished { outcome } => Stage::Finished { outcome },
        };
    }

    /// The result of an ended setup: the parts of the new context, or the
    /// error that ended it.
    pub fn finish(self) -> (r: Result<ContextParts, UnifiedRuntimeError>)
        requires
            self.wf(),
            self@.phase is Finished,
        ensures
            self@.outcome() == Some(parts_result(r)),
            r matches Ok(parts) ==> parts.devices@.len() == 1,
    {
        match self.stage {
            Stage::Finished { outcome } => outcome,
            _ => Err(UnifiedRuntimeError(ur_result_t::UR_RESULT_ERROR_INVALID_DEVICE)),
        }
    }
}

/// Every answer keeps a setup well formed, and a context that comes out of
/// it spans exactly the device with the requested ordinal among those
/// discovered, while every discovered device is still to be released.
pub proof fn lemma_setup_step(v: SetupView, reply: ReplyView)
    requires
        v.wf(),
        v.pending() matches Some(call) && call.accepts(reply),
    ensures
        v.after(reply).wf(),
        v.after(reply).phase matches SetupPhase::ReleaseDevices { devices, outcome: Ok(parts), .. }
            ==> v.ordinal < devices.len() && parts.devices == seq![devices[v.ordinal as int]],
{
    match v.phase {
        SetupPhase::Discover { discovery, .. } => {
            crate::unified_runtime::enumeration::lemma_enumeration_ownership(discovery, reply);
        },
        SetupPhase::Create { creation, .. } => {
            crate::unified_runtime::creation::lemma_creation_ownership(creation, reply);
        },
        _ => {},
    }
}


impl SetupView {
    /// The state after the runtime answered each of `replies`, in order.
    pub open spec fn run(self, replies: Seq<ReplyView>) -> SetupView
        decreases replies.len(),
    {
        if replies.len() == 0 {
            self
        } else {
            self.run(replies.drop_last()).after(replies.last())
        }
    }
}

/// The `k`-th call of a refused setup after discovery: each adapter is
/// released, then each discovered device, in order.
pub open spec fn refusal_call(adapters: Seq<u64>, devices: Seq<u64>, k: int) -> CallView {
    if k < adapters.len() {
        CallView::AdapterRelease(adapters[k])
    } else {
        CallView::DeviceRelease(devices[k - adapters.len()])
    }
}

/// Where a refused setup stands after `k` answers.
spec fn refusal_phase(adapters: Seq<u64>, devices: Seq<u64>, k: int) -> SetupPhase {
    if k <= adapters.len() {
        SetupView::at_adapter_release(adapters, devices, k)
    } else {
        SetupView::at_device_release(devices, k - adapters.len(), Err(invalid_device()))
    }
}

proof fn lemma_refusal_prefix(start: SetupView, adapters: Seq<u64>, devices: Seq<u64>, replies: Seq<ReplyView>, k: int)
    requires
        start.phase == SetupView::at_adapter_release(adapters, devices, 0),
        0 <= k <= replies.len(),
        replies.len() == adapters.len() + devices.len(),
    ensures
        start.run(replies.take(k)).phase == refusal_phase(adapters, devices, k),
        start.run(replies.take(k)).ordinal == start.ordinal,
    decreases k,
{
    if k > 0 {
        lemma_refusal_prefix(start, adapters, devices, replies, k - 1);
        assert(replies.take(k).drop_last() =~= replies.take(k - 1));
        assert(replies.take(k).last() == replies[k - 1]);
    } else {
        assert(replies.take(0) =~= Seq::<ReplyView>::empty());
    }
}

/// When the ordinal names no discovered device, the setup releases every
/// adapter once and then every discovered device once, in order, never asks
/// for a context, and, whatever the runtime answers to the releases, ends
/// refused with `UR_RESULT_ERROR_INVALID_DEVICE`.
pub proof fn lemma_setup_refusal(
    ordinal: nat,
    adapters: Seq<u64>,
    discovery: EnumerationView,
    devices: Seq<u64>,
    replies: Seq<ReplyView>,
)
    requires
        discovery.wf(),
        discovery.adapters == adapters,
        discovery.outcome() == Some(Ok::<Seq<u64>, UnifiedRuntimeError>(devices)),
        ordinal >= devices.len(),
        replies.len() == adapters.len() + devices.len(),
    ensures
        ({
            let start = SetupView {
                ordinal,
                phase: SetupView::after_discovery(ordinal, adapters, discovery),
            };
            &&& forall|k: int|
                0 <= k < replies.len() ==> #[trigger] start.run(replies.take(k)).pending() == Some(
                    refusal_call(adapters, devices, k),
                )
            &&& start.run(replies).outcome() == Some(Err::<PartsView, UnifiedRuntimeError>(invalid_device()))
        }),
{
    let start = SetupView { ordinal, phase: SetupView::after_discovery(ordinal, adapters, discovery) };
    assert forall|k: int| 0 <= k < replies.len() implies #[trigger] start.run(replies.take(k)).pending()
        == Some(refusal_call(adapters, devices, k)) by {
        lemma_refusal_prefix(start, adapters, devices, replies, k);
    }
    lemma_refusal_prefix(start, adapters, devices, replies, replies.len() as int);
    assert(replies.take(replies.len() as int) =~= replies);
}

} // verus!
