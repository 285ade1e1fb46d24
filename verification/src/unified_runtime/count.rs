//! Counting the devices that the Unified Runtime offers.
//!
//! [`DeviceCount`] discovers and retains every device, releases the adapters
//! and then each discovered device, and reports how many there were.
//! [`PlatformDeviceCount`] walks the platforms of each adapter and adds up
//! the lengths of their device lists, releasing the adapters at the end or
//! on the first failure.

use vstd::prelude::*;

use super::calls::{pending_view, CallView, ReplyView, UrCall, UrReply};
use super::enumeration::{DeviceEnumeration, EnumerationView};
use super::result::{ur_result_t, UnifiedRuntimeError};
use super::setup::copy_handles;

verus! {

/// The mathematical form of a count result.
pub open spec fn count_result(r: Result<usize, UnifiedRuntimeError>) -> Result<nat, UnifiedRuntimeError> {
    match r {
        Ok(n) => Ok(n as nat),
        Err(e) => Err(e),
    }
}

/// The mathematical form of a discovery result.
pub open spec fn devices_result(r: Result<Vec<u64>, UnifiedRuntimeError>) -> Result<
    Seq<u64>,
    UnifiedRuntimeError,
> {
    match r {
        Ok(ds) => Ok(ds@),
        Err(e) => Err(e),
    }
}

/// Where a count by discovery stands.
pub enum CountPhase {
    InitLoader,
    GetAdapters,
    /// The devices of `adapters` are being discovered.
    Discover { adapters: Seq<u64>, discovery: EnumerationView },
    /// `adapters[index]` is to be released; then `outcome` of the discovery applies.
    ReleaseAdapters { adapters: Seq<u64>, index: int, outcome: Result<Seq<u64>, UnifiedRuntimeError> },
    /// The discovered `devices[index]` is to be released.
    ReleaseDevices { devices: Seq<u64>, index: int },
    Finished { outcome: Result<nat, UnifiedRuntimeError> },
}

impl CountPhase {
    pub open spec fn at_device_release(devices: Seq<u64>, index: int) -> CountPhase {
        if index < devices.len() {
            CountPhase::ReleaseDevices { devices, index }
        } else {
            CountPhase::Finished { outcome: Ok(devices.len()) }
        }
    }

    pub open spec fn at_adapter_release(
        adapters: Seq<u64>,
        index: int,
        outcome: Result<Seq<u64>, UnifiedRuntimeError>,
    ) -> CountPhase {
        if index < adapters.len() {
            CountPhase::ReleaseAdapters { adapters, index, outcome }
        } else {
            match outcome {
                Ok(devices) => Self::at_device_release(devices, 0),
                Err(e) => CountPhase::Finished { outcome: Err(e) },
            }
        }
    }

    pub open spec fn discovering(adapters: Seq<u64>, discovery: EnumerationView) -> CountPhase {
        match discovery.outcome() {
            Some(outcome) => Self::at_adapter_release(adapters, 0, outcome),
            None => CountPhase::Discover { adapters, discovery },
        }
    }

    pub open spec fn wf(self) -> bool {
        match self {
            CountPhase::Discover { adapters, discovery } => {
                &&& discovery.wf()
                &&& discovery.adapters == adapters
                &&& discovery.outcome() is None
            },
            CountPhase::ReleaseAdapters { adapters, index, .. } => 0 <= index < adapters.len(),
            CountPhase::ReleaseDevices { devices, index } => 0 <= index < devices.len(),
            _ => true,
        }
    }

    pub open spec fn pending(self) -> Option<CallView> {
        match self {
            CountPhase::InitLoader => Some(CallView::LoaderInit),
            CountPhase::GetAdapters => Some(CallView::AdapterGet),
            CountPhase::Discover { discovery, .. } => discovery.pending(),
            CountPhase::ReleaseAdapters { adapters, index, .. } => Some(
                CallView::AdapterRelease(adapters[index]),
            ),
            CountPhase::ReleaseDevices { devices, index } => Some(CallView::DeviceRelease(devices[index])),
            CountPhase::Finished { .. } => None,
        }
    }

    pub open spec fn after(self, reply: ReplyView) -> CountPhase {
        match self {
            CountPhase::InitLoader => match reply {
                ReplyView::Status(ur_result_t::UR_RESULT_SUCCESS) => CountPhase::GetAdapters,
                ReplyView::Status(code) => CountPhase::Finished { outcome: Err(UnifiedRuntimeError(code)) },
                _ => self,
            },
            CountPhase::GetAdapters => match reply {
                ReplyView::Handles(Ok(adapters)) => Self::discovering(
                    adapters,
                    EnumerationView::initial(adapters),
                ),
                ReplyView::Handles(Err(e)) => CountPhase::Finished { outcome: Err(e) },
                _ => self,
            },
            CountPhase::Discover { adapters, discovery } => Self::discovering(
                adapters,
                discovery.after(reply),
            ),
            CountPhase::ReleaseAdapters { adapters, index, outcome } => Self::at_adapter_release(
                adapters,
                index + 1,
                outcome,
            ),
            CountPhase::ReleaseDevices { devices, index } => Self::at_device_release(devices, index + 1),
            CountPhase::Finished { .. } => self,
        }
    }
}

enum CountStage {
    InitLoader,
    GetAdapters,
    Discover { adapters: Vec<u64>, discovery: DeviceEnumeration },
    ReleaseAdapters { adapters: Vec<u64>, index: usize, outcome: Result<Vec<u64>, UnifiedRuntimeError> },
    ReleaseDevices { devices: Vec<u64>, index: usize },
    Finished { outcome: Result<usize, UnifiedRuntimeError> },
}

impl CountStage {
    spec fn phase(&self) -> CountPhase {
        match self {
            CountStage::InitLoader => CountPhase::InitLoader,
            CountStage::GetAdapters => CountPhase::GetAdapters,
            CountStage::Discover { adapters, discovery } => CountPhase::Discover {
                adapters: adapters@,
                discovery: discovery@,
            },
            CountStage::ReleaseAdapters { adapters, index, outcome } => CountPhase::ReleaseAdapters {
                adapters: adapters@,
                index: *index as int,
                outcome: devices_result(*outcome),
            },
            CountStage::ReleaseDevices { devices, index } => CountPhase::ReleaseDevices {
                devices: devices@,
                index: *index as int,
            },
            CountStage::Finished { outcome } => CountPhase::Finished { outcome: count_result(*outcome) },
        }
    }

    spec fn inner_wf(&self) -> bool {
        match self {
            CountStage::Discover { discovery, .. } => discovery.wf(),
            _ => true,
        }
    }
}

fn count_at_device_release(devices: Vec<u64>, index: usize) -> (s: CountStage)
    ensures
        s.phase() == CountPhase::at_device_release(devices@, index as int),
        s.inner_wf(),
{
    if index < devices.len() {
        CountStage::ReleaseDevices { devices, index }
    } else {
        CountStage::Finished { outcome: Ok(devices.len()) }
    }
}

fn count_at_adapter_release(
    adapters: Vec<u64>,
    index: usize,
    outcome: Result<Vec<u64>, UnifiedRuntimeError>,
) -> (s: CountStage)
    ensures
        s.phase() == CountPhase::at_adapter_release(adapters@, index as int, devices_result(outcome)),
        s.inner_wf(),
{
    if index < adapters.len() {
        CountStage::ReleaseAdapters { adapters, index, outcome }
    } else {
        match outcome {
            Ok(devices) => count_at_device_release(devices, 0),
            Err(e) => CountStage::Finished { outcome: Err(e) },
        }
    }
}

fn count_discovering(adapters: Vec<u64>, discovery: DeviceEnumeration) -> (s: CountStage)
    requires
        discovery.wf(),
    ensures
        s.phase() == CountPhase::discovering(adapters@, discovery@),
        s.inner_wf(),
{
    if discovery.is_finished() {
        let outcome = discovery.finish();
        count_at_adapter_release(adapters, 0, outcome)
    } else {
        CountStage::Discover { adapters, discovery }
    }
}

/// Counting the devices by discovering them, driven one runtime call at a time.
pub struct DeviceCount {
    stage: CountStage,
}

impl View for DeviceCount {
    type V = CountPhase;

    closed spec fn view(&self) -> CountPhase {
        self.stage.phase()
    }
}

impl DeviceCount {
    pub closed spec fn wf(&self) -> bool {
        self@.wf() && self.stage.inner_wf()
    }

    /// Starts a count; the loader is initialised first.
    pub fn new() -> (c: Self)
        ensures
            c.wf(),
            c@ == CountPhase::InitLoader,
    {
        DeviceCount { stage: CountStage::InitLoader }
    }

    /// The call that the count needs next, or `None` once it has ended.
    pub fn next_call(&self) -> (call: Option<UrCall>)
        requires
            self.wf(),
        ensures
            pending_view(call) == self@.pending(),
    {
        match &self.stage {
            CountStage::InitLoader => Some(UrCall::LoaderInit),
            CountStage::GetAdapters => Some(UrCall::AdapterGet),
            CountStage::Discover { discovery, .. } => discovery.next_call(),
            CountStage::ReleaseAdapters { adapters, index, .. } => Some(
                UrCall::AdapterRelease(adapters[*index]),
            ),
            CountStage::ReleaseDevices { devices, index } => Some(UrCall::DeviceRelease(devices[*index])),
            CountStage::Finished { .. } => None,
        }
    }

    /// Whether the count has ended.
    pub fn is_finished(&self) -> (b: bool)
        ensures
            b <==> self@ is Finished,
    {
        matches!(self.stage, CountStage::Finished { .. })
    }

    /// Takes the runtime's answer to the pending call and moves on.
    pub fn resume(&mut self, reply: UrReply)
        requires
            old(self).wf(),
            old(self)@.pending() matches Some(call) && call.accepts(reply@),
        ensures
            final(self).wf(),
            final(self)@ == old(self)@.after(reply@),
    {
        let mut stage = CountStage::InitLoader;
        std::mem::swap(&mut stage, &mut self.stage);
        self.stage = match stage {
            CountStage::InitLoader => match reply {
                UrReply::Status(code) => match code.result() {
                    Ok(()) => CountStage::GetAdapters,
                    Err(e) => CountStage::Finished { outcome: Err(e) },
                },
                _ => CountStage::InitLoader,
            },
            CountStage::GetAdapters => match reply {
                UrReply::Handles(Ok(adapters)) => {
                    let discovery = DeviceEnumeration::new(copy_handles(&adapters));
                    count_discovering(adapters, discovery)
                },
                UrReply::Handles(Err(e)) => CountStage::Finished { outcome: Err(e) },
                _ => CountStage::GetAdapters,
            },
            CountStage::Discover { adapters, mut discovery } => {
                proof {
                    crate::unified_runtime::enumeration::lemma_enumeration_ownership(discovery@, reply@);
                }
                discovery.resume(reply);
                count_discovering(adapters, discovery)
            },
            CountStage::ReleaseAdapters { adapters, index, outcome } => {
                let _ = adapters.len();
                count_at_adapter_release(adapters, index + 1, outcome)
            },
            CountStage::ReleaseDevices { devices, index } => {
                let _ = devices.len();
                count_at_device_release(devices, index + 1)
            },
            CountStage::Finished { outcome } => CountStage::Finished { outcome },
        };
    }

    /// The number of devices, or the error that ended the count.
    pub fn finish(self) -> (r: Result<usize, UnifiedRuntimeError>)
        requires
            self.wf(),
            self@ is Finished,
        ensures
            self@ == (CountPhase::Finished { outcome: count_result(r) }),
    {
        match self.stage {
            CountStage::Finished { outcome } => outcome,
            _ => Ok(0),
        }
    }
}

/// Where a count over platform device lists stands.
pub enum PlatformCountPhase {
    InitLoader,
    GetAdapters,
    /// The platforms of `adapters[adapter]` are to be listed; `count` devices seen so far.
    ListPlatforms { adapters: Seq<u64>, adapter: int, count: nat },
    /// The devices of `platforms[platform]` are to be listed.
    ListDevices { adapters: Seq<u64>, adapter: int, platforms: Seq<u64>, platform: int, count: nat },
    /// `adapters[index]` is to be released before ending with `outcome`.
    ReleaseAdapters { adapters: Seq<u64>, index: int, outcome: Result<nat, UnifiedRuntimeError> },
    Finished { outcome: Result<nat, UnifiedRuntimeError> },
}

impl PlatformCountPhase {
    pub open spec fn at_release(
        adapters: Seq<u64>,
        index: int,
        outcome: Result<nat, UnifiedRuntimeError>,
    ) -> PlatformCountPhase {
        if index < adapters.len() {
            PlatformCountPhase::ReleaseAdapters { adapters, index, outcome }
        } else {
            PlatformCountPhase::Finished { outcome }
        }
    }

    pub open spec fn at_adapter(adapters: Seq<u64>, adapter: int, count: nat) -> PlatformCountPhase {
        if adapter < adapters.len() {
            PlatformCountPhase::ListPlatforms { adapters, adapter, count }
        } else {
            Self::at_release(adapters, 0, Ok(count))
        }
    }

    pub open spec fn at_platform(
        adapters: Seq<u64>,
        adapter: int,
        platforms: Seq<u64>,
        platform: int,
        count: nat,
    ) -> PlatformCountPhase {
        if platform < platforms.len() {
            PlatformCountPhase::ListDevices { adapters, adapter, platforms, platform, count }
        } else {
            Self::at_adapter(adapters, adapter + 1, count)
        }
    }

    pub open spec fn wf(self) -> bool {
        match self {
            PlatformCountPhase::ListPlatforms { adapters, adapter, count } => {
                &&& 0 <= adapter < adapters.len()
                &&& count <= usize::MAX
            },
            PlatformCountPhase::ListDevices { adapters, adapter, platforms, platform, count } => {
                &&& 0 <= adapter < adapters.len()
                &&& 0 <= platform < platforms.len()
                &&& count <= usize::MAX
            },
            PlatformCountPhase::ReleaseAdapters { adapters, index, outcome } => {
                &&& 0 <= index < adapters.len()
                &&& outcome matches Ok(n) ==> n <= usize::MAX
            },
            PlatformCountPhase::Finished { outcome } => outcome matches Ok(n) ==> n <= usize::MAX,
            _ => true,
        }
    }

    pub open spec fn pending(self) -> Option<CallView> {
        match self {
            PlatformCountPhase::InitLoader => Some(CallView::LoaderInit),
            PlatformCountPhase::GetAdapters => Some(CallView::AdapterGet),
            PlatformCountPhase::ListPlatforms { adapters, adapter, .. } => Some(
                CallView::PlatformGet(adapters[adapter]),
            ),
            PlatformCountPhase::ListDevices { platforms, platform, .. } => Some(
                CallView::DeviceGet(platforms[platform]),
            ),
            PlatformCountPhase::ReleaseAdapters { adapters, index, .. } => Some(
                CallView::AdapterRelease(adapters[index]),
            ),
            PlatformCountPhase::Finished { .. } => None,
        }
    }

    /// Whether adding the devices of `reply` keeps the count within `usize`.
    pub open spec fn fits(self, reply: ReplyView) -> bool {
        match (self, reply) {
            (PlatformCountPhase::ListDevices { count, .. }, ReplyView::Handles(Ok(ds))) => count
                + ds.len() <= usize::MAX,
            _ => true,
        }
    }

    pub open spec fn after(self, reply: ReplyView) -> PlatformCountPhase {
        match self {
            PlatformCountPhase::InitLoader => match reply {
                ReplyView::Status(ur_result_t::UR_RESULT_SUCCESS) => PlatformCountPhase::GetAdapters,
                ReplyView::Status(code) => PlatformCountPhase::Finished {
                    outcome: Err(UnifiedRuntimeError(code)),
                },
                _ => self,
            },
            PlatformCountPhase::GetAdapters => match reply {
                ReplyView::Handles(Ok(adapters)) => if adapters.len() == 0 {
                    PlatformCountPhase::Finished { outcome: Ok(0) }
                } else {
                    PlatformCountPhase::ListPlatforms { adapters, adapter: 0, count: 0 }
                },
                ReplyView::Handles(Err(e)) => PlatformCountPhase::Finished { outcome: Err(e) },
                _ => self,
            },
            PlatformCountPhase::ListPlatforms { adapters, adapter, count } => match reply {
                ReplyView::Handles(Ok(platforms)) => Self::at_platform(adapters, adapter, platforms, 0, count),
                ReplyView::Handles(Err(e)) => Self::at_release(adapters, 0, Err(e)),
                _ => self,
            },
            PlatformCountPhase::ListDevices { adapters, adapter, platforms, platform, count } => match reply {
                ReplyView::Handles(Ok(ds)) => Self::at_platform(
                    adapters,
                    adapter,
                    platforms,
                    platform + 1,
                    count + ds.len(),
                ),
                ReplyView::Handles(Err(e)) => Self::at_release(adapters, 0, Err(e)),
                _ => self,
            },
            PlatformCountPhase::ReleaseAdapters { adapters, index, outcome } => Self::at_release(
                adapters,
                index + 1,
                outcome,
            ),
            PlatformCountPhase::Finished { .. } => self,
        }
    }
}

enum PlatformCountStage {
    InitLoader,
    GetAdapters,
    ListPlatforms { adapters: Vec<u64>, adapter: usize, count: usize },
    ListDevices { adapters: Vec<u64>, adapter: usize, platforms: Vec<u64>, platform: usize, count: usize },
    ReleaseAdapters { adapters: Vec<u64>, index: usize, outcome: Result<usize, UnifiedRuntimeError> },
    Finished { outcome: Result<usize, UnifiedRuntimeError> },
}

impl PlatformCountStage {
    spec fn phase(&self) -> PlatformCountPhase {
        match self {
            PlatformCountStage::InitLoader => PlatformCountPhase::InitLoader,
            PlatformCountStage::GetAdapters => PlatformCountPhase::GetAdapters,
            PlatformCountStage::ListPlatforms { adapters, adapter, count } => PlatformCountPhase::ListPlatforms {
                adapters: adapters@,
                adapter: *adapter as int,
                count: *count as nat,
            },
            PlatformCountStage::ListDevices { adapters, adapter, platforms, platform, count } => PlatformCountPhase::ListDevices {
                adapters: adapters@,
                adapter: *adapter as int,
                platforms: platforms@,
                platform: *platform as int,
                count: *count as nat,
            },
            PlatformCountStage::ReleaseAdapters { adapters, index, outcome } => PlatformCountPhase::ReleaseAdapters {
                adapters: adapters@,
                index: *index as int,
                outcome: count_result(*outcome),
            },
            PlatformCountStage::Finished { outcome } => PlatformCountPhase::Finished {
                outcome: count_result(*outcome),
            },
        }
    }
}

fn platform_count_at_release(
    adapters: Vec<u64>,
    index: usize,
    outcome: Result<usize, UnifiedRuntimeError>,
) -> (s: PlatformCountStage)
    ensures
        s.phase() == PlatformCountPhase::at_release(adapters@, index as int, count_result(outcome)),
{
    if index < adapters.len() {
        PlatformCountStage::ReleaseAdapters { adapters, index, outcome }
    } else {
        PlatformCountStage::Finished { outcome }
    }
}

fn platform_count_at_adapter(adapters: Vec<u64>, adapter: usize, count: usize) -> (s: PlatformCountStage)
    requires
        adapter <= adapters.len(),
    ensures
        s.phase() == PlatformCountPhase::at_adapter(adapters@, adapter as int, count as nat),
{
    if adapter < adapters.len() {
        PlatformCountStage::ListPlatforms { adapters, adapter, count }
    } else {
        platform_count_at_release(adapters, 0, Ok(count))
    }
}

fn platform_count_at_platform(
    adapters: Vec<u64>,
    adapter: usize,
    platforms: Vec<u64>,
    platform: usize,
    count: usize,
) -> (s: PlatformCountStage)
    requires
        adapter < adapters.len(),
    ensures
        s.phase() == PlatformCountPhase::at_platform(
            adapters@,
            adapter as int,
            platforms@,
            platform as int,
            count as nat,
        ),
{
    if platform < platforms.len() {
        PlatformCountStage::ListDevices { adapters, adapter, platforms, platform, count }
    } else {
        platform_count_at_adapter(adapters, adapter + 1, count)
    }
}

/// Counting the devices by adding up the device lists of every platform,
/// driven one runtime call at a time.
pub struct PlatformDeviceCount {
    stage: PlatformCountStage,
}

impl View for PlatformDeviceCount {
    type V = PlatformCountPhase;

    closed spec fn view(&self) -> PlatformCountPhase {
        self.stage.phase()
    }
}

impl PlatformDeviceCount {
    pub closed spec fn wf(&self) -> bool {
        self@.wf()
    }

    /// Starts a count; the loader is initialised first.
    pub fn new() -> (c: Self)
        ensures
            c.wf(),
            c@ == PlatformCountPhase::InitLoader,
    {
        PlatformDeviceCount { stage: PlatformCountStage::InitLoader }
    }

    /// The call that the count needs next, or `None` once it has ended.
    pub fn next_call(&self) -> (call: Option<UrCall>)
        requires
            self.wf(),
        ensures
            pending_view(call) == self@.pending(),
    {
        match &self.stage {
            PlatformCountStage::InitLoader => Some(UrCall::LoaderInit),
            PlatformCountStage::GetAdapters => Some(UrCall::AdapterGet),
            PlatformCountStage::ListPlatforms { adapters, adapter, .. } => Some(
                UrCall::PlatformGet(adapters[*adapter]),
            ),
            PlatformCountStage::ListDevices { platforms, platform, .. } => Some(
                UrCall::DeviceGet(platforms[*platform]),
            ),
            PlatformCountStage::ReleaseAdapters { adapters, index, .. } => Some(
                UrCall::AdapterRelease(adapters[*index]),
            ),
            PlatformCountStage::Finished { .. } => None,
        }
    }

    /// Whether the count has ended.
    pub fn is_finished(&self) -> (b: bool)
        ensures
            b <==> self@ is Finished,
    {
        matches!(self.stage, PlatformCountStage::Finished { .. })
    }

    /// Whether adding the devices of `reply` keeps the count within `usize`.
    pub fn fits(&self, reply: &UrReply) -> (b: bool)
        requires
            self.wf(),
        ensures
            b == self@.fits(reply@),
    {
        match (&self.stage, reply) {
            (PlatformCountStage::ListDevices { count, .. }, UrReply::Handles(Ok(ds))) => ds.len() <= usize::MAX
                - *count,
            _ => true,
        }
    }

    /// Takes the runtime's answer to the pending call and moves on.
    pub fn resume(&mut self, reply: UrReply)
        requires
            old(self).wf(),
            old(self)@.pending() matches Some(call) && call.accepts(reply@),
            old(self)@.fits(reply@),
        ensures
            final(self).wf(),
            final(self)@ == old(self)@.after(reply@),
    {
        let mut stage = PlatformCountStage::InitLoader;
        std::mem::swap(&mut stage, &mut self.stage);
        self.stage = match stage {
            PlatformCountStage::InitLoader => match reply {
                UrReply::Status(code) => match code.result() {
                    Ok(()) => PlatformCountStage::GetAdapters,
                    Err(e) => PlatformCountStage::Finished { outcome: Err(e) },
                },
                _ => PlatformCountStage::InitLoader,
            },
            PlatformCountStage::GetAdapters => match reply {
                UrReply::Handles(Ok(adapters)) => {
                    if adapters.len() == 0 {
                        PlatformCountStage::Finished { outcome: Ok(0) }
                    } else {
                        PlatformCountStage::ListPlatforms { adapters, adapter: 0, count: 0 }
                    }
                },
                UrReply::Handles(Err(e)) => PlatformCountStage::Finished { outcome: Err(e) },
                _ => PlatformCountStage::GetAdapters,
            },
            PlatformCountStage::ListPlatforms { adapters, adapter, count } => match reply {
                UrReply::Handles(Ok(platforms)) => platform_count_at_platform(
                    adapters,
                    adapter,
                    platforms,
                    0,
                    count,
                ),
                UrReply::Handles(Err(e)) => platform_count_at_release(adapters, 0, Err(e)),
                _ => PlatformCountStage::ListPlatforms { adapters, adapter, count },
            },
            PlatformCountStage::ListDevices { adapters, adapter, platforms, platform, count } => match reply {
                UrReply::Handles(Ok(ds)) => {
                    let _ = platforms.len();
                    platform_count_at_platform(
                    adapters,
                    adapter,
                    platforms,
                    platform + 1,
                    count + ds.len(),
                )
                },
                UrReply::Handles(Err(e)) => platform_count_at_release(adapters, 0, Err(e)),
                _ => PlatformCountStage::ListDevices { adapters, adapter, platforms, platform, count },
            },
            PlatformCountStage::ReleaseAdapters { adapters, index, outcome } => {
                let _ = adapters.len();
                platform_count_at_release(adapters, index + 1, outcome)
            },
            PlatformCountStage::Finished { outcome } => PlatformCountStage::Finished { outcome },
        };
    }

    /// The number of devices, or the error that ended the count.
    pub fn finish(self) -> (r: Result<usize, UnifiedRuntimeError>)
        requires
            self.wf(),
            self@ is Finished,
        ensures
            self@ == (PlatformCountPhase::Finished { outcome: count_result(r) }),
    {
        match self.stage {
            PlatformCountStage::Finished { outcome } => outcome,
            _ => Ok(0),
        }
    }
}

} // verus!

verus! {

/// Counting and creating by ordinal agree: over the same finished
/// discovery, the count reports the number of discovered devices (once the
/// adapters and devices are released), and a context setup goes on to
/// create a context exactly when its ordinal is below that number.
pub proof fn lemma_count_bounds_ordinals(
    ordinal: nat,
    adapters: Seq<u64>,
    discovery: EnumerationView,
)
    requires
        discovery.wf(),
        discovery.outcome() is Some,
        discovery.adapters == adapters,
    ensures
        discovery.outcome() matches Some(Ok(devices)) ==> {
            &&& CountPhase::discovering(adapters, discovery) == CountPhase::at_adapter_release(
                adapters,
                0,
                Ok(devices),
            )
            &&& CountPhase::at_device_release(devices, devices.len() as int) == (CountPhase::Finished {
                outcome: Ok(devices.len()),
            })
            &&& (crate::unified_runtime::setup::SetupView::after_discovery(ordinal, adapters, discovery) is Create
                <==> ordinal < devices.len())
        },
        discovery.outcome() matches Some(Err(e)) ==> crate::unified_runtime::setup::SetupView::after_discovery(
            ordinal,
            adapters,
            discovery,
        ) == (crate::unified_runtime::setup::SetupPhase::Finished { outcome: Err(e) }),
{
}

} // verus!

verus! {

impl PlatformCountPhase {
    /// The state after the runtime answered each of `replies`, in order.
    pub open spec fn run(self, replies: Seq<ReplyView>) -> PlatformCountPhase
        decreases replies.len(),
    {
        if replies.len() == 0 {
            self
        } else {
            self.run(replies.drop_last()).after(replies.last())
        }
    }
}

/// The number of devices the runtime listed in answer to device queries
/// among the first `n` of `replies`, for a count started in `start`.
pub open spec fn listed_device_count(start: PlatformCountPhase, replies: Seq<ReplyView>, n: nat) -> nat
    decreases n,
{
    if n == 0 {
        0
    } else {
        let k = n - 1;
        listed_device_count(start, replies, (n - 1) as nat) + match (
            start.run(replies.take(k)).pending(),
            replies[k],
        ) {
            (Some(CallView::DeviceGet(_)), ReplyView::Handles(Ok(ds))) => ds.len(),
            _ => 0nat,
        }
    }
}

/// Whether the running total of a count state is `total`.
spec fn counted_so_far(p: PlatformCountPhase, total: nat) -> bool {
    match p {
        PlatformCountPhase::InitLoader => total == 0,
        PlatformCountPhase::GetAdapters => total == 0,
        PlatformCountPhase::ListPlatforms { count, .. } => count == total,
        PlatformCountPhase::ListDevices { count, .. } => count == total,
        PlatformCountPhase::ReleaseAdapters { outcome: Ok(c), .. } => c == total,
        PlatformCountPhase::Finished { outcome: Ok(c) } => c == total,
        _ => true,
    }
}

proof fn lemma_platform_count_prefix(replies: Seq<ReplyView>, k: int)
    requires
        0 <= k <= replies.len(),
    ensures
        counted_so_far(
            PlatformCountPhase::InitLoader.run(replies.take(k)),
            listed_device_count(PlatformCountPhase::InitLoader, replies, k as nat),
        ),
    decreases k,
{
    if k > 0 {
        lemma_platform_count_prefix(replies, k - 1);
        assert(replies.take(k).drop_last() =~= replies.take(k - 1));
        assert(replies.take(k).last() == replies[k - 1]);
    } else {
        assert(replies.take(0) =~= Seq::<ReplyView>::empty());
    }
}

/// A count that ends with a number reports exactly the total length of the
/// device lists the runtime returned, over every platform of every adapter,
/// whatever the runtime answered.
pub proof fn lemma_platform_count_sums_device_lists(replies: Seq<ReplyView>)
    ensures
        PlatformCountPhase::InitLoader.run(replies) matches PlatformCountPhase::Finished { outcome: Ok(n) }
            ==> n == listed_device_count(PlatformCountPhase::InitLoader, replies, replies.len()),
{
    lemma_platform_count_prefix(replies, replies.len() as int);
    assert(replies.take(replies.len() as int) =~= replies);
}

} // verus!
