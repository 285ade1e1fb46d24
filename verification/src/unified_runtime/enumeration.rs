//! Device discovery across adapters and platforms.
//!
//! For each adapter in turn the platforms are listed; for each platform every
//! device is listed and each device is retained before it is kept. A failed
//! device listing releases the devices kept so far; a failed platform listing
//! or a failed retain ends the discovery at once.

use vstd::prelude::*;

use super::calls::{pending_view, status_error, CallView, ReplyView, UrCall, UrReply};
use super::result::{ur_result_t, UnifiedRuntimeError};

verus! {

/// Where a device discovery stands.
pub enum EnumerationPhase {
    /// The platforms of `adapters[adapter]` are to be listed.
    ListPlatforms { adapter: int },
    /// The devices of `platforms[platform]` are to be listed.
    ListDevices { adapter: int, platforms: Seq<u64>, platform: int },
    /// `found[index]` is to be retained.
    Retain { adapter: int, platforms: Seq<u64>, platform: int, found: Seq<u64>, index: int },
    /// After `error`, `devices[index]` is to be released.
    Release { error: UnifiedRuntimeError, index: int },
    /// The discovery has ended; `released` tells whether the kept devices were released.
    Finished { failure: Option<UnifiedRuntimeError>, released: bool },
}

/// The mathematical state of a device discovery.
pub struct EnumerationView {
    pub adapters: Seq<u64>,
    /// The devices retained and kept so far, in discovery order.
    pub devices: Seq<u64>,
    pub phase: EnumerationPhase,
}

impl EnumerationView {
    /// Moves on to `adapters[adapter]`, or ends when there is none.
    pub open spec fn at_adapter(adapters: Seq<u64>, adapter: int) -> EnumerationPhase {
        if adapter < adapters.len() {
            EnumerationPhase::ListPlatforms { adapter }
        } else {
            EnumerationPhase::Finished { failure: None, released: false }
        }
    }

    /// Moves on to `platforms[platform]`, or to the next adapter.
    pub open spec fn at_platform(
        adapters: Seq<u64>,
        adapter: int,
        platforms: Seq<u64>,
        platform: int,
    ) -> EnumerationPhase {
        if platform < platforms.len() {
            EnumerationPhase::ListDevices { adapter, platforms, platform }
        } else {
            Self::at_adapter(adapters, adapter + 1)
        }
    }

    /// Moves on to `found[index]`, or to the next platform.
    pub open spec fn at_device(
        adapters: Seq<u64>,
        adapter: int,
        platforms: Seq<u64>,
        platform: int,
        found: Seq<u64>,
        index: int,
    ) -> EnumerationPhase {
        if index < found.len() {
            EnumerationPhase::Retain { adapter, platforms, platform, found, index }
        } else {
            Self::at_platform(adapters, adapter, platforms, platform + 1)
        }
    }

    /// Moves on to releasing `devices[index]`, or ends with `error`.
    pub open spec fn at_release(
        error: UnifiedRuntimeError,
        devices: Seq<u64>,
        index: int,
    ) -> EnumerationPhase {
        if index < devices.len() {
            EnumerationPhase::Release { error, index }
        } else {
            EnumerationPhase::Finished { failure: Some(error), released: true }
        }
    }

    /// The state at the start of a discovery over `adapters`.
    pub open spec fn initial(adapters: Seq<u64>) -> EnumerationView {
        EnumerationView {
            adapters,
            devices: Seq::empty(),
            phase: Self::at_adapter(adapters, 0),
        }
    }

    /// The indices of the phase lie within their sequences.
    pub open spec fn wf(self) -> bool {
        match self.phase {
            EnumerationPhase::ListPlatforms { adapter } => 0 <= adapter < self.adapters.len(),
            EnumerationPhase::ListDevices { adapter, platforms, platform } => {
                &&& 0 <= adapter < self.adapters.len()
                &&& 0 <= platform < platforms.len()
            },
            EnumerationPhase::Retain { adapter, platforms, platform, found, index } => {
                &&& 0 <= adapter < self.adapters.len()
                &&& 0 <= platform < platforms.len()
                &&& 0 <= index < found.len()
            },
            EnumerationPhase::Release { index, .. } => 0 <= index < self.devices.len(),
            EnumerationPhase::Finished { failure, released } => released ==> failure is Some,
        }
    }

    /// The call that the discovery needs next; `None` once it has ended.
    pub open spec fn pending(self) -> Option<CallView> {
        match self.phase {
            EnumerationPhase::ListPlatforms { adapter } => Some(
                CallView::PlatformGet(self.adapters[adapter]),
            ),
            EnumerationPhase::ListDevices { platforms, platform, .. } => Some(
                CallView::DeviceGet(platforms[platform]),
            ),
            EnumerationPhase::Retain { found, index, .. } => Some(
                CallView::DeviceRetain(found[index]),
            ),
            EnumerationPhase::Release { index, .. } => Some(
                CallView::DeviceRelease(self.devices[index]),
            ),
            EnumerationPhase::Finished { .. } => None,
        }
    }

    /// The state after the runtime answered the pending call with `reply`.
    pub open spec fn after(self, reply: ReplyView) -> EnumerationView {
        match self.phase {
            EnumerationPhase::ListPlatforms { adapter } => match reply {
                ReplyView::Handles(Ok(platforms)) => EnumerationView {
                    phase: Self::at_platform(self.adapters, adapter, platforms, 0),
                    ..self
                },
                ReplyView::Handles(Err(error)) => EnumerationView {
                    phase: EnumerationPhase::Finished { failure: Some(error), released: false },
                    ..self
                },
                _ => self,
            },
            EnumerationPhase::ListDevices { adapter, platforms, platform } => match reply {
                ReplyView::Handles(Ok(found)) => EnumerationView {
                    phase: Self::at_device(self.adapters, adapter, platforms, platform, found, 0),
                    ..self
                },
                ReplyView::Handles(Err(error)) => EnumerationView {
                    phase: Self::at_release(error, self.devices, 0),
                    ..self
                },
                _ => self,
            },
            EnumerationPhase::Retain { adapter, platforms, platform, found, index } => match reply {
                ReplyView::Status(code) => match status_error(code) {
                    None => EnumerationView {
                        devices: self.devices.push(found[index]),
                        phase: Self::at_device(
                            self.adapters,
                            adapter,
                            platforms,
                            platform,
                            found,
                            index + 1,
                        ),
                        ..self
                    },
                    Some(error) => EnumerationView {
                        phase: EnumerationPhase::Finished { failure: Some(error), released: false },
                        ..self
                    },
                },
                _ => self,
            },
            EnumerationPhase::Release { error, index } => match reply {
                ReplyView::Status(_) => EnumerationView {
                    phase: Self::at_release(error, self.devices, index + 1),
                    ..self
                },
                _ => self,
            },
            EnumerationPhase::Finished { .. } => self,
        }
    }

    /// The result of an ended discovery; `None` while it runs.
    pub open spec fn outcome(self) -> Option<Result<Seq<u64>, UnifiedRuntimeError>> {
        match self.phase {
            EnumerationPhase::Finished { failure: None, .. } => Some(Ok(self.devices)),
            EnumerationPhase::Finished { failure: Some(e), .. } => Some(Err(e)),
            _ => None,
        }
    }

    /// The devices on which the discovery holds a reference it took and has
    /// not yet dropped.
    pub open spec fn owned(self) -> Seq<u64> {
        match self.phase {
            EnumerationPhase::Release { index, .. } => self.devices.skip(index),
            EnumerationPhase::Finished { released: true, .. } => Seq::empty(),
            _ => self.devices,
        }
    }
}

/// Where a running device discovery stands, with owned handle lists.
enum Stage {
    ListPlatforms { adapter: usize },
    ListDevices { adapter: usize, platforms: Vec<u64>, platform: usize },
    Retain { adapter: usize, platforms: Vec<u64>, platform: usize, found: Vec<u64>, index: usize },
    Release { error: UnifiedRuntimeError, index: usize },
    Finished { failure: Option<UnifiedRuntimeError>, released: bool },
}

impl Stage {
    spec fn phase(&self) -> EnumerationPhase {
        match self {
            Stage::ListPlatforms { adapter } => EnumerationPhase::ListPlatforms {
                adapter: *adapter as int,
            },
            Stage::ListDevices { adapter, platforms, platform } => EnumerationPhase::ListDevices {
                adapter: *adapter as int,
                platforms: platforms@,
                platform: *platform as int,
            },
            Stage::Retain { adapter, platforms, platform, found, index } => EnumerationPhase::Retain {
                adapter: *adapter as int,
                platforms: platforms@,
                platform: *platform as int,
                found: found@,
                index: *index as int,
            },
            Stage::Release { error, index } => EnumerationPhase::Release {
                error: *error,
                index: *index as int,
            },
            Stage::Finished { failure, released } => EnumerationPhase::Finished {
                failure: *failure,
                released: *released,
            },
        }
    }
}

/// A device discovery over a list of adapters, driven one runtime call at a time.
///
/// The caller asks [`DeviceEnumeration::next_call`] for the call to make,
/// makes it, and hands the answer to [`DeviceEnumeration::resume`], until no
/// call is left; [`DeviceEnumeration::finish`] then gives the retained devices.
pub struct DeviceEnumeration {
    adapters: Vec<u64>,
    devices: Vec<u64>,
    stage: Stage,
}

impl View for DeviceEnumeration {
    type V = EnumerationView;

    closed spec fn view(&self) -> EnumerationView {
        EnumerationView { adapters: self.adapters@, devices: self.devices@, phase: self.stage.phase() }
    }
}

fn stage_at_adapter(adapters: &Vec<u64>, adapter: usize) -> (s: Stage)
    requires
        adapter <= adapters.len(),
    ensures
        s.phase() == EnumerationView::at_adapter(adapters@, adapter as int),
{
    if adapter < adapters.len() {
        Stage::ListPlatforms { adapter }
    } else {
        Stage::Finished { failure: None, released: false }
    }
}

fn stage_at_platform(adapters: &Vec<u64>, adapter: usize, platforms: Vec<u64>, platform: usize) -> (s: Stage)
    requires
        adapter < adapters.len(),
        platform <= platforms.len(),
    ensures
        s.phase() == EnumerationView::at_platform(adapters@, adapter as int, platforms@, platform as int),
{
    if platform < platforms.len() {
        Stage::ListDevices { adapter, platforms, platform }
    } else {
        stage_at_adapter(adapters, adapter + 1)
    }
}

fn stage_at_device(
    adapters: &Vec<u64>,
    adapter: usize,
    platforms: Vec<u64>,
    platform: usize,
    found: Vec<u64>,
    index: usize,
) -> (s: Stage)
    requires
        adapter < adapters.len(),
        platform < platforms.len(),
        index <= found.len(),
    ensures
        s.phase() == EnumerationView::at_device(
            adapters@,
            adapter as int,
            platforms@,
            platform as int,
            found@,
            index as int,
        ),
{
    if index < found.len() {
        Stage::Retain { adapter, platforms, platform, found, index }
    } else {
        stage_at_platform(adapters, adapter, platforms, platform + 1)
    }
}

fn stage_at_release(error: UnifiedRuntimeError, devices: &Vec<u64>, index: usize) -> (s: Stage)
    requires
        index <= devices.len(),
    ensures
        s.phase() == EnumerationView::at_release(error, devices@, index as int),
{
    if index < devices.len() {
        Stage::Release { error, index }
    } else {
        Stage::Finished { failure: Some(error), released: true }
    }
}

impl DeviceEnumeration {
    /// The well-formedness of the running discovery.
    pub closed spec fn wf(&self) -> bool {
        self@.wf()
    }

    /// Starts a discovery over `adapters`, in their order.
    pub fn new(adapters: Vec<u64>) -> (e: Self)
        ensures
            e.wf(),
            e@ == EnumerationView::initial(adapters@),
    {
        let stage = stage_at_adapter(&adapters, 0);
        DeviceEnumeration { adapters, devices: Vec::new(), stage }
    }

    /// The call that the discovery needs next, or `None` once it has ended.
    pub fn next_call(&self) -> (call: Option<UrCall>)
        requires
            self.wf(),
        ensures
            pending_view(call) == self@.pending(),
    {
        match &self.stage {
            Stage::ListPlatforms { adapter } => Some(UrCall::PlatformGet(self.adapters[*adapter])),
            Stage::ListDevices { platforms, platform, .. } => Some(
                UrCall::DeviceGet(platforms[*platform]),
            ),
            Stage::Retain { found, index, .. } => Some(UrCall::DeviceRetain(found[*index])),
            Stage::Release { index, .. } => Some(UrCall::DeviceRelease(self.devices[*index])),
            Stage::Finished { .. } => None,
        }
    }

    /// Whether the discovery has ended.
    pub fn is_finished(&self) -> (b: bool)
        ensures
            b <==> self@.phase is Finished,
    {
        matches!(self.stage, Stage::Finished { .. })
    }

    /// Takes the runtime's answer to the pending call and moves on.
    pub fn resume(&mut self, reply: UrReply)
        requires
            old(self).wf(),
            old(self)@.pending() matches Some(call) && call.accepts(reply@),
        ensures
            final(self).wf(),
            final(self)@ == old(self)@.after(reply@),
    {
        let mut stage = Stage::Finished { failure: None, released: false };
        std::mem::swap(&mut stage, &mut self.stage);
        match stage {
            Stage::ListPlatforms { adapter } => match reply {
                UrReply::Handles(Ok(platforms)) => {
                    self.stage = stage_at_platform(&self.adapters, adapter, platforms, 0);
                },
                UrReply::Handles(Err(error)) => {
                    self.stage = Stage::Finished { failure: Some(error), released: false };
                },
                _ => {
                    self.stage = Stage::ListPlatforms { adapter };
                },
            },
            Stage::ListDevices { adapter, platforms, platform } => match reply {
                UrReply::Handles(Ok(found)) => {
                    self.stage = stage_at_device(&self.adapters, adapter, platforms, platform, found, 0);
                },
                UrReply::Handles(Err(error)) => {
                    self.stage = stage_at_release(error, &self.devices, 0);
                },
                _ => {
                    self.stage = Stage::ListDevices { adapter, platforms, platform };
                },
            },
            Stage::Retain { adapter, platforms, platform, found, index } => match reply {
                UrReply::Status(code) => match code.result() {
                    Ok(()) => {
                        let _ = found.len();
                        self.devices.push(found[index]);
                        self.stage = stage_at_device(
                            &self.adapters,
                            adapter,
                            platforms,
                            platform,
                            found,
                            index + 1,
                        );
                    },
                    Err(error) => {
                        self.stage = Stage::Finished { failure: Some(error), released: false };
                    },
                },
                _ => {
                    self.stage = Stage::Retain { adapter, platforms, platform, found, index };
                },
            },
            Stage::Release { error, index } => {
                let _ = self.devices.len();
                self.stage = stage_at_release(error, &self.devices, index + 1);
            },
            Stage::Finished { failure, released } => {
                self.stage = Stage::Finished { failure, released };
            },
        }
    }

    /// The result of an ended discovery: the retained devices in discovery
    /// order, or the error that ended it.
    pub fn finish(self) -> (r: Result<Vec<u64>, UnifiedRuntimeError>)
        requires
            self.wf(),
            self@.phase is Finished,
        ensures
            self@.outcome() == Some(
                match r {
                    Ok(ds) => Ok(ds@),
                    Err(e) => Err::<Seq<u64>, UnifiedRuntimeError>(e),
                },
            ),
    {
        match self.stage {
            Stage::Finished { failure: Some(e), .. } => Err(e),
            _ => Ok(self.devices),
        }
    }
}

/// Ownership changes only through the calls the discovery makes: a retain
/// that succeeds adds the retained device to what the discovery holds, a
/// release drops the first device held, and every other answer leaves the
/// holdings as they were.
pub proof fn lemma_enumeration_ownership(v: EnumerationView, reply: ReplyView)
    requires
        v.wf(),
        v.pending() matches Some(call) && call.accepts(reply),
    ensures
        v.after(reply).wf(),
        match v.pending() {
            Some(CallView::DeviceRetain(d)) => match reply {
                ReplyView::Status(ur_result_t::UR_RESULT_SUCCESS) => v.after(reply).owned() == v.owned().push(d),
                _ => v.after(reply).owned() == v.owned(),
            },
            Some(CallView::DeviceRelease(d)) => {
                &&& v.owned().len() > 0
                &&& v.owned()[0] == d
                &&& v.after(reply).owned() == v.owned().drop_first()
            },
            _ => v.after(reply).owned() == v.owned(),
        },
{
    match v.phase {
        EnumerationPhase::Release { error, index } => {
            assert(v.devices.skip(index).drop_first() =~= v.devices.skip(index + 1));
        },
        _ => {},
    }
}

/// A discovery that ends successfully holds exactly the devices it returns;
/// one that ends after a failed device listing holds nothing.
pub proof fn lemma_enumeration_final_ownership(v: EnumerationView)
    requires
        v.wf(),
        v.phase is Finished,
    ensures
        v.outcome() matches Some(Ok(ds)) ==> v.owned() == ds,
        v.phase matches EnumerationPhase::Finished { released: true, .. } ==> v.owned().len() == 0,
{
}

} // verus!

verus! {

impl EnumerationView {
    /// The state after the runtime answered each of `replies`, in order.
    pub open spec fn run(self, replies: Seq<ReplyView>) -> EnumerationView
        decreases replies.len(),
    {
        if replies.len() == 0 {
            self
        } else {
            self.run(replies.drop_last()).after(replies.last())
        }
    }
}

/// The devices the runtime listed in answer to device queries among the
/// first `n` of `replies`, one list after another, for a discovery started
/// in `start`.
pub open spec fn listed_devices(start: EnumerationView, replies: Seq<ReplyView>, n: nat) -> Seq<u64>
    decreases n,
{
    if n == 0 {
        Seq::empty()
    } else {
        let k = n - 1;
        listed_devices(start, replies, (n - 1) as nat) + match (
            start.run(replies.take(k)).pending(),
            replies[k],
        ) {
            (Some(CallView::DeviceGet(_)), ReplyView::Handles(Ok(ds))) => ds,
            _ => Seq::<u64>::empty(),
        }
    }
}

/// Whether the devices kept by `v`, with those of the current list still
/// to be retained, are `listed`.
spec fn gathered_so_far(v: EnumerationView, listed: Seq<u64>) -> bool {
    match v.phase {
        EnumerationPhase::ListPlatforms { .. } => v.devices == listed,
        EnumerationPhase::ListDevices { .. } => v.devices == listed,
        EnumerationPhase::Retain { found, index, .. } => {
            &&& 0 <= index < found.len()
            &&& v.devices + found.skip(index) == listed
        },
        EnumerationPhase::Finished { failure: None, .. } => v.devices == listed,
        _ => true,
    }
}

proof fn lemma_discovery_prefix(adapters: Seq<u64>, replies: Seq<ReplyView>, k: int)
    requires
        0 <= k <= replies.len(),
    ensures
        gathered_so_far(
            EnumerationView::initial(adapters).run(replies.take(k)),
            listed_devices(EnumerationView::initial(adapters), replies, k as nat),
        ),
    decreases k,
{
    let start = EnumerationView::initial(adapters);
    if k > 0 {
        lemma_discovery_prefix(adapters, replies, k - 1);
        assert(replies.take(k).drop_last() =~= replies.take(k - 1));
        assert(replies.take(k).last() == replies[k - 1]);
        let v = start.run(replies.take(k - 1));
        let before = listed_devices(start, replies, (k - 1) as nat);
        match v.phase {
            EnumerationPhase::ListDevices { .. } => {
                if let ReplyView::Handles(Ok(found)) = replies[k - 1] {
                    assert(found.skip(0) =~= found);
                    assert(before + Seq::<u64>::empty() =~= before);
                }
            },
            EnumerationPhase::Retain { found, index, .. } => {
                assert(found.skip(index) =~= seq![found[index]] + found.skip(index + 1));
                assert(v.devices.push(found[index]) + found.skip(index + 1) =~= v.devices + found.skip(
                    index,
                ));
                assert(found.skip(found.len() as int) =~= Seq::<u64>::empty());
                assert(before + Seq::<u64>::empty() =~= before);
                assert(v.devices.push(found[index]) + Seq::<u64>::empty() =~= v.devices.push(found[index]));
            },
            _ => {
                assert(before + Seq::<u64>::empty() =~= before);
            },
        }
    } else {
        assert(replies.take(0) =~= Seq::<ReplyView>::empty());
    }
}

/// A discovery that ends successfully keeps every device the runtime
/// listed, over every platform of every adapter, in the order listed:
/// exactly the listed devices, one list after another.
pub proof fn lemma_discovery_keeps_every_listed_device(adapters: Seq<u64>, replies: Seq<ReplyView>)
    ensures
        EnumerationView::initial(adapters).run(replies).outcome() matches Some(Ok(ds)) ==> ds
            == listed_devices(EnumerationView::initial(adapters), replies, replies.len()),
{
    lemma_discovery_prefix(adapters, replies, replies.len() as int);
    assert(replies.take(replies.len() as int) =~= replies);
}


/// The devices on which the runtime answered a retain with success among
/// the first `n` of `replies`, in order, for a discovery started in `start`.
pub open spec fn retained_devices(start: EnumerationView, replies: Seq<ReplyView>, n: nat) -> Seq<u64>
    decreases n,
{
    if n == 0 {
        Seq::empty()
    } else {
        let k = n - 1;
        retained_devices(start, replies, (n - 1) as nat) + match (
            start.run(replies.take(k)).pending(),
            replies[k],
        ) {
            (Some(CallView::DeviceRetain(d)), ReplyView::Status(ur_result_t::UR_RESULT_SUCCESS)) => seq![d],
            _ => Seq::<u64>::empty(),
        }
    }
}

proof fn lemma_retained_prefix(adapters: Seq<u64>, replies: Seq<ReplyView>, k: int)
    requires
        0 <= k <= replies.len(),
    ensures
        EnumerationView::initial(adapters).run(replies.take(k)).devices == retained_devices(
            EnumerationView::initial(adapters),
            replies,
            k as nat,
        ),
    decreases k,
{
    if k > 0 {
        lemma_retained_prefix(adapters, replies, k - 1);
        assert(replies.take(k).drop_last() =~= replies.take(k - 1));
        assert(replies.take(k).last() == replies[k - 1]);
        let before = retained_devices(EnumerationView::initial(adapters), replies, (k - 1) as nat);
        assert(before + Seq::<u64>::empty() =~= before);
        let v = EnumerationView::initial(adapters).run(replies.take(k - 1));
        if let EnumerationPhase::Retain { found, index, .. } = v.phase {
            assert(before.push(found[index]) =~= before + seq![found[index]]);
        }
    } else {
        assert(replies.take(0) =~= Seq::<ReplyView>::empty());
    }
}

/// A discovery keeps a device exactly when the runtime answered a retain of
/// it with success: the devices it holds at any point, and those it returns,
/// are the successfully retained ones, in the order of the retains.
pub proof fn lemma_discovery_keeps_only_retained(adapters: Seq<u64>, replies: Seq<ReplyView>)
    ensures
        EnumerationView::initial(adapters).run(replies).devices == retained_devices(
            EnumerationView::initial(adapters),
            replies,
            replies.len(),
        ),
        EnumerationView::initial(adapters).run(replies).outcome() matches Some(Ok(ds)) ==> ds
            == retained_devices(EnumerationView::initial(adapters), replies, replies.len()),
{
    lemma_retained_prefix(adapters, replies, replies.len() as int);
    assert(replies.take(replies.len() as int) =~= replies);
}

} // verus!
