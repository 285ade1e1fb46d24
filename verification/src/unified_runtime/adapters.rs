//! Handing out references on the adapters that a process has listed once.
//!
//! Each listed adapter is retained in turn; the first failed retain ends the
//! hand-out with its error, and on success the caller receives the adapters
//! in their order, each with a reference of its own.

use vstd::prelude::*;

use super::calls::{pending_view, status_error, CallView, ReplyView, UrCall, UrReply};
use super::result::UnifiedRuntimeError;

verus! {

/// Where an adapter hand-out stands.
pub enum RetentionPhase {
    /// `adapters[index]` is to be retained.
    Retain { index: int },
    /// The hand-out has ended; the first `kept` adapters were retained.
    Finished { failure: Option<UnifiedRuntimeError>, kept: int },
}

/// The mathematical state of an adapter hand-out.
pub struct RetentionView {
    pub adapters: Seq<u64>,
    pub phase: RetentionPhase,
}

impl RetentionView {
    pub open spec fn at_retain(adapters: Seq<u64>, index: int) -> RetentionPhase {
        if index < adapters.len() {
            RetentionPhase::Retain { index }
        } else {
            RetentionPhase::Finished { failure: None, kept: adapters.len() as int }
        }
    }

    pub open spec fn wf(self) -> bool {
        match self.phase {
            RetentionPhase::Retain { index } => 0 <= index < self.adapters.len(),
            RetentionPhase::Finished { failure, kept } => {
                &&& 0 <= kept <= self.adapters.len()
                &&& failure is None ==> kept == self.adapters.len()
            },
        }
    }

    pub open spec fn pending(self) -> Option<CallView> {
        match self.phase {
            RetentionPhase::Retain { index } => Some(CallView::AdapterRetain(self.adapters[index])),
            RetentionPhase::Finished { .. } => None,
        }
    }

    pub open spec fn after(self, reply: ReplyView) -> RetentionView {
        match (self.phase, reply) {
            (RetentionPhase::Retain { index }, ReplyView::Status(code)) => match status_error(code) {
                None => RetentionView { phase: Self::at_retain(self.adapters, index + 1), ..self },
                Some(e) => RetentionView {
                    phase: RetentionPhase::Finished { failure: Some(e), kept: index },
                    ..self
                },
            },
            _ => self,
        }
    }

    pub open spec fn outcome(self) -> Option<Result<Seq<u64>, UnifiedRuntimeError>> {
        match self.phase {
            RetentionPhase::Finished { failure: None, .. } => Some(Ok(self.adapters)),
            RetentionPhase::Finished { failure: Some(e), .. } => Some(Err(e)),
            RetentionPhase::Retain { .. } => None,
        }
    }

    /// The adapters on which a reference was taken by this hand-out.
    pub open spec fn retained(self) -> Seq<u64> {
        match self.phase {
            RetentionPhase::Retain { index } => self.adapters.take(index),
            RetentionPhase::Finished { kept, .. } => self.adapters.take(kept),
        }
    }
}

enum RetentionStage {
    Retain { index: usize },
    Finished { failure: Option<UnifiedRuntimeError>, kept: usize },
}

impl RetentionStage {
    spec fn phase(&self) -> RetentionPhase {
        match self {
            RetentionStage::Retain { index } => RetentionPhase::Retain { index: *index as int },
            RetentionStage::Finished { failure, kept } => RetentionPhase::Finished {
                failure: *failure,
                kept: *kept as int,
            },
        }
    }
}

fn retention_at(adapters: &Vec<u64>, index: usize) -> (s: RetentionStage)
    ensures
        s.phase() == RetentionView::at_retain(adapters@, index as int),
{
    if index < adapters.len() {
        RetentionStage::Retain { index }
    } else {
        RetentionStage::Finished { failure: None, kept: adapters.len() }
    }
}

/// Retaining every adapter of a listed set, driven one runtime call at a time.
pub struct AdapterRetention {
    adapters: Vec<u64>,
    stage: RetentionStage,
}

impl View for AdapterRetention {
    type V = RetentionView;

    closed spec fn view(&self) -> RetentionView {
        RetentionView { adapters: self.adapters@, phase: self.stage.phase() }
    }
}

impl AdapterRetention {
    pub closed spec fn wf(&self) -> bool {
        self@.wf()
    }

    /// Starts handing out references on `adapters`, in their order.
    pub fn new(adapters: Vec<u64>) -> (r: Self)
        ensures
            r.wf(),
            r@ == (RetentionView { adapters: adapters@, phase: RetentionView::at_retain(adapters@, 0) }),
    {
        let stage = retention_at(&adapters, 0);
        AdapterRetention { adapters, stage }
    }

    /// The call that the hand-out needs next, or `None` once it has ended.
    pub fn next_call(&self) -> (call: Option<UrCall>)
        requires
            self.wf(),
        ensures
            pending_view(call) == self@.pending(),
    {
        match &self.stage {
            RetentionStage::Retain { index } => Some(UrCall::AdapterRetain(self.adapters[*index])),
            RetentionStage::Finished { .. } => None,
        }
    }

    /// Whether the hand-out has ended.
    pub fn is_finished(&self) -> (b: bool)
        ensures
            b <==> self@.phase is Finished,
    {
        matches!(self.stage, RetentionStage::Finished { .. })
    }

    /// Takes the runtime's answer to the pending retain and moves on.
    pub fn resume(&mut self, reply: UrReply)
        requires
            old(self).wf(),
            old(self)@.pending() matches Some(call) && call.accepts(reply@),
        ensures
            final(self).wf(),
            final(self)@ == old(self)@.after(reply@),
    {
        let _ = self.adapters.len();
        match (&self.stage, reply) {
            (RetentionStage::Retain { index }, UrReply::Status(code)) => {
                let index = *index;
                match code.result() {
                    Ok(()) => {
                        self.stage = retention_at(&self.adapters, index + 1);
                    },
                    Err(e) => {
                        self.stage = RetentionStage::Finished { failure: Some(e), kept: index };
                    },
                }
            },
            _ => {},
        }
    }

    /// The retained adapters, or the error of the first failed retain.
    pub fn finish(self) -> (r: Result<Vec<u64>, UnifiedRuntimeError>)
        requires
            self.wf(),
            self@.phase is Finished,
        ensures
            self@.outcome() == Some(
                match r {
                    Ok(a) => Ok(a@),
                    Err(e) => Err::<Seq<u64>, UnifiedRuntimeError>(e),
                },
            ),
    {
        match self.stage {
            RetentionStage::Finished { failure: Some(e), .. } => Err(e),
            _ => Ok(self.adapters),
        }
    }
}

/// Each answer keeps the hand-out well formed; a successful retain adds
/// exactly the adapter it named to those retained, and a failed one adds
/// nothing and ends the hand-out.
pub proof fn lemma_retention_step(v: RetentionView, reply: ReplyView)
    requires
        v.wf(),
        v.pending() matches Some(call) && call.accepts(reply),
    ensures
        v.after(reply).wf(),
        v.pending() matches Some(CallView::AdapterRetain(a)) ==> (reply == ReplyView::Status(
            super::result::ur_result_t::UR_RESULT_SUCCESS) ==> v.after(reply).retained()
            == v.retained().push(a)),
        reply matches ReplyView::Status(code) && code != super::result::ur_result_t::UR_RESULT_SUCCESS
            ==> v.after(reply).retained() == v.retained() && v.after(reply).phase is Finished,
{
    if let RetentionPhase::Retain { index } = v.phase {
        assert(v.adapters.take(index).push(v.adapters[index]) =~= v.adapters.take(index + 1));
    }
}

/// A hand-out that succeeds has retained every listed adapter, in order.
pub proof fn lemma_retention_outcome(v: RetentionView)
    requires
        v.wf(),
        v.phase is Finished,
    ensures
        v.outcome() matches Some(Ok(adapters)) ==> v.retained() == adapters,
{
    assert(v.adapters.take(v.adapters.len() as int) =~= v.adapters);
}

} // verus!
