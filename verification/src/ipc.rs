//! Per-connection broker state.
//!
//! Each accepted control-socket connection keeps: the set of flow ids it
//! has seen connect, so that closing the connection disconnects exactly
//! those flows once each; a sliding window of the last five QoE samples;
//! and the last stable tradeoff value.  The floating-point scoring of a
//! sample happens with the caller — this module takes the two resulting
//! tradeoff values and decides, exactly as the smoother does, whether a
//! per-socket update goes out and with which value.

use vstd::prelude::*;
use crate::qoe::FrameQoE;

verus! {

/// How many QoE samples the sliding window holds.
pub const QOE_WINDOW: usize = 5;

/// The largest tradeoff value the scoring table hands out.
pub const TRADEOFF_MAX: u64 = 300;

/// What one connection of the broker remembers.
pub struct PerUdsLocalInfo {
    /// The flow ids connected over this connection, each once.
    pub flows: Vec<u32>,
    /// The last `QOE_WINDOW` samples, oldest first.
    pub qoe_record: Vec<FrameQoE>,
    /// The tradeoff computed from the window's mean score, last time.
    pub last_stable_tradeoff: u64,
}

impl PerUdsLocalInfo {
    /// The connection state's invariant: no flow id is tracked twice,
    /// the window never exceeds its bound, and the stable tradeoff is a
    /// value the scoring table can produce.
    pub open spec fn wf(self) -> bool {
        &&& self.flows@.no_duplicates()
        &&& self.qoe_record@.len() <= QOE_WINDOW
        &&& self.last_stable_tradeoff <= TRADEOFF_MAX
    }

    /// Fresh state for a newly accepted connection.
    pub fn new() -> (r: Self)
        ensures
            r.wf(),
            r.flows@.len() == 0,
            r.qoe_record@.len() == 0,
            r.last_stable_tradeoff == 0,
    {
        PerUdsLocalInfo { flows: Vec::new(), qoe_record: Vec::new(), last_stable_tradeoff: 0 }
    }

    /// Remembers a flow id this connection connected; a duplicate
    /// changes nothing, so release still disconnects it once.
    pub fn track_flow(&mut self, flow_id: u32)
        requires
            old(self).wf(),
        ensures
            final(self).wf(),
            final(self).flows@ == (if old(self).flows@.contains(flow_id) {
                old(self).flows@
            } else {
                old(self).flows@.push(flow_id)
            }),
            final(self).qoe_record == old(self).qoe_record,
            final(self).last_stable_tradeoff == old(self).last_stable_tradeoff,
    {
        let mut i: usize = 0;
        while i < self.flows.len()
            invariant
                *self == *old(self),
                old(self).wf(),
                i <= self.flows@.len(),
                forall|j: int| 0 <= j < i ==> self.flows@[j] != flow_id,
            decreases self.flows@.len() - i,
        {
            if self.flows[i] == flow_id {
                proof {
                    assert(self.flows@.contains(flow_id));
                }
                return ;
            }
            i = i + 1;
        }
        proof {
            if self.flows@.contains(flow_id) {
                let j = choose|j: int| 0 <= j < self.flows@.len() && self.flows@[j] == flow_id;
                assert(false);
            }
        }
        self.flows.push(flow_id);
    }

    /// Appends a QoE sample to the window; once the window is full the
    /// oldest sample leaves.
    pub fn push_qoe(&mut self, qoe: FrameQoE)
        requires
            old(self).wf(),
        ensures
            final(self).wf(),
            final(self).qoe_record@ == (if old(self).qoe_record@.len() < QOE_WINDOW {
                old(self).qoe_record@.push(qoe)
            } else {
                old(self).qoe_record@.push(qoe).skip(1)
            }),
            final(self).qoe_record@.len() <= QOE_WINDOW,
            final(self).flows == old(self).flows,
            final(self).last_stable_tradeoff == old(self).last_stable_tradeoff,
    {
        self.qoe_record.push(qoe);
        if self.qoe_record.len() > QOE_WINDOW {
            self.qoe_record.remove(0);
            proof {
                assert(self.qoe_record@ =~= old(self).qoe_record@.push(qoe).skip(1));
            }
        }
    }

    /// Decides the per-socket update of one QoE report.
    ///
    /// `transient` is the tradeoff of this sample's score alone and
    /// `stable` the tradeoff of the window's mean score, computed after
    /// the sample joined the window.  The stored stable value is always
    /// overwritten with `stable`; the chosen value is the integer mean
    /// of the old stable value and `transient`, and an update goes out
    /// exactly when that choice differs from the old stable value.
    pub fn choose_tradeoff(&mut self, transient: u64, stable: u64) -> (r: Option<u64>)
        requires
            old(self).wf(),
            transient <= u64::MAX - TRADEOFF_MAX,
            stable <= TRADEOFF_MAX,
        ensures
            final(self).wf(),
            final(self).last_stable_tradeoff == stable,
            final(self).flows == old(self).flows,
            final(self).qoe_record == old(self).qoe_record,
            r == (if (old(self).last_stable_tradeoff + transient) / 2
                != old(self).last_stable_tradeoff {
                Some(((old(self).last_stable_tradeoff + transient) / 2) as u64)
            } else {
                None::<u64>
            }),
    {
        let old_stable = self.last_stable_tradeoff;
        self.last_stable_tradeoff = stable;
        let chosen = (old_stable + transient) / 2;
        if chosen != old_stable {
            Some(chosen)
        } else {
            None
        }
    }

    /// Hands back the flows this connection observed, for release: the
    /// broker synthesizes exactly one disconnect per listed id, and the
    /// list names each observed id exactly once.
    pub fn release(self) -> (flows: Vec<u32>)
        requires
            self.wf(),
        ensures
            flows@ == self.flows@,
            flows@.no_duplicates(),
    {
        self.flows
    }
}

impl Default for PerUdsLocalInfo {
    fn default() -> (r: Self)
        ensures
            r.wf(),
            r.flows@.len() == 0,
            r.qoe_record@.len() == 0,
            r.last_stable_tradeoff == 0,
    {
        Self::new()
    }
}

/// Release hands out each observed flow id exactly once: an id this
/// connection saw occurs once in the released list, and an id it never
/// saw does not occur at all.
pub proof fn lemma_release_exactly_once(flows: Seq<u32>, flow_id: u32)
    requires
        flows.no_duplicates(),
    ensures
        flows.contains(flow_id) ==> flows.to_multiset().count(flow_id) == 1,
        !flows.contains(flow_id) ==> flows.to_multiset().count(flow_id) == 0,
{
    flows.lemma_multiset_has_no_duplicates();
    flows.to_multiset_ensures();
    if flows.contains(flow_id) {
        assert(flows.to_multiset().count(flow_id) > 0);
    } else {
        assert(!(flows.to_multiset().count(flow_id) > 0));
    }
}

} // verus!
