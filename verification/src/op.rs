//! The operations a client can ask of the manager.
//!
//! Requests arrive on the control socket as a tagged union: manager-wide
//! operations, and per-flow operations carrying a flow id.  The sidecar
//! link is told about flow lifecycle events with its own small vocabulary.

use vstd::prelude::*;
use crate::qoe::FrameQoE;

verus! {

/// One outer map-in-map descriptor of a `ConnectOption`: the outer map's
/// name, and the value size and capacity of the per-flow inner maps
/// created under it on each connect.
pub struct SkArrayMap {
    /// The name of the outer map.
    pub mim: String,
    pub name: Option<String>,
    pub value_size: u32,
    pub max_entries: u32,
}

/// Set when loading a new object: the list of outer maps that receive a
/// fresh per-flow inner map whenever a socket connects to the object's
/// algorithm.  Immutable once the object is loaded.
pub struct ConnectOption {
    pub sk_array_maps: Vec<SkArrayMap>,
}

/// Manager-wide operations.
pub enum ManagerOperation {
    Load { path: String, option: Option<ConnectOption> },
    Unload { obj_id: u32 },
    Insert { obj_id: u32, path: String, option: Option<ConnectOption> },
    Shutdown,
    PingPong,
    RegisterRingBuf { obj_ids: Vec<u32> },
    UnregisterRingBuf,
}

/// Per-flow operations.
pub enum FlowOperation {
    SkStgMapUpdate { map_name: String, val: Vec<u8>, flag: u64 },
    SkStgMapLookup { map_name: String },
    Connect { obj_id: u32, sk_fd: i32, pid: i32, default_app_info: Option<u64> },
    Disconnect,
    QoEUpdate { qoe: FrameQoE },
}

/// Flow lifecycle notices sent to the analytics sidecar.
pub enum PyOperation {
    Disconnect { flow_id: u32 },
    Connect { flow_id: u32 },
}

/// A request as it crosses the control socket: either manager-wide or
/// addressed to one flow.
pub enum Operation {
    Manager(ManagerOperation),
    Flow { flow_id: u32, op: FlowOperation },
}

impl From<ManagerOperation> for Operation {
    fn from(value: ManagerOperation) -> (r: Self) {
        Operation::Manager(value)
    }
}

impl vstd::std_specs::convert::FromSpecImpl<ManagerOperation> for Operation {
    open spec fn obeys_from_spec() -> bool {
        true
    }

    open spec fn from_spec(value: ManagerOperation) -> Operation {
        Operation::Manager(value)
    }
}

impl FlowOperation {
    /// Addresses this flow operation to the given flow id.
    pub fn to_op(self, flow_id: u32) -> (r: Operation)
        ensures
            r == (Operation::Flow { flow_id, op: self }),
    {
        Operation::Flow { flow_id, op: self }
    }
}

} // verus!
