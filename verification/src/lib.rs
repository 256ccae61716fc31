//! User-space control plane for pluggable kernel congestion-control
//! algorithms.
//!
//! The crate models the manager daemon's decision core: the object and flow
//! lifecycle engine, the flow registry with its two consistent indices, the
//! per-connection QoE smoothing state, and the wire encodings used on the
//! control socket and in kernel map keys.  Everything here is plain
//! bookkeeping over integers, strings and byte vectors; the kernel-object
//! calls, socket I/O and floating-point scoring that surround it are the
//! caller's business and are driven from the accompanying binary.

use vstd::prelude::*;

pub mod congestion;
pub mod error;
pub mod ipc;
pub mod manager;
pub mod object;
pub mod op;
pub mod qoe;
pub mod report;
pub mod wire;

verus! {

/// A byte count given in bytes, kibibytes or mebibytes.
pub enum MemorySize {
    B(u64),
    KB(u64),
    MB(u64),
}

/// The number of bytes a `MemorySize` denotes.  Kibi- and mebibyte counts
/// are shifted into bytes; high bits that the shift pushes out are lost,
/// exactly as the executable conversion loses them.
pub open spec fn spec_memory_size_bytes(size: MemorySize) -> u64 {
    match size {
        MemorySize::B(b) => b,
        MemorySize::KB(kb) => kb << 10,
        MemorySize::MB(mb) => mb << 20,
    }
}

impl From<MemorySize> for u64 {
    fn from(size: MemorySize) -> (r: u64)
        ensures
            r == spec_memory_size_bytes(size),
    {
        match size {
            MemorySize::B(b) => b,
            MemorySize::KB(kb) => kb << 10,
            MemorySize::MB(mb) => mb << 20,
        }
    }
}

impl vstd::std_specs::convert::FromSpecImpl<MemorySize> for u64 {
    open spec fn obeys_from_spec() -> bool {
        true
    }

    open spec fn from_spec(size: MemorySize) -> u64 {
        spec_memory_size_bytes(size)
    }
}

impl From<&MemorySize> for u64 {
    fn from(size: &MemorySize) -> (r: u64)
        ensures
            r == spec_memory_size_bytes(*size),
    {
        match size {
            MemorySize::B(b) => *b,
            MemorySize::KB(kb) => *kb << 10,
            MemorySize::MB(mb) => *mb << 20,
        }
    }
}

impl vstd::std_specs::convert::FromSpecImpl<&MemorySize> for u64 {
    open spec fn obeys_from_spec() -> bool {
        true
    }

    open spec fn from_spec(size: &MemorySize) -> u64 {
        spec_memory_size_bytes(*size)
    }
}

} // verus!
