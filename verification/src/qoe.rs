//! QoE feedback data.
//!
//! A `FrameQoE` report carries the timestamps and size of one delivered
//! frame; the scoring arithmetic over it lives with the caller, since it
//! is floating point through and through.  `AppInfo` is the 16-byte
//! little-endian record seeded into the object's per-socket storage map.

use vstd::prelude::*;
use crate::wire::{spec_u64_to_le_bytes, spec_u64_from_le_bytes, u64_to_le_bytes, read_le_u64};

verus! {

/// One frame's QoE report.  Timestamps are nanoseconds, the frame
/// interval is microseconds, the size is bytes.
#[derive(Debug, Clone, Copy)]
pub struct FrameQoE {
    pub server_send: u64,
    pub client_recv: u64,
    pub server_recv: u64,
    pub size: u64,
    pub frame_interval_us: u64,
    pub frame_id: u64,
}

/// The per-socket application record: the requested tradeoff knob and the
/// kernel's response word.
#[derive(Debug, Clone, Copy)]
pub struct AppInfo {
    pub req: u64,
    pub resp: u64,
}

impl Default for AppInfo {
    fn default() -> (r: Self)
        ensures
            r.req == 0 && r.resp == 0,
    {
        AppInfo { req: 0, resp: 0 }
    }
}

/// The 16 little-endian bytes of an `AppInfo`: `req` first, then `resp`.
pub open spec fn spec_app_info_bytes(info: AppInfo) -> Seq<u8> {
    spec_u64_to_le_bytes(info.req) + spec_u64_to_le_bytes(info.resp)
}

/// The `AppInfo` read from the first 16 bytes of `s`.
pub open spec fn spec_app_info_from_bytes(s: Seq<u8>) -> AppInfo
    recommends
        s.len() >= 16,
{
    AppInfo { req: spec_u64_from_le_bytes(s), resp: spec_u64_from_le_bytes(s.skip(8)) }
}

impl AppInfo {
    /// The record as the kernel map stores it: 16 little-endian bytes.
    pub fn as_bytes(&self) -> (r: Vec<u8>)
        ensures
            r@ == spec_app_info_bytes(*self),
    {
        let mut r = u64_to_le_bytes(self.req);
        let mut resp_bytes = u64_to_le_bytes(self.resp);
        r.append(&mut resp_bytes);
        assert(r@ =~= spec_app_info_bytes(*self));
        r
    }

    /// Reads a record back from the head of a map value.
    pub fn copy_from_bytes(buf: &[u8]) -> (r: Self)
        requires
            buf@.len() >= 16,
        ensures
            r == spec_app_info_from_bytes(buf@),
    {
        let req = read_le_u64(buf, 0);
        let resp = read_le_u64(buf, 8);
        proof {
            assert(buf@.skip(0) =~= buf@);
        }
        AppInfo { req, resp }
    }
}

/// Encoding an `AppInfo` and reading it back gives the record unchanged.
pub proof fn lemma_app_info_round_trip(info: AppInfo)
    ensures
        spec_app_info_from_bytes(spec_app_info_bytes(info)) == info,
{
    let s = spec_app_info_bytes(info);
    crate::wire::lemma_u64_le_round_trip(info.req);
    crate::wire::lemma_u64_le_round_trip(info.resp);
    assert forall|i: int| 0 <= i < 8 implies s[i] == spec_u64_to_le_bytes(info.req)[i] by {}
    assert(spec_u64_from_le_bytes(s) == spec_u64_from_le_bytes(spec_u64_to_le_bytes(info.req)));
    assert(s.skip(8) =~= spec_u64_to_le_bytes(info.resp));
}

} // verus!
