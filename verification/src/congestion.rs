//! The congestion-control algorithms the tooling knows by name.
//!
//! Only `MortiseCopa` runs through the manager (object id 1, with its
//! map-in-map connect option); the rest are kernel-native algorithms that
//! get no object and no connect option.

use vstd::prelude::*;
use vstd::string::StringExecFns;
use crate::op::{ConnectOption, ManagerOperation, SkArrayMap};

verus! {

/// A selectable congestion-control algorithm.
#[derive(Debug, Clone)]
pub enum CongestionOpt {
    Cubic,
    MortiseCopa,
    Mvfst,
    Vegas,
    CCP,
    Copa,
    Bbr,
}

/// The object id under which the manager is asked to load the algorithm;
/// zero for algorithms the kernel already ships.
pub open spec fn spec_obj_id(c: CongestionOpt) -> u32 {
    match c {
        CongestionOpt::MortiseCopa => 1,
        _ => 0,
    }
}

/// The algorithm's name as `setsockopt(TCP_CONGESTION)` expects it.
pub open spec fn spec_tcp_ca_name(c: CongestionOpt) -> Seq<char> {
    match c {
        CongestionOpt::MortiseCopa => "mortise_copa"@,
        CongestionOpt::Cubic => "cubic"@,
        CongestionOpt::Vegas => "vegas"@,
        CongestionOpt::Mvfst => "mvfst"@,
        CongestionOpt::CCP => "ccp"@,
        CongestionOpt::Copa => "copa"@,
        CongestionOpt::Bbr => "bbr"@,
    }
}

impl CongestionOpt {
    /// The object id and socket-option name of this algorithm.
    pub fn get_tcp_ca(&self) -> (r: (u32, &'static str))
        ensures
            r.0 == spec_obj_id(*self),
            r.1@ == spec_tcp_ca_name(*self),
    {
        match self {
            CongestionOpt::MortiseCopa => (1, "mortise_copa"),
            CongestionOpt::Cubic => (0, "cubic"),
            CongestionOpt::Vegas => (0, "vegas"),
            CongestionOpt::Mvfst => (0, "mvfst"),
            CongestionOpt::CCP => (0, "ccp"),
            CongestionOpt::Copa => (0, "copa"),
            CongestionOpt::Bbr => (0, "bbr"),
        }
    }

    /// The object id alone.
    pub fn get_obj_id(&self) -> (r: u32)
        ensures
            r == spec_obj_id(*self),
    {
        self.get_tcp_ca().0
    }

    /// The socket-option name alone.
    pub fn get_tcp_ca_name(&self) -> (r: &'static str)
        ensures
            r@ == spec_tcp_ca_name(*self),
    {
        self.get_tcp_ca().1
    }

    /// The `Load` request that boots this algorithm.  `MortiseCopa` is
    /// loaded from its object file with the two outer maps `mim_rtt`
    /// (16-byte values) and `mim_increase` (8-byte values), each capped
    /// at 100000 entries; every other algorithm gets an empty request.
    pub fn get_load_option(&self) -> (r: ManagerOperation)
        ensures
            match r {
                ManagerOperation::Load { path, option } => {
                    match *self {
                        CongestionOpt::MortiseCopa => {
                            &&& path@
                                == "/home/vagrant/algorithm/bpf-kern/build/mortise_copa.bpf.o"@
                            &&& option matches Some(co)
                            &&& co.sk_array_maps@.len() == 2
                            &&& co.sk_array_maps@[0].mim@ == "mim_rtt"@
                            &&& co.sk_array_maps@[0].name is None
                            &&& co.sk_array_maps@[0].value_size == 16
                            &&& co.sk_array_maps@[0].max_entries == 100000
                            &&& co.sk_array_maps@[1].mim@ == "mim_increase"@
                            &&& co.sk_array_maps@[1].name is None
                            &&& co.sk_array_maps@[1].value_size == 8
                            &&& co.sk_array_maps@[1].max_entries == 100000
                        },
                        _ => {
                            &&& path@.len() == 0
                            &&& option is None
                        },
                    }
                },
                _ => false,
            },
    {
        match self {
            CongestionOpt::MortiseCopa => {
                let mut sk_array_maps: Vec<SkArrayMap> = Vec::new();
                sk_array_maps.push(
                    SkArrayMap {
                        name: None,
                        mim: String::from_str("mim_rtt"),
                        value_size: 16,
                        max_entries: 100000,
                    },
                );
                sk_array_maps.push(
                    SkArrayMap {
                        name: None,
                        mim: String::from_str("mim_increase"),
                        value_size: 8,
                        max_entries: 100000,
                    },
                );
                ManagerOperation::Load {
                    path: String::from_str(
                        "/home/vagrant/algorithm/bpf-kern/build/mortise_copa.bpf.o",
                    ),
                    option: Some(ConnectOption { sk_array_maps }),
                }
            },
            _ => {
                proof {
                    reveal_strlit("");
                }
                ManagerOperation::Load { path: String::from_str(""), option: None }
            },
        }
    }
}

} // verus!
