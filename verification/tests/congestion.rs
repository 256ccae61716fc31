use mortise::congestion::CongestionOpt;
use mortise::op::{FlowOperation, ManagerOperation, Operation};
use mortise::MemorySize;

#[test]
fn mortise_copa_is_object_one() {
    let (obj_id, name) = CongestionOpt::MortiseCopa.get_tcp_ca();
    assert_eq!(obj_id, 1);
    assert_eq!(name, "mortise_copa");
    assert_eq!(CongestionOpt::MortiseCopa.get_obj_id(), 1);
    assert_eq!(CongestionOpt::MortiseCopa.get_tcp_ca_name(), "mortise_copa");
}

#[test]
fn kernel_native_algorithms_get_object_zero() {
    assert_eq!(CongestionOpt::Cubic.get_tcp_ca(), (0, "cubic"));
    assert_eq!(CongestionOpt::Vegas.get_tcp_ca(), (0, "vegas"));
    assert_eq!(CongestionOpt::Mvfst.get_tcp_ca(), (0, "mvfst"));
    assert_eq!(CongestionOpt::CCP.get_tcp_ca(), (0, "ccp"));
    assert_eq!(CongestionOpt::Copa.get_tcp_ca(), (0, "copa"));
    assert_eq!(CongestionOpt::Bbr.get_tcp_ca(), (0, "bbr"));
}

#[test]
fn mortise_copa_load_option_names_its_outer_maps() {
    match CongestionOpt::MortiseCopa.get_load_option() {
        ManagerOperation::Load { path, option } => {
            assert_eq!(path, "/home/vagrant/algorithm/bpf-kern/build/mortise_copa.bpf.o");
            let option = option.unwrap();
            assert_eq!(option.sk_array_maps.len(), 2);
            assert_eq!(option.sk_array_maps[0].mim, "mim_rtt");
            assert!(option.sk_array_maps[0].name.is_none());
            assert_eq!(option.sk_array_maps[0].value_size, 16);
            assert_eq!(option.sk_array_maps[0].max_entries, 100000);
            assert_eq!(option.sk_array_maps[1].mim, "mim_increase");
            assert!(option.sk_array_maps[1].name.is_none());
            assert_eq!(option.sk_array_maps[1].value_size, 8);
            assert_eq!(option.sk_array_maps[1].max_entries, 100000);
        }
        _ => panic!("expected a Load operation"),
    }
}

#[test]
fn other_algorithms_load_nothing() {
    match CongestionOpt::Cubic.get_load_option() {
        ManagerOperation::Load { path, option } => {
            assert!(path.is_empty());
            assert!(option.is_none());
        }
        _ => panic!("expected a Load operation"),
    }
}

#[test]
fn memory_sizes_convert_to_bytes() {
    assert_eq!(u64::from(MemorySize::B(77)), 77);
    assert_eq!(u64::from(MemorySize::KB(8)), 8192);
    assert_eq!(u64::from(MemorySize::MB(1024)), 1024 * 1024 * 1024);
}

#[test]
fn flow_operations_address_a_flow() {
    let op = FlowOperation::Disconnect.to_op(9);
    match op {
        Operation::Flow { flow_id, op: FlowOperation::Disconnect } => assert_eq!(flow_id, 9),
        _ => panic!("expected a flow operation"),
    }
}

#[test]
fn manager_operations_wrap_into_operations() {
    let op: Operation = ManagerOperation::PingPong.into();
    assert!(matches!(op, Operation::Manager(ManagerOperation::PingPong)));
}
