use mortise::error::{error_message, MortiseError};
use mortise::ipc::PerUdsLocalInfo;
use mortise::manager::{check_bpf_flags, wire_update_error, MortiseManager};
use mortise::op::{ConnectOption, SkArrayMap};
use mortise::wire::u32_to_be_bytes;

fn boot_option() -> ConnectOption {
    ConnectOption {
        sk_array_maps: vec![
            SkArrayMap {
                mim: "mim_rtt".to_string(),
                name: None,
                value_size: 16,
                max_entries: 100000,
            },
            SkArrayMap {
                mim: "mim_increase".to_string(),
                name: None,
                value_size: 8,
                max_entries: 100000,
            },
        ],
    }
}

fn loaded_manager() -> MortiseManager {
    let mut m = MortiseManager::new();
    let id = m.open_object("mortise_copa.bpf.o".to_string());
    assert_eq!(id, 1);
    m.load_object(id, Some(boot_option())).unwrap();
    m
}

#[test]
fn load_then_unload_then_unload_again() {
    let mut m = MortiseManager::new();
    let id = m.open_object("mortise_copa.bpf.o".to_string());
    m.load_object(id, None).unwrap();
    // The Load response carries the assigned id as four big-endian bytes.
    assert_eq!(u32_to_be_bytes(id), vec![0, 0, 0, 1]);
    assert_eq!(m.unload_object(1), Ok(()));
    let err = m.unload_object(1).unwrap_err();
    assert_eq!(err, MortiseError::ObjectNotFound(1));
    assert_eq!(error_message(&err), "Object of id 1 not found");
}

#[test]
fn load_object_requires_an_open_object() {
    let mut m = MortiseManager::new();
    assert_eq!(m.load_object(3, None), Err(MortiseError::ObjectNotFound(3)));
}

#[test]
fn insert_object_pins_the_id_and_bumps_the_counter() {
    let mut m = MortiseManager::new();
    let id = m.insert_object(5, "x.bpf.o".to_string());
    assert_eq!(id, 5);
    let next = m.open_object("y.bpf.o".to_string());
    assert_eq!(next, 6);
}

#[test]
fn connect_twice_returns_the_same_flow_id() {
    let mut m = loaded_manager();
    let plan = m.connect(42, 1, 7, 50, 60, None).unwrap();
    assert!(plan.fresh);
    assert_eq!(plan.flow_id, 1);
    assert_eq!(plan.wires.len(), 2);
    // The duplicate connect succeeds with the same id and no new maps.
    let again = m.connect(42, 1, 7, 50, 61, None).unwrap();
    assert!(!again.fresh);
    assert_eq!(again.flow_id, 1);
    assert_eq!(again.wires.len(), 0);
    assert!(again.flow_id_write.is_none());
    assert!(again.app_info_write.is_none());
    // Both responses carry the same four big-endian bytes.
    assert_eq!(u32_to_be_bytes(plan.flow_id), u32_to_be_bytes(again.flow_id));
}

#[test]
fn connect_plan_wires_follow_the_option() {
    let mut m = loaded_manager();
    let plan = m.connect(42, 1, 7, 50, 60, Some(150)).unwrap();
    assert_eq!(plan.wires[0].outer_map, "mim_rtt");
    assert_eq!(plan.wires[0].value_size, 16);
    assert_eq!(plan.wires[0].max_entries, 100000);
    assert_eq!(plan.wires[0].key, vec![1, 0, 0, 0]);
    assert_eq!(plan.wires[1].outer_map, "mim_increase");
    assert_eq!(plan.wires[1].value_size, 8);
    let flow_id_write = plan.flow_id_write.unwrap();
    assert_eq!(flow_id_write.map_name, "flow_id_stg");
    assert_eq!(flow_id_write.key, vec![60, 0, 0, 0]);
    assert_eq!(flow_id_write.val, vec![1, 0, 0, 0]);
    let app_info_write = plan.app_info_write.unwrap();
    assert_eq!(app_info_write.map_name, "sk_stg_map");
    assert_eq!(app_info_write.key, vec![60, 0, 0, 0]);
    assert_eq!(app_info_write.val[0], 150);
    assert_eq!(app_info_write.val.len(), 16);
}

#[test]
fn connect_without_option_wires_nothing() {
    let mut m = MortiseManager::new();
    let id = m.open_object("plain.bpf.o".to_string());
    m.load_object(id, None).unwrap();
    let plan = m.connect(42, 1, 7, 50, 60, None).unwrap();
    assert!(plan.fresh);
    assert_eq!(plan.wires.len(), 0);
    assert!(plan.flow_id_write.is_none());
    assert!(plan.app_info_write.is_none());
}

#[test]
fn connect_to_a_missing_object_still_registers_the_flow() {
    let mut m = MortiseManager::new();
    let err = m.connect(42, 9, 7, 50, 60, None).unwrap_err();
    assert_eq!(err, MortiseError::ObjectNotFound(9));
    // The registry kept the flow: the lookup order registers first.
    assert!(m.get_flow_metadata(1).is_some());
}

#[test]
fn disconnect_twice_is_a_no_op_the_second_time() {
    let mut m = loaded_manager();
    let plan = m.connect(42, 1, 7, 50, 60, None).unwrap();
    m.connect_commit(1, plan.flow_id, vec![70, 71]).unwrap();
    let first = m.disconnect(plan.flow_id);
    assert!(first.existed);
    assert_eq!(first.deletes.len(), 2);
    assert_eq!(first.deletes[0].map_name, "mim_rtt");
    assert_eq!(first.deletes[0].key, vec![1, 0, 0, 0]);
    assert_eq!(first.deletes[1].map_name, "mim_increase");
    assert_eq!(first.close_local_fd, Some(60));
    assert_eq!(first.close_pid_fd, Some(50));
    assert!(first.missing_object.is_none());
    assert_eq!(m.disconnect_commit(1, plan.flow_id), vec![70, 71]);
    let second = m.disconnect(plan.flow_id);
    assert!(!second.existed);
    assert_eq!(second.deletes.len(), 0);
    assert!(second.close_local_fd.is_none());
    assert!(second.close_pid_fd.is_none());
    assert!(MortiseManager::disconnect_response(&second).unwrap().is_empty());
}

#[test]
fn cross_connection_release_disconnects_the_flow() {
    let mut m = loaded_manager();
    // Client A connects one flow and tracks it on its connection state.
    let mut info = PerUdsLocalInfo::new();
    let plan = m.connect(42, 1, 7, 50, 60, None).unwrap();
    m.connect_commit(1, plan.flow_id, vec![70, 71]).unwrap();
    info.track_flow(plan.flow_id);
    // Client A's socket closes: release synthesizes one disconnect per
    // observed flow.
    let flows = info.release();
    assert_eq!(flows, vec![plan.flow_id]);
    for fid in flows {
        let p = m.disconnect(fid);
        assert!(p.existed);
        m.disconnect_commit(1, fid);
    }
    // A later lookup from client B fails with the flow's id in the text.
    let err = m.flow_map_key(plan.flow_id).unwrap_err();
    assert_eq!(err, MortiseError::FlowNotFound(1));
    assert_eq!(error_message(&err), "Flow of id 1 not found");
}

#[test]
fn ring_buffer_pump_is_exclusive() {
    let mut m = loaded_manager();
    assert!(m.check_objects_loaded(&vec![1]).is_ok());
    // First registration: nothing to tear down.
    assert!(!m.unregister_rb());
    m.register_rb();
    assert!(m.rb_registered);
    // Second registration tears the first pump down before the new one
    // is installed, so at most one pump exists at any time.
    assert!(m.unregister_rb());
    assert!(!m.rb_registered);
    m.register_rb();
    assert!(m.rb_registered);
    assert!(m.unregister_rb());
}

#[test]
fn check_objects_loaded_names_the_first_missing_id() {
    let m = loaded_manager();
    assert_eq!(
        m.check_objects_loaded(&vec![1, 2]),
        Err(MortiseError::ObjectNotFound(2))
    );
}

#[test]
fn shutdown_leaves_no_objects_and_no_pump() {
    let mut m = loaded_manager();
    m.open_object("another.bpf.o".to_string());
    m.register_rb();
    m.shutdown();
    assert!(!m.rb_registered);
    assert!(m.get_object(1).is_err());
    assert!(m.get_open_object(2).is_err());
}

#[test]
fn flow_map_key_is_the_local_descriptor_little_endian() {
    let mut m = loaded_manager();
    let plan = m.connect(42, 1, 7, 50, 60, None).unwrap();
    let (obj_id, key) = m.flow_map_key(plan.flow_id).unwrap();
    assert_eq!(obj_id, 1);
    assert_eq!(key, vec![60, 0, 0, 0]);
}

#[test]
fn bpf_flags_accept_only_known_bits() {
    for flag in 0..=7u64 {
        assert_eq!(check_bpf_flags(flag), Ok(flag));
    }
    assert_eq!(check_bpf_flags(8), Err(MortiseError::InvalidBpfFlags));
    assert_eq!(check_bpf_flags(1 << 40), Err(MortiseError::InvalidBpfFlags));
}

#[test]
fn a_full_outer_map_surfaces_its_own_message() {
    let e = wire_update_error(7, "System error 7".to_string());
    assert_eq!(e, MortiseError::Custom("exceed max_entries".to_string()));
    assert_eq!(error_message(&e), "exceed max_entries");
    let other = wire_update_error(2, "System error 2".to_string());
    assert_eq!(other, MortiseError::KernelObject("System error 2".to_string()));
}

#[test]
fn close_object_discards_an_open_object() {
    let mut m = MortiseManager::new();
    let id = m.open_object("x.bpf.o".to_string());
    assert_eq!(m.close_object(id), Ok(()));
    assert_eq!(m.close_object(id), Err(MortiseError::ObjectNotFound(id)));
}
