use mortise::error::MortiseError;
use mortise::manager::FlowManager;

#[test]
fn flow_ids_start_at_one_and_increase() {
    let mut registry = FlowManager::new();
    let first = registry.insert(100, 7, 1, 50, 60).unwrap();
    let second = registry.insert(100, 8, 1, 50, 61).unwrap();
    let third = registry.insert(200, 7, 1, 51, 62).unwrap();
    assert_eq!(first, 1);
    assert_eq!(second, 2);
    assert_eq!(third, 3);
}

#[test]
fn duplicate_insert_reports_the_existing_flow() {
    let mut registry = FlowManager::new();
    let fid = registry.insert(100, 7, 1, 50, 60).unwrap();
    let again = registry.insert(100, 7, 1, 50, 61);
    assert_eq!(again, Err(MortiseError::FlowConnected(fid)));
    assert!(registry.contains(100, 7));
    assert_eq!(registry.existing_flow_id(100, 7), Some(fid));
}

#[test]
fn removed_ids_are_not_reused() {
    let mut registry = FlowManager::new();
    let first = registry.insert(100, 7, 1, 50, 60).unwrap();
    registry.remove(first);
    let second = registry.insert(100, 7, 1, 50, 60).unwrap();
    assert_eq!(first, 1);
    assert_eq!(second, 2);
}

#[test]
fn remove_returns_the_metadata_and_descriptors() {
    let mut registry = FlowManager::new();
    let fid = registry.insert(100, 7, 4, 50, 60).unwrap();
    let removed = registry.remove(fid).unwrap();
    assert_eq!(removed.metadata.pid, 100);
    assert_eq!(removed.metadata.sk_fd, 7);
    assert_eq!(removed.metadata.local_sk_fd, 60);
    assert_eq!(removed.metadata.obj_id, 4);
    assert_eq!(removed.closed_pid_fd, Some(50));
    assert!(!registry.contains(100, 7));
}

#[test]
fn second_remove_is_a_no_op() {
    let mut registry = FlowManager::new();
    let fid = registry.insert(100, 7, 1, 50, 60).unwrap();
    assert!(registry.remove(fid).is_some());
    assert!(registry.remove(fid).is_none());
    assert!(registry.remove(9999).is_none());
}

#[test]
fn pid_descriptor_closes_with_the_last_flow() {
    let mut registry = FlowManager::new();
    let first = registry.insert(100, 7, 1, 50, 60).unwrap();
    let second = registry.insert(100, 8, 1, 50, 61).unwrap();
    let removed_first = registry.remove(first).unwrap();
    assert_eq!(removed_first.closed_pid_fd, None);
    let removed_second = registry.remove(second).unwrap();
    assert_eq!(removed_second.closed_pid_fd, Some(50));
    assert_eq!(registry.pid_fd_of(100), None);
}

#[test]
fn pid_descriptor_is_shared_across_a_pid_flows() {
    let mut registry = FlowManager::new();
    registry.insert(100, 7, 1, 50, 60).unwrap();
    assert_eq!(registry.pid_fd_of(100), Some(50));
    // A second flow of the same pid keeps the stored descriptor even if
    // the caller passes another value.
    registry.insert(100, 8, 1, 999, 61).unwrap();
    assert_eq!(registry.pid_fd_of(100), Some(50));
}
