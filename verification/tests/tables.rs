use docklord::message::RequestType;
use docklord::pending::PendingTable;
use docklord::presence::PresenceRegistry;

#[test]
fn empty_registry_knows_nobody() {
    let registry = PresenceRegistry::new();
    assert_eq!(registry.lookup("n1", "pw"), None);
    assert_eq!(registry.lookup("", ""), None);
}

#[test]
fn register_then_lookup_finds_the_bus() {
    let mut registry = PresenceRegistry::new();
    registry.register("n1".to_string(), "pw".to_string(), 11);
    assert_eq!(registry.lookup("n1", "pw"), Some(11));
    assert_eq!(registry.lookup("n1", "bad"), None);
    assert_eq!(registry.lookup("n2", "pw"), None);
    assert_eq!(registry.lookup("pw", "n1"), None);
}

#[test]
fn register_twice_keeps_the_last_writer() {
    let mut registry = PresenceRegistry::new();
    registry.register("n1".to_string(), "pw".to_string(), 11);
    registry.register("n1".to_string(), "pw".to_string(), 12);
    assert_eq!(registry.lookup("n1", "pw"), Some(12));
    registry.register("n1".to_string(), "pw".to_string(), 12);
    assert_eq!(registry.lookup("n1", "pw"), Some(12));
}

#[test]
fn remove_unbinds_only_the_key() {
    let mut registry = PresenceRegistry::new();
    registry.register("n1".to_string(), "pw".to_string(), 11);
    registry.register("n2".to_string(), "pw".to_string(), 22);
    registry.remove("n1", "pw");
    assert_eq!(registry.lookup("n1", "pw"), None);
    assert_eq!(registry.lookup("n2", "pw"), Some(22));
    registry.remove("n1", "pw");
    assert_eq!(registry.lookup("n1", "pw"), None);
    assert_eq!(registry.lookup("n2", "pw"), Some(22));
}

#[test]
fn same_id_with_other_password_is_another_node() {
    let mut registry = PresenceRegistry::new();
    registry.register("n1".to_string(), "a".to_string(), 1);
    registry.register("n1".to_string(), "b".to_string(), 2);
    assert_eq!(registry.lookup("n1", "a"), Some(1));
    assert_eq!(registry.lookup("n1", "b"), Some(2));
}

#[test]
fn empty_table_has_nothing_waiting() {
    let mut table = PendingTable::new();
    assert!(!table.contains("r", 0));
    assert_eq!(table.remove("r", 0), None);
}

#[test]
fn insert_reports_whether_it_inserted() {
    let mut table = PendingTable::new();
    assert!(table.insert("r".to_string(), 3, 70));
    assert!(table.contains("r", 3));
    assert!(!table.insert("r".to_string(), 3, 71));
    assert_eq!(table.remove("r", 3), Some(70));
}

#[test]
fn a_slot_is_handed_out_once() {
    let mut table = PendingTable::new();
    assert!(table.insert("r".to_string(), 3, 70));
    assert_eq!(table.remove("r", 3), Some(70));
    assert_eq!(table.remove("r", 3), None);
    assert!(!table.contains("r", 3));
}

#[test]
fn key_is_id_and_type_together() {
    let mut table = PendingTable::new();
    assert!(table.insert("r".to_string(), RequestType::StartContainer.code(), 1));
    assert!(table.insert("r".to_string(), RequestType::StopContainer.code(), 2));
    assert!(table.insert("q".to_string(), RequestType::StartContainer.code(), 3));
    assert_eq!(table.remove("r", RequestType::StopContainer.code()), Some(2));
    assert_eq!(table.remove("q", RequestType::StartContainer.code()), Some(3));
    assert_eq!(table.remove("r", RequestType::StartContainer.code()), Some(1));
    assert_eq!(table.remove("r", RequestType::DeleteContainer.code()), None);
}

#[test]
fn a_key_can_be_reused_after_removal() {
    let mut table = PendingTable::new();
    assert!(table.insert("r".to_string(), 0, 1));
    assert_eq!(table.remove("r", 0), Some(1));
    assert!(table.insert("r".to_string(), 0, 2));
    assert_eq!(table.remove("r", 0), Some(2));
}

#[test]
fn request_type_codes_round_trip() {
    let all = [
        RequestType::GetContainers,
        RequestType::GetContainersWithStatus,
        RequestType::GetContainerStatus,
        RequestType::StartContainer,
        RequestType::StopContainer,
        RequestType::DeleteContainer,
        RequestType::GetContainerLogs,
        RequestType::UpdateContainerInfo,
    ];
    for (i, request_type) in all.iter().enumerate() {
        assert_eq!(request_type.code(), i as i32);
        assert_eq!(RequestType::from_code(i as i32), Some(*request_type));
    }
    assert_eq!(RequestType::from_code(8), None);
    assert_eq!(RequestType::from_code(-1), None);
    assert_eq!(RequestType::from_code(i32::MAX), None);
    assert_eq!(RequestType::from_code(i32::MIN), None);
}
