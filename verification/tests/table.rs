use ipnis_api_onnxruntime::address::{ContentAddress, DIGEST_LEN};
use ipnis_api_onnxruntime::error::ErrorKind;
use ipnis_api_onnxruntime::table::SessionTable;

fn address(tag: u8, len: u64) -> ContentAddress {
    ContentAddress::new([tag; 32], len)
}

#[test]
fn address_equality_is_structural() {
    let a = address(1, 10);
    assert!(a.same(&address(1, 10)));
    assert!(!a.same(&address(2, 10)));
    assert!(!a.same(&address(1, 11)));
    let mut value = [1u8; 32];
    value[31] = 0;
    assert!(!a.same(&ContentAddress::new(value, 10)));
    assert_eq!(a.value, [1u8; 32]);
    assert_eq!(a.value.len(), DIGEST_LEN);
    assert_eq!(a.len, 10);
}

#[test]
fn new_table_is_empty() {
    let table: SessionTable<u32> = SessionTable::new();
    assert!(!table.contains(&address(1, 10)));
    assert_eq!(table.get(&address(1, 10)), None);
}

#[test]
fn insert_then_get() {
    let mut table: SessionTable<u32> = SessionTable::new();
    assert!(table.insert(address(1, 10), 100));
    assert!(table.insert(address(2, 10), 200));
    assert!(table.insert(address(1, 11), 300));
    assert_eq!(table.get(&address(1, 10)), Some(&100));
    assert_eq!(table.get(&address(2, 10)), Some(&200));
    assert_eq!(table.get(&address(1, 11)), Some(&300));
    assert_eq!(table.get(&address(3, 10)), None);
    assert!(table.contains(&address(2, 10)));
}

#[test]
fn insert_never_replaces() {
    let mut table: SessionTable<u32> = SessionTable::new();
    assert!(table.insert(address(1, 10), 100));
    assert!(!table.insert(address(1, 10), 999));
    assert_eq!(table.get(&address(1, 10)), Some(&100));
}

#[test]
fn only_transport_failures_are_recoverable() {
    assert!(ErrorKind::Transport.is_recoverable());
    assert!(!ErrorKind::Integrity.is_recoverable());
    assert!(!ErrorKind::EngineBuild.is_recoverable());
    assert!(!ErrorKind::EngineRun.is_recoverable());
    assert!(!ErrorKind::ShapeCountMismatch.is_recoverable());
    assert!(!ErrorKind::DescriptorConversion.is_recoverable());
}

#[test]
fn load_failures_are_told_apart() {
    assert!(ErrorKind::Transport.is_load_failure());
    assert!(ErrorKind::Integrity.is_load_failure());
    assert!(ErrorKind::EngineBuild.is_load_failure());
    assert!(!ErrorKind::EngineRun.is_load_failure());
    assert!(!ErrorKind::ShapeCountMismatch.is_load_failure());
    assert!(!ErrorKind::DescriptorConversion.is_load_failure());
}
