use contract_vm::error::VmError;
use contract_vm::store::BufferStore;

#[test]
fn new_store_has_no_buffers() {
    let store = BufferStore::new();
    assert!(!store.contains("a"));
    assert!(!store.contains(""));
    assert_eq!(store.read("a"), Err(VmError::NotInitialized));
}

#[test]
fn initialize_creates_an_empty_buffer() {
    let mut store = BufferStore::new();
    assert_eq!(store.initialize("a"), Ok(()));
    assert!(store.contains("a"));
    assert_eq!(store.read("a"), Ok(vec![]));
}

#[test]
fn initialize_twice_is_reported_and_keeps_contents() {
    let mut store = BufferStore::new();
    store.initialize("a").unwrap();
    store.write("a", vec![1, 2, 3]).unwrap();
    assert_eq!(store.initialize("a"), Err(VmError::AlreadyInitialized));
    assert_eq!(store.read("a"), Ok(vec![1, 2, 3]));
}

#[test]
fn write_replaces_contents_wholesale() {
    let mut store = BufferStore::new();
    store.initialize("a").unwrap();
    assert_eq!(store.write("a", vec![1, 2, 3, 4]), Ok(()));
    assert_eq!(store.write("a", vec![9]), Ok(()));
    assert_eq!(store.read("a"), Ok(vec![9]));
}

#[test]
fn write_never_creates_a_buffer() {
    let mut store = BufferStore::new();
    assert_eq!(store.write("a", vec![1]), Err(VmError::NotInitialized));
    assert!(!store.contains("a"));
}

#[test]
fn free_removes_a_buffer() {
    let mut store = BufferStore::new();
    store.initialize("a").unwrap();
    store.initialize("b").unwrap();
    assert_eq!(store.free("a"), Ok(()));
    assert!(!store.contains("a"));
    assert!(store.contains("b"));
    assert_eq!(store.free("a"), Err(VmError::NotInitialized));
    assert_eq!(store.initialize("a"), Ok(()));
}

#[test]
fn read_hands_out_a_copy() {
    let mut store = BufferStore::new();
    store.initialize("a").unwrap();
    store.write("a", vec![1, 2]).unwrap();
    let mut copy = store.read("a").unwrap();
    copy.push(3);
    assert_eq!(store.read("a"), Ok(vec![1, 2]));
}

#[test]
fn identifiers_are_compared_as_whole_strings() {
    let mut store = BufferStore::new();
    store.initialize("ab").unwrap();
    assert!(!store.contains("a"));
    assert!(!store.contains("abc"));
    assert!(!store.contains("AB"));
    assert!(store.contains("ab"));
}
