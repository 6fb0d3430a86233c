use contract_vm::signal::vm_access_buffer;
use contract_vm::signal::vm_check_buffer_initialization;
use contract_vm::signal::vm_throw_global_error;
use contract_vm::signal::vm_throw_local_error;
use contract_vm::signal::Signal;
use contract_vm::signal::GLOBAL_ERROR_FLAG;
use contract_vm::store::BufferStore;

fn store_with(ids: &[&str]) -> BufferStore {
    let mut store = BufferStore::new();
    for id in ids {
        store.initialize(id).unwrap();
    }
    store
}

#[test]
fn global_flag_has_the_reserved_identifier() {
    assert_eq!(GLOBAL_ERROR_FLAG, "00000000");
}

#[test]
fn check_reports_presence_and_changes_nothing() {
    let mut store = store_with(&["a"]);
    store.write("a", vec![7]).unwrap();
    assert!(vm_check_buffer_initialization(&mut store, "a".to_string()));
    assert!(!vm_check_buffer_initialization(&mut store, "b".to_string()));
    assert_eq!(store.read("a"), Ok(vec![7]));
    assert!(!store.contains("b"));
}

#[test]
fn global_error_sets_the_global_flag() {
    let mut store = store_with(&["00000000", "a"]);
    assert_eq!(vm_throw_global_error(&mut store), Signal::Global);
    assert_eq!(store.read("00000000"), Ok(vec![1]));
    assert_eq!(store.read("a"), Ok(vec![]));
}

#[test]
fn global_error_without_the_flag_is_reported() {
    let mut store = store_with(&["a"]);
    assert_eq!(vm_throw_global_error(&mut store), Signal::Undelivered);
    assert!(!store.contains("00000000"));
    assert_eq!(store.read("a"), Ok(vec![]));
}

#[test]
fn local_error_overwrites_the_designated_flag() {
    let mut store = store_with(&["00000000", "err"]);
    store.write("err", vec![4, 5, 6]).unwrap();
    assert_eq!(vm_throw_local_error(&mut store, "err".to_string()), Signal::Local);
    assert_eq!(store.read("err"), Ok(vec![1]));
    assert_eq!(store.read("00000000"), Ok(vec![]));
}

#[test]
fn local_error_escalates_when_the_flag_is_missing() {
    let mut store = store_with(&["00000000"]);
    assert_eq!(vm_throw_local_error(&mut store, "err".to_string()), Signal::Global);
    assert_eq!(store.read("00000000"), Ok(vec![1]));
    assert!(!store.contains("err"));
}

#[test]
fn local_error_with_no_flag_at_all_is_reported() {
    let mut store = store_with(&["a"]);
    assert_eq!(vm_throw_local_error(&mut store, "err".to_string()), Signal::Undelivered);
    assert_eq!(store.read("a"), Ok(vec![]));
    assert!(!store.contains("err"));
    assert!(!store.contains("00000000"));
}

#[test]
fn access_returns_a_copy_of_the_contents() {
    let mut store = store_with(&["a", "err"]);
    store.write("a", vec![1, 2, 3]).unwrap();
    assert_eq!(vm_access_buffer(&mut store, "a".to_string(), "err".to_string()), Ok(vec![1, 2, 3]));
    assert_eq!(store.read("err"), Ok(vec![]));
    assert_eq!(store.read("a"), Ok(vec![1, 2, 3]));
}

#[test]
fn access_of_a_missing_buffer_signals() {
    let mut store = store_with(&["err", "00000000"]);
    assert_eq!(
        vm_access_buffer(&mut store, "a".to_string(), "err".to_string()),
        Err(Signal::Local)
    );
    assert_eq!(store.read("err"), Ok(vec![1]));
    assert_eq!(
        vm_access_buffer(&mut store, "a".to_string(), "nowhere".to_string()),
        Err(Signal::Global)
    );
    assert_eq!(store.read("00000000"), Ok(vec![1]));
    let mut bare = BufferStore::new();
    assert_eq!(
        vm_access_buffer(&mut bare, "a".to_string(), "err".to_string()),
        Err(Signal::Undelivered)
    );
}
