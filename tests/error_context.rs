use jrserial::ErrorStore;

#[test]
fn new_store_has_no_error() {
    let s = ErrorStore::new();
    assert_eq!(s.get_last_error_string(), None);
}

#[test]
fn recorded_error_reports_message_and_location() {
    let mut s = ErrorStore::new();
    s.set_error("Write failed: port handle is null", "lib.rs:271");
    let r = s.get_last_error_string().unwrap();
    assert!(!r.is_empty());
    assert_eq!(r, "Write failed: port handle is null (at lib.rs:271)");
}

#[test]
fn clearing_removes_error() {
    let mut s = ErrorStore::new();
    s.set_error("Flush failed", "lib.rs:377");
    s.clear_error();
    assert_eq!(s.get_last_error_string(), None);
}

#[test]
fn second_error_replaces_first() {
    let mut s = ErrorStore::new();
    s.set_error("first", "a.rs:1");
    s.set_error("second", "b.rs:2");
    let r = s.get_last_error_string().unwrap();
    assert_eq!(r, "second (at b.rs:2)");
    assert!(!r.contains("first"));
}

#[test]
fn empty_message_still_reports_location() {
    let mut s = ErrorStore::new();
    s.set_error("", "");
    assert_eq!(s.get_last_error_string().unwrap(), " (at )");
}
