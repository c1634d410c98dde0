use slintwrapper::jrvalue::JRvalue;
use slintwrapper::error_state::ErrorState;
use slintwrapper::registry::{BridgeRegistry, InstanceSlot, NamedRegistry};

#[test]
fn error_state_starts_clear() {
    let e = ErrorState::new();
    assert!(!e.state);
    let r = e.report();
    assert_eq!(r.rtype, "ErrorState");
    assert_eq!(r.int_value, 0);
    assert_eq!(r.string_value, "");
}

#[test]
fn error_report_reads_last_set() {
    let mut e = ErrorState::new();
    e.set("first".to_string(), true);
    e.set("second".to_string(), true);
    let r = e.report();
    assert_eq!(r.int_value, 1);
    assert_eq!(r.string_value, "second");
    e.clear();
    let r = e.report();
    assert_eq!(r.int_value, 0);
    assert_eq!(r.string_value, "");
}

#[test]
fn diagnostics_message() {
    let mut e = ErrorState::new();
    e.record_diagnostics("r_compile_from_string", "[bad]");
    assert!(e.state);
    assert_eq!(e.desc, "r_compile_from_string: diagnostics is not empty: [bad]");
}

#[test]
fn missing_instance_messages() {
    let mut e = ErrorState::new();
    e.record_missing_instance("r_set_value", false);
    assert_eq!(
        e.desc,
        "r_set_value:no slint instance available, call Slint.CompileFromFile or Slint.CompileFromString"
    );
    e.record_missing_instance("r_get_value", true);
    assert_eq!(
        e.desc,
        "r_get_value:last slint instance dropped, call Slint.CompileFromFile or Slint.CompileFromString again"
    );
    assert!(e.state);
}

#[test]
fn named_registry_read_after_write() {
    let mut r: NamedRegistry<u32> = NamedRegistry::new();
    let k = "cells".to_string();
    assert!(!r.contains(&k));
    assert_eq!(r.get(&k), None);
    r.insert(k.clone(), 1);
    r.insert("other".to_string(), 2);
    assert!(r.contains(&k));
    assert_eq!(r.get(&k), Some(&1));
    r.insert(k.clone(), 3);
    assert_eq!(r.get(&k), Some(&3));
    assert_eq!(r.get(&"other".to_string()), Some(&2));
}

#[test]
fn bridge_registry_records_each_target_once() {
    let mut b = BridgeRegistry::new();
    let s = "names-list-bridge".to_string();
    assert!(!b.contains(&s));
    assert!(b.targets_of(&s).is_empty());
    b.insert(s.clone(), "names-list".to_string());
    b.insert(s.clone(), "names-list".to_string());
    b.insert(s.clone(), "second-list".to_string());
    assert!(b.contains(&s));
    assert_eq!(b.targets_of(&s), vec!["names-list".to_string(), "second-list".to_string()]);
}

#[test]
fn bridge_recorded_only_when_accepted() {
    let mut b = BridgeRegistry::new();
    let s = "src".to_string();
    b.record_transfer(s.clone(), "t".to_string(), false);
    assert!(!b.contains(&s));
    b.record_transfer(s.clone(), "t".to_string(), true);
    assert_eq!(b.targets_of(&s), vec!["t".to_string()]);
}

#[test]
fn instance_slot_holds_latest() {
    let mut slot: InstanceSlot<u8> = InstanceSlot::new();
    assert!(slot.is_empty());
    assert_eq!(slot.current(), None);
    slot.replace(1);
    slot.replace(2);
    assert!(!slot.is_empty());
    assert_eq!(slot.current(), Some(&2));
}

#[test]
fn failure_messages() {
    let mut e = ErrorState::new();
    e.record_callback_failure("button-clicked", "Err(NoSuchCallback)");
    assert_eq!(e.desc, "r_set_callback:setting callback \"button-clicked\" failed: Err(NoSuchCallback)");
    e.record_write_failure("cells", "Err(WrongType)");
    assert_eq!(e.desc, "r_set_value:setting property \"cells\" failed: Err(WrongType)");
    e.record_read_failure("cells", "Err(NoSuchProperty)");
    assert_eq!(e.desc, "r_get_value:getting property \"cells\" failed: Err(NoSuchProperty)");
    assert!(e.state);
}

#[test]
fn only_clearing_resets_the_error_flag() {
    let mut e = ErrorState::new();
    e.record_missing_instance("r_run", false);
    e.record_diagnostics("r_compile_from_file", "x");
    let _ = JRvalue::new_bool(true).callback_reply(&mut e);
    let _ = e.report();
    assert_eq!(e.report().int_value, 1);
    e.clear();
    assert_eq!(e.report().int_value, 0);
}
