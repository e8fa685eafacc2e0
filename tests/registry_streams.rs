use codex_manager::progress::{OperationStage, ProgressMessage};
use codex_manager::registry::ProgressRegistry;

#[test]
fn begin_registers_and_end_removes() {
    let mut reg = ProgressRegistry::new();
    assert_eq!(reg.active_count(), 0);
    let (id, _rx) = reg.begin_operation();
    assert!(reg.is_registered(&id));
    assert_eq!(reg.active_count(), 1);
    reg.end_operation(&id);
    assert!(!reg.is_registered(&id));
    assert_eq!(reg.active_count(), 0);
}

#[test]
fn minted_ids_are_uuid_and_serial() {
    let mut reg = ProgressRegistry::new();
    let (a, _ra) = reg.begin_operation();
    let (b, _rb) = reg.begin_operation();
    assert_ne!(a, b);
    assert_eq!(a.len(), 38);
    assert!(a.ends_with("-0"));
    assert!(b.ends_with("-1"));
    assert_eq!(a.matches('-').count(), 5);
}

#[test]
fn events_arrive_in_order() {
    let mut reg = ProgressRegistry::new();
    let (id, mut rx) = reg.begin_operation();
    reg.emit(&id, ProgressMessage::new(id.clone()));
    reg.emit(&id, ProgressMessage::new(id.clone()).with_stage(OperationStage::Completed));
    assert!(matches!(rx.try_recv().unwrap().stage, OperationStage::Initializing));
    assert!(matches!(rx.try_recv().unwrap().stage, OperationStage::Completed));
    assert!(rx.try_recv().is_err());
}

#[test]
fn emit_after_end_is_dropped() {
    let mut reg = ProgressRegistry::new();
    let (id, mut rx) = reg.begin_operation();
    reg.end_operation(&id);
    reg.emit(&id, ProgressMessage::new(id.clone()));
    assert!(!reg.is_registered(&id));
    assert_eq!(reg.active_count(), 0);
    assert!(rx.try_recv().is_err());
    reg.end_operation(&id);
    assert_eq!(reg.active_count(), 0);
}

#[test]
fn emit_on_unknown_id_is_dropped() {
    let mut reg = ProgressRegistry::new();
    let (id, mut rx) = reg.begin_operation();
    reg.emit(&"other".to_string(), ProgressMessage::new("other".to_string()));
    assert!(reg.is_registered(&id));
    assert!(rx.try_recv().is_err());
}

#[test]
fn can_begin_on_fresh_registry() {
    let reg = ProgressRegistry::new();
    assert!(reg.can_begin());
}
