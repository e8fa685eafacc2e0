use codex_manager::text::decimal_text;
use codex_manager::error::{map_codex_error, CodexError};
use codex_manager::progress::{Fraction, OperationStage, ProgressMessage};

#[test]
fn new_message_starts_initializing() {
    let m = ProgressMessage::new("op".to_string());
    assert_eq!(m.operation_id, "op");
    assert_eq!(m.progress, Fraction { numerator: 0, denominator: 1 });
    assert_eq!(m.bytes_processed, 0);
    assert_eq!(m.total_bytes, None);
    assert!(matches!(m.stage, OperationStage::Initializing));
    assert!(m.message.is_none());
}

#[test]
fn with_bytes_known_total_sets_fraction() {
    let m = ProgressMessage::new("op".to_string()).with_bytes(25, Some(100));
    assert_eq!(m.bytes_processed, 25);
    assert_eq!(m.total_bytes, Some(100));
    assert_eq!(m.progress, Fraction { numerator: 25, denominator: 100 });
}

#[test]
fn with_bytes_unknown_total_keeps_fraction() {
    let m = ProgressMessage::new("op".to_string())
        .with_bytes(5, Some(10))
        .with_bytes(7, None);
    assert_eq!(m.bytes_processed, 7);
    assert_eq!(m.total_bytes, None);
    assert_eq!(m.progress, Fraction { numerator: 5, denominator: 10 });
}

#[test]
fn with_stage_and_message_set_fields() {
    let m = ProgressMessage::new("op".to_string())
        .with_stage(OperationStage::Failed("boom".to_string()))
        .with_message("note".to_string());
    match m.stage {
        OperationStage::Failed(r) => assert_eq!(r, "boom"),
        _ => panic!("wrong stage"),
    }
    assert_eq!(m.message, Some("note".to_string()));
}

#[test]
fn error_texts() {
    let cases = vec![
        (CodexError::NodeCreation("x".to_string()), "Failed to create node: x"),
        (CodexError::NodeStart("x".to_string()), "Failed to start node: x"),
        (CodexError::NodeNotInitialized, "Node is not initialized"),
        (CodexError::NodeNotStarted, "Node is not started"),
        (CodexError::Upload("x".to_string()), "Upload failed: x"),
        (CodexError::Download("x".to_string()), "Download failed: x"),
        (CodexError::FileNotFound("a.txt".to_string()), "File not found: a.txt"),
        (CodexError::InvalidCid("x".to_string()), "Invalid CID: x"),
        (CodexError::Io("x".to_string()), "IO error: x"),
        (CodexError::Configuration("x".to_string()), "Configuration error: x"),
    ];
    for (e, text) in cases {
        assert_eq!(e.message(), text);
        assert_eq!(map_codex_error(e), text);
    }
}

#[test]
fn with_bytes_zero_total_keeps_fraction() {
    let m = ProgressMessage::new("op".to_string()).with_bytes(0, Some(0));
    assert_eq!(m.total_bytes, Some(0));
    assert_eq!(m.progress, Fraction { numerator: 0, denominator: 1 });
    let m = ProgressMessage::new("op".to_string())
        .with_bytes(3, Some(4))
        .with_bytes(9, Some(0));
    assert_eq!(m.progress, Fraction { numerator: 3, denominator: 4 });
}

#[test]
fn with_bytes_past_total_is_capped() {
    let m = ProgressMessage::new("op".to_string()).with_bytes(150, Some(100));
    assert_eq!(m.bytes_processed, 150);
    assert_eq!(m.progress, Fraction { numerator: 100, denominator: 100 });
}

#[test]
fn decimal_text_matches_notation() {
    assert_eq!(decimal_text(0), "0");
    assert_eq!(decimal_text(7), "7");
    assert_eq!(decimal_text(10), "10");
    assert_eq!(decimal_text(1234), "1234");
    assert_eq!(decimal_text(u64::MAX), u64::MAX.to_string());
}
