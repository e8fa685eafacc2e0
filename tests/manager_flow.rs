use codex_manager::commands::{
    download_response, node_addresses_outcome, peer_connect_outcome, upload_response,
};
use codex_manager::config::{DextoolsConfig, LogLevel};
use codex_manager::error::CodexError;
use codex_manager::manager::{CodexConnectionStatus, CodexManager, FileCheck};
use codex_manager::progress::{Fraction, OperationStage, ProgressMessage};
use tokio::sync::mpsc::UnboundedReceiver;

#[derive(Debug, Clone, PartialEq)]
struct FakeNode(u32);

fn fresh() -> CodexManager<FakeNode> {
    CodexManager::new(DextoolsConfig::new("/tmp/data".to_string()))
}

fn connected() -> CodexManager<FakeNode> {
    let mut m = fresh();
    assert!(m.begin_connect());
    m.finish_connect(Ok(FakeNode(1))).unwrap();
    m
}

fn drain(rx: &mut UnboundedReceiver<ProgressMessage>) -> Vec<ProgressMessage> {
    let mut out = Vec::new();
    while let Ok(e) = rx.try_recv() {
        out.push(e);
    }
    out
}

fn is_terminal(m: &ProgressMessage) -> bool {
    matches!(m.stage, OperationStage::Completed | OperationStage::Failed(_))
}

#[test]
fn config_defaults() {
    let c = DextoolsConfig::new("/d".to_string());
    assert_eq!(c.data_dir, "/d");
    assert_eq!(c.storage_quota, 1024 * 1024 * 1024);
    assert_eq!(c.max_peers, 50);
    assert_eq!(c.discovery_port, 8089);
    assert_eq!(c.log_level, LogLevel::Info);
    assert!(!c.auto_connect);
}

#[test]
fn new_manager_is_disconnected() {
    let m = fresh();
    assert_eq!(m.get_status(), CodexConnectionStatus::Disconnected);
    assert_eq!(CodexConnectionStatus::default(), CodexConnectionStatus::Disconnected);
    assert!(m.get_error().is_none());
    assert!(m.node().is_none());
    let n = m.get_network_info();
    assert!(n.peer_id.is_none());
    assert_eq!(n.connected_peers, 0);
    assert_eq!(n.max_peers, 50);
    let s = m.get_storage_info();
    assert_eq!(s.used_bytes, 0);
    assert_eq!(s.total_bytes, 1024 * 1024 * 1024);
    assert_eq!(s.available_bytes, 1024 * 1024 * 1024);
    assert_eq!(s.block_count, 0);
    assert_eq!(m.active_operations(), 0);
}

#[test]
fn connect_goes_through_connecting_to_connected() {
    let mut m = fresh();
    assert_eq!(m.get_status(), CodexConnectionStatus::Disconnected);
    assert!(m.begin_connect());
    assert_eq!(m.get_status(), CodexConnectionStatus::Connecting);
    assert!(m.finish_connect(Ok(FakeNode(3))).is_ok());
    assert_eq!(m.get_status(), CodexConnectionStatus::Connected);
    assert_eq!(m.node(), Some(&FakeNode(3)));
    m.update_network_info(Some("peer-x".to_string()), Some("v0.1".to_string()), None)
        .unwrap();
    let n = m.get_network_info();
    assert_eq!(n.peer_id, Some("peer-x".to_string()));
    assert_eq!(n.version, Some("v0.1".to_string()));
    assert_eq!(n.repo_path, None);
}

#[test]
fn connect_when_connected_is_a_no_op() {
    let mut m = connected();
    assert!(!m.begin_connect());
    assert_eq!(m.get_status(), CodexConnectionStatus::Connected);
    assert!(m.node().is_some());
}

#[test]
fn failed_connect_records_error() {
    let mut m = fresh();
    assert!(m.begin_connect());
    let r = m.finish_connect(Err(CodexError::NodeStart("port busy".to_string())));
    assert!(matches!(r, Err(CodexError::NodeStart(_))));
    assert_eq!(m.get_status(), CodexConnectionStatus::Error);
    assert_eq!(m.get_error(), Some("Failed to start node: port busy".to_string()));
    assert!(m.node().is_none());
    assert!(m.begin_connect());
    assert!(m.get_error().is_none());
}

#[test]
fn update_network_info_without_node_fails() {
    let mut m = fresh();
    let r = m.update_network_info(Some("p".to_string()), None, None);
    assert!(matches!(r, Err(CodexError::NodeNotInitialized)));
    assert!(m.get_network_info().peer_id.is_none());
}

#[test]
fn disconnect_clears_and_is_idempotent() {
    let mut m = connected();
    m.update_network_info(Some("p".to_string()), Some("v".to_string()), Some("r".to_string()))
        .unwrap();
    let node = m.disconnect();
    assert_eq!(node, Some(FakeNode(1)));
    assert_eq!(m.get_status(), CodexConnectionStatus::Disconnected);
    let n = m.get_network_info();
    assert!(n.peer_id.is_none() && n.version.is_none() && n.repo_path.is_none());
    assert!(m.disconnect().is_none());
    assert_eq!(m.get_status(), CodexConnectionStatus::Disconnected);
    assert!(m.get_error().is_none());
    assert!(m.get_network_info().peer_id.is_none());
}

#[test]
fn upload_missing_file_is_file_not_found() {
    let mut m = connected();
    let r = m.begin_upload(true, "missing.txt".to_string(), FileCheck::Missing);
    match r {
        Err(CodexError::FileNotFound(p)) => assert_eq!(p, "missing.txt"),
        _ => panic!("expected FileNotFound"),
    }
    assert_eq!(m.active_operations(), 0);
}

#[test]
fn upload_refusals_in_order() {
    let mut m = fresh();
    assert!(matches!(
        m.begin_upload(true, "a".to_string(), FileCheck::Present(3)),
        Err(CodexError::NodeNotInitialized)
    ));
    let mut m = connected();
    assert!(matches!(
        m.begin_upload(false, "a".to_string(), FileCheck::Missing),
        Err(CodexError::NodeNotStarted)
    ));
    match m.begin_upload(true, "a".to_string(), FileCheck::Unreadable) {
        Err(CodexError::FileNotFound(p)) => assert_eq!(p, "a"),
        _ => panic!("expected FileNotFound"),
    }
    assert_eq!(m.active_operations(), 0);
}

#[test]
fn download_empty_cid_is_invalid() {
    let mut m = fresh();
    match m.begin_download(true, &String::new()) {
        Err(CodexError::InvalidCid(t)) => assert_eq!(t, "CID cannot be empty"),
        _ => panic!("expected InvalidCid"),
    }
    let mut m = connected();
    assert!(matches!(
        m.begin_download(false, &String::new()),
        Err(CodexError::InvalidCid(_))
    ));
    assert_eq!(m.active_operations(), 0);
}

#[test]
fn download_refusals_without_node() {
    let mut m = fresh();
    assert!(matches!(
        m.begin_download(true, &"zQm".to_string()),
        Err(CodexError::NodeNotInitialized)
    ));
    let mut m = connected();
    assert!(matches!(
        m.begin_download(false, &"zQm".to_string()),
        Err(CodexError::NodeNotStarted)
    ));
}

#[test]
fn upload_stream_ends_with_completed() {
    let mut m = connected();
    let (id, mut rx) = m
        .begin_upload(true, "a.bin".to_string(), FileCheck::Present(1234))
        .unwrap();
    assert!(m.is_operation_active(&id));
    m.report_upload_progress(&id, 600, Some(1234));
    let cid = m.finish_upload(&id, 1234, Ok("zCid".to_string())).unwrap();
    assert_eq!(cid, "zCid");
    assert!(!m.is_operation_active(&id));
    let events = drain(&mut rx);
    assert_eq!(events.len(), 4);
    assert!(matches!(events[0].stage, OperationStage::Initializing));
    assert!(matches!(events[1].stage, OperationStage::Uploading));
    assert_eq!(events[1].total_bytes, Some(1234));
    assert_eq!(events[1].message, Some("Starting upload of 1234 bytes".to_string()));
    assert_eq!(events[2].bytes_processed, 600);
    assert_eq!(events[2].progress, Fraction { numerator: 600, denominator: 1234 });
    assert_eq!(events[2].message, Some("Uploaded 600 bytes".to_string()));
    assert!(matches!(events[3].stage, OperationStage::Completed));
    assert_eq!(events[3].bytes_processed, 1234);
    assert_eq!(events[3].message, Some("Upload completed successfully".to_string()));
    assert!(events.iter().all(|e| e.operation_id == id));
    assert_eq!(events.iter().filter(|e| is_terminal(e)).count(), 1);
    m.report_upload_progress(&id, 700, Some(1234));
    assert!(drain(&mut rx).is_empty());
}

#[test]
fn upload_failure_ends_with_failed() {
    let mut m = connected();
    let (id, mut rx) = m
        .begin_upload(true, "a.bin".to_string(), FileCheck::Present(10))
        .unwrap();
    let r = m.finish_upload(&id, 10, Err("network down".to_string()));
    match r {
        Err(CodexError::Upload(e)) => assert_eq!(e, "network down"),
        _ => panic!("expected Upload error"),
    }
    assert_eq!(m.active_operations(), 0);
    let events = drain(&mut rx);
    assert_eq!(events.len(), 3);
    match &events[2].stage {
        OperationStage::Failed(r) => assert_eq!(r, "network down"),
        _ => panic!("expected Failed"),
    }
    assert_eq!(events.iter().filter(|e| is_terminal(e)).count(), 1);
}

#[test]
fn download_stream_ends_with_completed() {
    let mut m = connected();
    let (id, mut rx) = m.begin_download(true, &"zQm1".to_string()).unwrap();
    m.report_download_progress(&id, 42, None);
    assert!(m.finish_download(&id, Ok(99)).is_ok());
    assert_eq!(m.active_operations(), 0);
    let events = drain(&mut rx);
    assert_eq!(events.len(), 4);
    assert!(matches!(events[1].stage, OperationStage::Downloading));
    assert_eq!(events[1].message, Some("Starting download of CID: zQm1".to_string()));
    assert_eq!(events[2].progress, Fraction { numerator: 0, denominator: 1 });
    assert_eq!(events[2].message, Some("Downloaded 42 bytes".to_string()));
    assert!(matches!(events[3].stage, OperationStage::Completed));
    assert_eq!(events[3].total_bytes, Some(99));
    assert_eq!(events[3].message, Some("Download completed successfully".to_string()));
}

#[test]
fn download_failure_is_download_error() {
    let mut m = connected();
    let (id, mut rx) = m.begin_download(true, &"zQm1".to_string()).unwrap();
    let r = m.finish_download(&id, Err("not found".to_string()));
    assert!(matches!(r, Err(CodexError::Download(_))));
    let events = drain(&mut rx);
    assert!(matches!(events.last().unwrap().stage, OperationStage::Failed(_)));
    assert_eq!(m.active_operations(), 0);
}

#[test]
fn two_concurrent_uploads_are_independent() {
    let mut m = connected();
    let (a, mut ra) = m.begin_upload(true, "a".to_string(), FileCheck::Present(10)).unwrap();
    let (b, mut rb) = m.begin_upload(true, "b".to_string(), FileCheck::Present(20)).unwrap();
    assert_ne!(a, b);
    assert_eq!(m.active_operations(), 2);
    m.report_upload_progress(&b, 5, Some(20));
    m.report_upload_progress(&a, 3, Some(10));
    m.finish_upload(&b, 20, Ok("cid-b".to_string())).unwrap();
    assert_eq!(m.active_operations(), 1);
    m.report_upload_progress(&a, 7, Some(10));
    m.finish_upload(&a, 10, Ok("cid-a".to_string())).unwrap();
    assert_eq!(m.active_operations(), 0);
    let ea = drain(&mut ra);
    let eb = drain(&mut rb);
    assert_eq!(ea.len(), 5);
    assert_eq!(eb.len(), 4);
    assert!(ea.iter().all(|e| e.operation_id == a));
    assert!(eb.iter().all(|e| e.operation_id == b));
    assert!(matches!(ea.last().unwrap().stage, OperationStage::Completed));
    assert!(matches!(eb.last().unwrap().stage, OperationStage::Completed));
}

#[test]
fn node_readiness() {
    let m = fresh();
    assert!(matches!(m.check_node_ready(true), Err(CodexError::NodeNotInitialized)));
    let m = connected();
    assert!(matches!(m.check_node_ready(false), Err(CodexError::NodeNotStarted)));
    assert!(m.check_node_ready(true).is_ok());
}

#[test]
fn command_results() {
    let u = upload_response("zCid".to_string());
    assert_eq!(u.cid, "zCid");
    assert_eq!((u.size, u.duration_ms, u.verified), (0, 0, true));
    let d = download_response("zCid".to_string(), "/tmp/out".to_string());
    assert_eq!(d.filepath, Some("/tmp/out".to_string()));
    assert_eq!((d.size, d.duration_ms, d.verified), (0, 0, true));
    assert!(peer_connect_outcome(Ok(())).is_ok());
    match peer_connect_outcome(Err("refused".to_string())) {
        Err(CodexError::Configuration(e)) => assert_eq!(e, "refused"),
        _ => panic!("expected Configuration"),
    }
    let a = node_addresses_outcome(Ok(vec!["/ip4/1.2.3.4".to_string()])).unwrap();
    assert_eq!(a, vec!["/ip4/1.2.3.4".to_string()]);
    assert!(matches!(
        node_addresses_outcome(Err("x".to_string())),
        Err(CodexError::Configuration(_))
    ));
}

#[test]
fn empty_file_upload_keeps_fraction_in_range() {
    let mut m = connected();
    let (id, mut rx) = m
        .begin_upload(true, "empty.txt".to_string(), FileCheck::Present(0))
        .unwrap();
    m.finish_upload(&id, 0, Ok("zEmpty".to_string())).unwrap();
    let events = drain(&mut rx);
    assert_eq!(events.len(), 3);
    for e in &events {
        assert!(e.progress.denominator > 0);
        assert!(e.progress.numerator <= e.progress.denominator);
    }
    assert_eq!(events[1].total_bytes, Some(0));
    assert_eq!(events[2].progress, Fraction { numerator: 0, denominator: 1 });
    assert!(matches!(events[2].stage, OperationStage::Completed));
}

#[test]
fn empty_download_keeps_fraction_in_range() {
    let mut m = connected();
    let (id, mut rx) = m.begin_download(true, &"zQm0".to_string()).unwrap();
    m.finish_download(&id, Ok(0)).unwrap();
    let events = drain(&mut rx);
    let last = events.last().unwrap();
    assert_eq!(last.progress, Fraction { numerator: 0, denominator: 1 });
    assert_eq!(last.total_bytes, Some(0));
}

#[test]
fn storage_snapshot_is_stub_after_activity() {
    let mut m = connected();
    let (id, _rx) = m.begin_upload(true, "a".to_string(), FileCheck::Present(5)).unwrap();
    m.finish_upload(&id, 5, Ok("c".to_string())).unwrap();
    m.disconnect();
    let s = m.get_storage_info();
    assert_eq!(s.used_bytes, 0);
    assert_eq!(s.block_count, 0);
    assert_eq!(s.available_bytes, s.total_bytes);
    assert_eq!(s.total_bytes, 1024 * 1024 * 1024);
}

#[test]
fn can_begin_operation_on_fresh_manager() {
    assert!(fresh().can_begin_operation());
}
