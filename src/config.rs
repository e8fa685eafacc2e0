use vstd::prelude::*;

verus! {

/// How much the node logs.
#[derive(Debug, Clone, Copy, PartialEq, Eq, Structural)]
pub enum LogLevel {
    Trace,
    Debug,
    Info,
    Warn,
    Error,
}

/// What the node is created from.
#[derive(Debug, Clone)]
pub struct DextoolsConfig {
    pub data_dir: String,
    pub storage_quota: u64,
    pub max_peers: u32,
    pub discovery_port: u16,
    pub log_level: LogLevel,
    pub auto_connect: bool,
}

pub const DEFAULT_STORAGE_QUOTA: u64 = 1073741824;

pub const DEFAULT_MAX_PEERS: u32 = 50;

pub const DEFAULT_DISCOVERY_PORT: u16 = 8089;

impl DextoolsConfig {
    /// The default settings for a node kept under `data_dir`: a quota of one
    /// GiB, fifty peers, discovery on port 8089, `Info` logging, no auto-connect.
    pub fn new(data_dir: String) -> (r: Self)
        ensures
            r.data_dir == data_dir,
            r.storage_quota == DEFAULT_STORAGE_QUOTA,
            r.max_peers == DEFAULT_MAX_PEERS,
            r.discovery_port == DEFAULT_DISCOVERY_PORT,
            r.log_level == LogLevel::Info,
            !r.auto_connect,
    {
        DextoolsConfig {
            data_dir,
            storage_quota: DEFAULT_STORAGE_QUOTA,
            max_peers: DEFAULT_MAX_PEERS,
            discovery_port: DEFAULT_DISCOVERY_PORT,
            log_level: LogLevel::Info,
            auto_connect: false,
        }
    }
}

/// Cached view of the node's identity; `connected_peers` is a placeholder,
/// as the node offers no live peer count.
#[derive(Debug, Clone)]
pub struct NetworkInfo {
    pub peer_id: Option<String>,
    pub version: Option<String>,
    pub repo_path: Option<String>,
    pub connected_peers: u32,
    pub max_peers: u32,
}

/// Storage accounting. No live counter feeds it: it holds the configured
/// capacity and zero usage.
#[derive(Debug, Clone, Copy, PartialEq, Eq, Structural)]
pub struct StorageInfo {
    pub used_bytes: u64,
    pub total_bytes: u64,
    pub available_bytes: u64,
    pub block_count: u32,
}

fn copy_text(t: &Option<String>) -> (r: Option<String>)
    ensures
        r == *t,
{
    match t {
        Some(s) => Some(s.clone()),
        None => None,
    }
}

impl NetworkInfo {
    pub fn duplicate(&self) -> (r: NetworkInfo)
        ensures
            r == *self,
    {
        NetworkInfo {
            peer_id: copy_text(&self.peer_id),
            version: copy_text(&self.version),
            repo_path: copy_text(&self.repo_path),
            connected_peers: self.connected_peers,
            max_peers: self.max_peers,
        }
    }
}

} // verus!
