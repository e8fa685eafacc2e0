use vstd::prelude::*;
use crate::error::CodexError;

verus! {

/// What an upload command answers; sizes and timings travel on the progress
/// stream instead.
#[derive(Debug)]
pub struct UploadResultResponse {
    pub cid: String,
    pub size: usize,
    pub duration_ms: u64,
    pub verified: bool,
}

/// What a download command answers; sizes and timings travel on the progress
/// stream instead.
#[derive(Debug)]
pub struct DownloadResultResponse {
    pub cid: String,
    pub size: usize,
    pub duration_ms: u64,
    pub verified: bool,
    pub filepath: Option<String>,
}

pub fn upload_response(cid: String) -> (r: UploadResultResponse)
    ensures
        r == (UploadResultResponse { cid, size: 0, duration_ms: 0, verified: true }),
{
    UploadResultResponse { cid, size: 0, duration_ms: 0, verified: true }
}

pub fn download_response(cid: String, save_path: String) -> (r: DownloadResultResponse)
    ensures
        r == (DownloadResultResponse {
            cid,
            size: 0,
            duration_ms: 0,
            verified: true,
            filepath: Some(save_path),
        }),
{
    DownloadResultResponse { cid, size: 0, duration_ms: 0, verified: true, filepath: Some(save_path) }
}

/// The outcome of asking the node to dial a peer; a failure is a configuration error.
pub fn peer_connect_outcome(outcome: Result<(), String>) -> (r: Result<(), CodexError>)
    ensures
        match outcome {
            Ok(_) => r is Ok,
            Err(e) => r == Err::<(), CodexError>(CodexError::Configuration(e)),
        },
{
    match outcome {
        Ok(()) => Ok(()),
        Err(e) => Err(CodexError::Configuration(e)),
    }
}

/// The node's listening addresses from its debug report; a failure is a configuration error.
pub fn node_addresses_outcome(outcome: Result<Vec<String>, String>) -> (r: Result<Vec<String>, CodexError>)
    ensures
        match outcome {
            Ok(a) => r == Ok::<Vec<String>, CodexError>(a),
            Err(e) => r == Err::<Vec<String>, CodexError>(CodexError::Configuration(e)),
        },
{
    match outcome {
        Ok(a) => Ok(a),
        Err(e) => Err(CodexError::Configuration(e)),
    }
}

} // verus!
