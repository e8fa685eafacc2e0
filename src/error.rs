use vstd::prelude::*;
use vstd::string::*;

verus! {

/// What can go wrong while driving the node.
#[derive(Debug, Clone)]
pub enum CodexError {
    NodeCreation(String),
    NodeStart(String),
    NodeNotInitialized,
    NodeNotStarted,
    Upload(String),
    Download(String),
    FileNotFound(String),
    InvalidCid(String),
    Io(String),
    Configuration(String),
}

/// The human-readable text of an error.
pub open spec fn error_text(e: CodexError) -> Seq<char> {
    match e {
        CodexError::NodeCreation(m) => "Failed to create node: "@ + m@,
        CodexError::NodeStart(m) => "Failed to start node: "@ + m@,
        CodexError::NodeNotInitialized => "Node is not initialized"@,
        CodexError::NodeNotStarted => "Node is not started"@,
        CodexError::Upload(m) => "Upload failed: "@ + m@,
        CodexError::Download(m) => "Download failed: "@ + m@,
        CodexError::FileNotFound(p) => "File not found: "@ + p@,
        CodexError::InvalidCid(m) => "Invalid CID: "@ + m@,
        CodexError::Io(m) => "IO error: "@ + m@,
        CodexError::Configuration(m) => "Configuration error: "@ + m@,
    }
}

fn prefixed(prefix: &str, detail: &String) -> (r: String)
    ensures
        r@ == prefix@ + detail@,
{
    let mut r = String::from_str(prefix);
    r.append(detail.as_str());
    r
}

impl CodexError {
    /// The error as text, as a caller of the command surface receives it.
    pub fn message(&self) -> (r: String)
        ensures
            r@ == error_text(*self),
    {
        match self {
            CodexError::NodeCreation(m) => prefixed("Failed to create node: ", m),
            CodexError::NodeStart(m) => prefixed("Failed to start node: ", m),
            CodexError::NodeNotInitialized => String::from_str("Node is not initialized"),
            CodexError::NodeNotStarted => String::from_str("Node is not started"),
            CodexError::Upload(m) => prefixed("Upload failed: ", m),
            CodexError::Download(m) => prefixed("Download failed: ", m),
            CodexError::FileNotFound(p) => prefixed("File not found: ", p),
            CodexError::InvalidCid(m) => prefixed("Invalid CID: ", m),
            CodexError::Io(m) => prefixed("IO error: ", m),
            CodexError::Configuration(m) => prefixed("Configuration error: ", m),
        }
    }
}

/// Turns an error into the string that the command surface returns.
pub fn map_codex_error(err: CodexError) -> (r: String)
    ensures
        r@ == error_text(err),
{
    err.message()
}

} // verus!
