use vstd::prelude::*;
use vstd::string::*;
use tokio::sync::mpsc::UnboundedReceiver;
use crate::config::{DextoolsConfig, NetworkInfo, StorageInfo};
use crate::error::{error_text, CodexError};
use crate::progress::{fraction_after, Fraction, OperationStage, ProgressMessage};
use crate::registry::{
    begin_model, emit_model, end_model, ends_with_one_terminal, has_no_terminal, is_known,
    lemma_close_with_terminal, run_steps, ProgressRegistry, RegistryModel, RegistryStep,
};
use crate::text::{decimal, decimal_text};

verus! {

/// The lifecycle of the connection to the node.
#[derive(Debug, Clone, Copy, PartialEq, Eq, Structural)]
pub enum CodexConnectionStatus {
    Disconnected,
    Connecting,
    Connected,
    Error,
}

impl Default for CodexConnectionStatus {
    fn default() -> (r: Self)
        ensures
            r == CodexConnectionStatus::Disconnected,
    {
        CodexConnectionStatus::Disconnected
    }
}

/// What the caller found at the path of a file to upload: nothing, something
/// that is not a readable file, or a readable file of the given size.
pub enum FileCheck {
    Missing,
    Unreadable,
    Present(usize),
}

/// The abstract state of a manager.
pub struct ManagerModel {
    pub status: CodexConnectionStatus,
    pub error: Option<Seq<char>>,
    pub has_node: bool,
    pub network: NetworkInfo,
    pub storage: StorageInfo,
    pub config: DextoolsConfig,
    pub progress: RegistryModel,
}

pub open spec fn cleared_network(n: NetworkInfo) -> NetworkInfo {
    NetworkInfo { peer_id: None, version: None, repo_path: None, connected_peers: 0, max_peers: n.max_peers }
}

/// The state after `disconnect`.
pub open spec fn disconnect_model(m: ManagerModel) -> ManagerModel {
    ManagerModel {
        status: CodexConnectionStatus::Disconnected,
        error: None,
        has_node: false,
        network: cleared_network(m.network),
        ..m
    }
}

/// Whether `begin_connect` goes ahead: not while connecting or connected.
pub open spec fn connect_proceeds(m: ManagerModel) -> bool {
    m.status != CodexConnectionStatus::Connecting && m.status != CodexConnectionStatus::Connected
}

/// The state after `begin_connect`.
pub open spec fn begin_connect_model(m: ManagerModel) -> ManagerModel {
    if connect_proceeds(m) {
        ManagerModel { status: CodexConnectionStatus::Connecting, error: None, ..m }
    } else {
        m
    }
}

/// The state after `finish_connect` with a node that was created and started.
pub open spec fn connected_model(m: ManagerModel) -> ManagerModel {
    ManagerModel { status: CodexConnectionStatus::Connected, error: None, has_node: true, ..m }
}

/// The state after `finish_connect` with a failure.
pub open spec fn failed_connect_model(m: ManagerModel, e: CodexError) -> ManagerModel {
    ManagerModel {
        status: CodexConnectionStatus::Error,
        error: Some(error_text(e)),
        has_node: false,
        ..m
    }
}

pub open spec fn text_is(t: Option<String>, s: Seq<char>) -> bool {
    match t {
        Some(x) => x@ == s,
        None => false,
    }
}

/// The event that opens every transfer's stream.
pub open spec fn initial_event(m: ProgressMessage, id: Seq<char>) -> bool {
    &&& m.operation_id@ == id
    &&& m.progress == (Fraction { numerator: 0, denominator: 1 })
    &&& m.bytes_processed == 0
    &&& m.total_bytes is None
    &&& m.stage is Initializing
    &&& m.message is None
}

pub open spec fn upload_start_event(m: ProgressMessage, id: Seq<char>, size: usize) -> bool {
    &&& m.operation_id@ == id
    &&& m.progress == fraction_after(Fraction { numerator: 0, denominator: 1 }, 0, Some(size))
    &&& m.progress.in_unit_range()
    &&& m.bytes_processed == 0
    &&& m.total_bytes == Some(size)
    &&& m.stage is Uploading
    &&& text_is(m.message, "Starting upload of "@ + decimal(size as nat) + " bytes"@)
}

pub open spec fn download_start_event(m: ProgressMessage, id: Seq<char>, cid: Seq<char>) -> bool {
    &&& m.operation_id@ == id
    &&& m.progress == (Fraction { numerator: 0, denominator: 1 })
    &&& m.bytes_processed == 0
    &&& m.total_bytes is None
    &&& m.stage is Downloading
    &&& text_is(m.message, "Starting download of CID: "@ + cid)
}

/// The fraction of a fresh event after a report of `bytes` out of `total`.
pub open spec fn reported_fraction(bytes: usize, total: Option<usize>) -> Fraction {
    fraction_after(Fraction { numerator: 0, denominator: 1 }, bytes, total)
}

pub open spec fn upload_progress_event(m: ProgressMessage, id: Seq<char>, bytes: usize, total: Option<usize>) -> bool {
    &&& m.operation_id@ == id
    &&& m.progress == reported_fraction(bytes, total)
    &&& m.progress.in_unit_range()
    &&& m.bytes_processed == bytes
    &&& m.total_bytes == total
    &&& m.stage is Uploading
    &&& text_is(m.message, "Uploaded "@ + decimal(bytes as nat) + " bytes"@)
}

pub open spec fn download_progress_event(m: ProgressMessage, id: Seq<char>, bytes: usize, total: Option<usize>) -> bool {
    &&& m.operation_id@ == id
    &&& m.progress == reported_fraction(bytes, total)
    &&& m.progress.in_unit_range()
    &&& m.bytes_processed == bytes
    &&& m.total_bytes == total
    &&& m.stage is Downloading
    &&& text_is(m.message, "Downloaded "@ + decimal(bytes as nat) + " bytes"@)
}

/// The terminal event of a transfer that moved `size` bytes.
pub open spec fn completed_event(m: ProgressMessage, id: Seq<char>, size: usize, text: Seq<char>) -> bool {
    &&& m.operation_id@ == id
    &&& m.progress == fraction_after(Fraction { numerator: 0, denominator: 1 }, size, Some(size))
    &&& m.progress.in_unit_range()
    &&& m.bytes_processed == size
    &&& m.total_bytes == Some(size)
    &&& m.stage is Completed
    &&& text_is(m.message, text)
}

/// The terminal event of a transfer that failed for `reason`.
pub open spec fn failed_event(m: ProgressMessage, id: Seq<char>, reason: Seq<char>) -> bool {
    &&& m.operation_id@ == id
    &&& m.progress == (Fraction { numerator: 0, denominator: 1 })
    &&& m.bytes_processed == 0
    &&& m.total_bytes is None
    &&& match m.stage {
        OperationStage::Failed(r) => r@ == reason,
        _ => false,
    }
    &&& m.message is None
}

/// The model with only its progress registry replaced.
pub open spec fn with_progress(m: ManagerModel, p: RegistryModel) -> ManagerModel {
    ManagerModel { progress: p, ..m }
}

/// A stream was opened on the fresh id `id` and two events were sent on it;
/// nothing else changed.
pub open spec fn stream_begun(old: ManagerModel, new: ManagerModel, id: Seq<char>) -> bool {
    &&& !is_known(old.progress, id)
    &&& new.progress.live.contains_key(id)
    &&& new.progress.live[id].len() == 2
    &&& new == with_progress(old, emit_model(emit_model(begin_model(old.progress, id), id,
        new.progress.live[id][0]), id, new.progress.live[id][1]))
}

/// The event `t` was sent on `id`'s stream, then `id` was retired; nothing
/// else changed.
pub open spec fn closed_by(old: ManagerModel, new: ManagerModel, id: Seq<char>, t: ProgressMessage) -> bool {
    new == with_progress(old, end_model(emit_model(old.progress, id, t), id))
}

fn counted_text(prefix: &str, n: usize, suffix: &str) -> (r: String)
    ensures
        r@ == prefix@ + decimal(n as nat) + suffix@,
{
    let mut r = String::from_str(prefix);
    let digits = decimal_text(n as u64);
    r.append(digits.as_str());
    r.append(suffix);
    r
}

fn initial_message(id: &String) -> (m: ProgressMessage)
    ensures
        initial_event(m, id@),
{
    ProgressMessage::new(id.clone()).with_stage(OperationStage::Initializing)
}

fn upload_start_message(id: &String, size: usize) -> (m: ProgressMessage)
    ensures
        upload_start_event(m, id@, size),
{
    let text = counted_text("Starting upload of ", size, " bytes");
    ProgressMessage::new(id.clone()).with_stage(OperationStage::Uploading).with_bytes(
        0,
        Some(size),
    ).with_message(text)
}

fn download_start_message(id: &String, cid: &String) -> (m: ProgressMessage)
    ensures
        download_start_event(m, id@, cid@),
{
    let mut text = String::from_str("Starting download of CID: ");
    text.append(cid.as_str());
    ProgressMessage::new(id.clone()).with_stage(OperationStage::Downloading).with_message(text)
}

fn completed_message(id: &String, size: usize, text: &str) -> (m: ProgressMessage)
    ensures
        completed_event(m, id@, size, text@),
{
    ProgressMessage::new(id.clone()).with_stage(OperationStage::Completed).with_bytes(
        size,
        Some(size),
    ).with_message(String::from_str(text))
}

fn failed_message(id: &String, reason: &String) -> (m: ProgressMessage)
    ensures
        failed_event(m, id@, reason@),
{
    ProgressMessage::new(id.clone()).with_stage(OperationStage::Failed(reason.clone()))
}

/// Right after a connection succeeds the status is `Connected` with a node;
/// right after a disconnect it is `Disconnected` with no node, error or node
/// identity; a failed connection leaves `Error` and no node.
pub proof fn lemma_status_follows_connection_calls(m: ManagerModel, e: CodexError)
    ensures
        connect_proceeds(m) ==> begin_connect_model(m).status == CodexConnectionStatus::Connecting,
        connected_model(m).status == CodexConnectionStatus::Connected,
        connected_model(m).has_node,
        disconnect_model(m).status == CodexConnectionStatus::Disconnected,
        !disconnect_model(m).has_node,
        disconnect_model(m).error is None,
        disconnect_model(m).network == cleared_network(disconnect_model(m).network),
        failed_connect_model(m, e).status == CodexConnectionStatus::Error,
        !failed_connect_model(m, e).has_node,
{
}

/// One of the calls that move the connection state.
pub enum ConnectionCall {
    BeginConnect,
    ConnectSucceeded,
    ConnectFailed(CodexError),
    Disconnect,
}

/// The state after one call, as `begin_connect`, `finish_connect` and
/// `disconnect` leave it.
pub open spec fn apply_call(m: ManagerModel, c: ConnectionCall) -> ManagerModel {
    match c {
        ConnectionCall::BeginConnect => begin_connect_model(m),
        ConnectionCall::ConnectSucceeded => connected_model(m),
        ConnectionCall::ConnectFailed(e) => failed_connect_model(m, e),
        ConnectionCall::Disconnect => disconnect_model(m),
    }
}

/// The state after a sequence of calls, in order.
pub open spec fn run_calls(m: ManagerModel, calls: Seq<ConnectionCall>) -> ManagerModel
    decreases calls.len(),
{
    if calls.len() == 0 {
        m
    } else {
        apply_call(run_calls(m, calls.drop_last()), calls.last())
    }
}

/// What a reader may rely on at any moment: a node exactly while connected,
/// an error only in the `Error` state, no node identity while disconnected.
pub open spec fn consistent(m: ManagerModel) -> bool {
    &&& (m.has_node <==> m.status == CodexConnectionStatus::Connected)
    &&& (m.error is Some ==> m.status == CodexConnectionStatus::Error)
    &&& (m.status == CodexConnectionStatus::Disconnected ==> m.network == cleared_network(m.network))
}

/// For every sequence of connection calls, the state stays consistent, and the
/// status is `Connected` right after a successful connection and
/// `Disconnected` right after a disconnect.
pub proof fn lemma_connection_calls_keep_state_consistent(m: ManagerModel, calls: Seq<ConnectionCall>)
    requires
        consistent(m),
    ensures
        consistent(run_calls(m, calls)),
        calls.len() > 0 && calls.last() is ConnectSucceeded ==> run_calls(m, calls).status
            == CodexConnectionStatus::Connected,
        calls.len() > 0 && calls.last() is Disconnect ==> run_calls(m, calls).status
            == CodexConnectionStatus::Disconnected,
    decreases calls.len(),
{
    if calls.len() > 0 {
        lemma_connection_calls_keep_state_consistent(m, calls.drop_last());
    }
}

/// Disconnecting twice leaves the same state as disconnecting once.
pub proof fn lemma_disconnect_idempotent(m: ManagerModel)
    ensures
        disconnect_model(disconnect_model(m)) == disconnect_model(m),
{
}

/// Two transfers begun one after the other get distinct ids.
pub proof fn lemma_transfer_ids_distinct(
    m0: ManagerModel,
    m1: ManagerModel,
    m2: ManagerModel,
    a: Seq<char>,
    b: Seq<char>,
)
    requires
        stream_begun(m0, m1, a),
        stream_begun(m1, m2, b),
    ensures
        a != b,
        m2.progress.live.contains_key(a),
        m2.progress.live.contains_key(b),
{
}

/// A transfer's stream, as `begin_upload` or `begin_download` leaves it, holds
/// no terminal event.
pub proof fn lemma_begun_stream_is_open(old: ManagerModel, new: ManagerModel, id: Seq<char>, size: usize, cid: Seq<char>)
    requires
        stream_begun(old, new, id),
        initial_event(new.progress.live[id][0], id),
        upload_start_event(new.progress.live[id][1], id, size) || download_start_event(
            new.progress.live[id][1],
            id,
            cid,
        ),
    ensures
        has_no_terminal(new.progress.live[id]),
{
}

/// Progress reports carry no terminal event.
pub proof fn lemma_reports_are_not_terminal(m: ProgressMessage, id: Seq<char>, bytes: usize, total: Option<usize>)
    requires
        upload_progress_event(m, id, bytes, total) || download_progress_event(m, id, bytes, total),
    ensures
        !m.is_terminal(),
{
}

/// A transfer whose stream held no terminal event, closed by `finish_upload` or
/// `finish_download`, leaves a retired stream whose last event is its only
/// terminal one.
pub proof fn lemma_transfer_closes_once(
    old: ManagerModel,
    new: ManagerModel,
    id: Seq<char>,
    t: ProgressMessage,
    size: usize,
    text: Seq<char>,
    reason: Seq<char>,
)
    requires
        old.progress.live.contains_key(id),
        has_no_terminal(old.progress.live[id]),
        closed_by(old, new, id, t),
        completed_event(t, id, size, text) || failed_event(t, id, reason),
    ensures
        !new.progress.live.contains_key(id),
        new.progress.closed[id] == old.progress.live[id].push(t),
        ends_with_one_terminal(new.progress.closed[id]),
{
    lemma_close_with_terminal(old.progress, id, t);
}

/// Each transfer call of the manager is a run of registry calls on its id:
/// beginning is a begin and two emits, a progress report is one emit, and
/// finishing is an emit and an end. Interleaved transfers thus fall under the
/// registry's laws on runs of calls.
pub proof fn lemma_transfer_calls_as_steps(
    old: ManagerModel,
    new: ManagerModel,
    id: Seq<char>,
    m: ProgressMessage,
)
    ensures
        stream_begun(old, new, id) ==> new.progress == run_steps(
            old.progress,
            seq![
                RegistryStep::Begin(id),
                RegistryStep::Emit(id, new.progress.live[id][0]),
                RegistryStep::Emit(id, new.progress.live[id][1]),
            ],
        ),
        new == with_progress(old, emit_model(old.progress, id, m)) ==> new.progress == run_steps(
            old.progress,
            seq![RegistryStep::Emit(id, m)],
        ),
        closed_by(old, new, id, m) ==> new.progress == run_steps(
            old.progress,
            seq![RegistryStep::Emit(id, m), RegistryStep::End(id)],
        ),
{
    reveal_with_fuel(run_steps, 4);
    let s3 = seq![
        RegistryStep::Begin(id),
        RegistryStep::Emit(id, new.progress.live[id][0]),
        RegistryStep::Emit(id, new.progress.live[id][1]),
    ];
    assert(s3.drop_last() =~= seq![RegistryStep::Begin(id), RegistryStep::Emit(id, new.progress.live[id][0])]);
    assert(s3.drop_last().drop_last() =~= seq![RegistryStep::Begin(id)]);
    assert(s3.drop_last().drop_last().drop_last() =~= Seq::<RegistryStep>::empty());
    let s1 = seq![RegistryStep::Emit(id, m)];
    assert(s1.drop_last() =~= Seq::<RegistryStep>::empty());
    let s2 = seq![RegistryStep::Emit(id, m), RegistryStep::End(id)];
    assert(s2.drop_last() =~= seq![RegistryStep::Emit(id, m)]);
    assert(s2.drop_last().drop_last() =~= Seq::<RegistryStep>::empty());
}

/// Owns the node handle `N`, the connection status, the cached snapshots and
/// the progress channels of the transfers in flight.
pub struct CodexManager<N> {
    node: Option<N>,
    config: DextoolsConfig,
    status: CodexConnectionStatus,
    error: Option<String>,
    progress: ProgressRegistry,
    network_info: NetworkInfo,
    storage_info: StorageInfo,
}

/// The storage snapshot without a live counter: the configured capacity, no usage.
pub open spec fn storage_stub(quota: u64) -> StorageInfo {
    StorageInfo { used_bytes: 0, total_bytes: quota, available_bytes: quota, block_count: 0 }
}

pub open spec fn opt_view(t: Option<String>) -> Option<Seq<char>> {
    match t {
        Some(s) => Some(s@),
        None => None,
    }
}

impl<N> View for CodexManager<N> {
    type V = ManagerModel;

    closed spec fn view(&self) -> ManagerModel {
        ManagerModel {
            status: self.status,
            error: opt_view(self.error),
            has_node: self.node is Some,
            network: self.network_info,
            storage: self.storage_info,
            config: self.config,
            progress: self.progress@,
        }
    }
}

impl<N> CodexManager<N> {
    /// The node is held exactly while connected; an error is held only in
    /// the `Error` state; a disconnected manager holds no node identity; the
    /// storage snapshot is the stub for the configured quota.
    pub closed spec fn wf(&self) -> bool {
        &&& self.progress.wf()
        &&& (self.node is Some <==> self.status == CodexConnectionStatus::Connected)
        &&& (self.error is Some ==> self.status == CodexConnectionStatus::Error)
        &&& (self.status == CodexConnectionStatus::Disconnected ==> self.network_info
            == cleared_network(self.network_info))
        &&& self.storage_info == storage_stub(self.config.storage_quota)
    }

    /// The node handle held, if any.
    pub closed spec fn node_slot(&self) -> Option<N> {
        self.node
    }

    /// A well-formed manager is consistent.
    pub proof fn lemma_wf_is_consistent(&self)
        requires
            self.wf(),
        ensures
            consistent(self@),
    {
    }

    /// A disconnected manager for `config`; the storage snapshot holds the
    /// configured quota and no usage.
    pub fn new(config: DextoolsConfig) -> (r: Self)
        ensures
            r.wf(),
            r@.status == CodexConnectionStatus::Disconnected,
            r@.error is None,
            !r@.has_node,
            r@.network == (NetworkInfo {
                peer_id: None,
                version: None,
                repo_path: None,
                connected_peers: 0,
                max_peers: config.max_peers,
            }),
            r@.storage == storage_stub(config.storage_quota),
            r.node_slot() is None,
            r@.config == config,
            r@.progress.live.dom().is_empty(),
            r@.progress.closed.dom().is_empty(),
            r@.progress.serial == 0,
    {
        let network_info = NetworkInfo {
            peer_id: None,
            version: None,
            repo_path: None,
            connected_peers: 0,
            max_peers: config.max_peers,
        };
        let storage_info = StorageInfo {
            used_bytes: 0,
            total_bytes: config.storage_quota,
            available_bytes: config.storage_quota,
            block_count: 0,
        };
        CodexManager {
            node: None,
            config,
            status: CodexConnectionStatus::Disconnected,
            error: None,
            progress: ProgressRegistry::new(),
            network_info,
            storage_info,
        }
    }

    pub fn config(&self) -> (r: &DextoolsConfig)
        ensures
            *r == self@.config,
    {
        &self.config
    }

    pub fn get_status(&self) -> (r: CodexConnectionStatus)
        ensures
            r == self@.status,
    {
        self.status
    }

    pub fn get_error(&self) -> (r: Option<String>)
        ensures
            opt_view(r) == self@.error,
    {
        match &self.error {
            Some(e) => Some(e.clone()),
            None => None,
        }
    }

    pub fn get_network_info(&self) -> (r: NetworkInfo)
        ensures
            r == self@.network,
    {
        self.network_info.duplicate()
    }

    /// The storage snapshot, a stub: no usage and the configured quota available.
    pub fn get_storage_info(&self) -> (r: StorageInfo)
        requires
            self.wf(),
        ensures
            r == self@.storage,
            r == storage_stub(self@.config.storage_quota),
    {
        self.storage_info
    }

    /// The node handle, for the caller to run the node's own calls on.
    pub fn node(&self) -> (r: Option<&N>)
        ensures
            r is Some == self@.has_node,
            match r {
                Some(n) => self.node_slot() == Some(*n),
                None => self.node_slot() is None,
            },
    {
        self.node.as_ref()
    }

    /// Whether another transfer can still be given an identifier.
    pub fn can_begin_operation(&self) -> (r: bool)
        ensures
            r == (self@.progress.serial < u64::MAX),
    {
        self.progress.can_begin()
    }

    /// How many transfers are in flight.
    pub fn active_operations(&self) -> (r: usize)
        requires
            self.wf(),
        ensures
            r == self@.progress.live.dom().len(),
    {
        self.progress.active_count()
    }

    /// Whether an operation on `id`'s stream is in flight.
    pub fn is_operation_active(&self, id: &String) -> (r: bool)
        requires
            self.wf(),
        ensures
            r == self@.progress.live.contains_key(id@),
    {
        self.progress.is_registered(id)
    }
    /// Enters `Connecting` and clears any earlier error, unless a connection is
    /// already up or being made: then nothing changes and `false` says that
    /// there is nothing to do.
    pub fn begin_connect(&mut self) -> (r: bool)
        requires
            old(self).wf(),
        ensures
            final(self).wf(),
            r == connect_proceeds(old(self)@),
            final(self)@ == begin_connect_model(old(self)@),
    {
        if self.status == CodexConnectionStatus::Connecting || self.status
            == CodexConnectionStatus::Connected {
            return false;
        }
        self.status = CodexConnectionStatus::Connecting;
        self.error = None;
        true
    }

    /// Takes the outcome of creating and starting the node. A started node is
    /// kept and the manager is `Connected`; a failure leaves no node, the
    /// `Error` state and the failure's text, and is handed back.
    pub fn finish_connect(&mut self, outcome: Result<N, CodexError>) -> (r: Result<(), CodexError>)
        requires
            old(self).wf(),
        ensures
            final(self).wf(),
            match outcome {
                Ok(n) => r is Ok && final(self)@ == connected_model(old(self)@)
                    && final(self).node_slot() == Some(n),
                Err(e) => r == Err::<(), CodexError>(e) && final(self)@ == failed_connect_model(
                    old(self)@,
                    e,
                ) && final(self).node_slot() is None,
            },
    {
        match outcome {
            Ok(node) => {
                self.node = Some(node);
                self.error = None;
                self.status = CodexConnectionStatus::Connected;
                Ok(())
            },
            Err(e) => {
                self.node = None;
                self.error = Some(e.message());
                self.status = CodexConnectionStatus::Error;
                Err(e)
            },
        }
    }

    /// Overwrites the identity snapshot with what the node reported; a field
    /// whose query failed is `None`. Without a node nothing changes.
    pub fn update_network_info(
        &mut self,
        peer_id: Option<String>,
        version: Option<String>,
        repo_path: Option<String>,
    ) -> (r: Result<(), CodexError>)
        requires
            old(self).wf(),
        ensures
            final(self).wf(),
            old(self)@.has_node ==> r is Ok && final(self)@ == (ManagerModel {
                network: NetworkInfo {
                    peer_id,
                    version,
                    repo_path,
                    connected_peers: old(self)@.network.connected_peers,
                    max_peers: old(self)@.config.max_peers,
                },
                ..old(self)@
            }),
            !old(self)@.has_node ==> r == Err::<(), CodexError>(CodexError::NodeNotInitialized)
                && final(self)@ == old(self)@,
    {
        if self.node.is_none() {
            return Err(CodexError::NodeNotInitialized);
        }
        self.network_info.peer_id = peer_id;
        self.network_info.version = version;
        self.network_info.repo_path = repo_path;
        self.network_info.max_peers = self.config.max_peers;
        Ok(())
    }

    /// Marks the manager `Disconnected`, hands out the node for the caller to
    /// stop, and clears the identity snapshot and any error. On a manager that
    /// is already disconnected this changes nothing.
    pub fn disconnect(&mut self) -> (r: Option<N>)
        requires
            old(self).wf(),
        ensures
            final(self).wf(),
            final(self)@ == disconnect_model(old(self)@),
            r is Some == old(self)@.has_node,
            r == old(self).node_slot(),
            final(self).node_slot() is None,
            old(self)@.status == CodexConnectionStatus::Disconnected ==> final(self)@ == old(self)@,
    {
        self.status = CodexConnectionStatus::Disconnected;
        let node = self.node.take();
        self.network_info.peer_id = None;
        self.network_info.version = None;
        self.network_info.repo_path = None;
        self.network_info.connected_peers = 0;
        self.error = None;
        node
    }

    /// Starts an upload of the file at `file_path`, given whether the node
    /// reports itself started and what was found at the path. Every refusal
    /// comes before any stream is opened and leaves the manager as it was. On
    /// success a fresh operation's stream holds an `Initializing` event and an
    /// `Uploading` event with the file's size; its id and receiver are returned.
    pub fn begin_upload(&mut self, started: bool, file_path: String, file: FileCheck) -> (r: Result<
        (String, UnboundedReceiver<ProgressMessage>),
        CodexError,
    >)
        requires
            old(self).wf(),
        ensures
            final(self).wf(),
            r is Err ==> final(self)@ == old(self)@,
            !old(self)@.has_node ==> r is Err && r->Err_0 == CodexError::NodeNotInitialized,
            old(self)@.has_node && !started ==> r is Err && r->Err_0 == CodexError::NodeNotStarted,
            old(self)@.has_node && started && file is Missing ==> r is Err && r->Err_0
                == CodexError::FileNotFound(file_path),
            old(self)@.has_node && started && file is Unreadable ==> r is Err && r->Err_0
                == CodexError::FileNotFound(file_path),
            old(self)@.has_node && started && file is Present && old(self)@.progress.serial
                == u64::MAX ==> r is Err && r->Err_0 is Configuration,
            old(self)@.has_node && started && file is Present && old(self)@.progress.serial
                < u64::MAX ==> r is Ok,
            r is Ok ==> {
                &&& file is Present
                &&& stream_begun(old(self)@, final(self)@, r->Ok_0.0@)
                &&& initial_event(final(self)@.progress.live[r->Ok_0.0@][0], r->Ok_0.0@)
                &&& upload_start_event(
                    final(self)@.progress.live[r->Ok_0.0@][1],
                    r->Ok_0.0@,
                    file->Present_0,
                )
            },
    {
        if self.node.is_none() {
            return Err(CodexError::NodeNotInitialized);
        }
        if !started {
            return Err(CodexError::NodeNotStarted);
        }
        let size = match file {
            FileCheck::Present(n) => n,
            _ => {
                return Err(CodexError::FileNotFound(file_path));
            },
        };
        if !self.progress.can_begin() {
            return Err(CodexError::Configuration(String::from_str("no operation identifier is left")));
        }
        let (id, receiver) = self.progress.begin_operation();
        let first = initial_message(&id);
        let second = upload_start_message(&id, size);
        let ghost (f, g) = (first, second);
        self.progress.emit(&id, first);
        self.progress.emit(&id, second);
        assert(self@.progress.live[id@] =~= seq![f, g]);
        Ok((id, receiver))
    }

    /// Starts a download of the content `cid`, given whether the node reports
    /// itself started. An empty identifier is refused first, before anything
    /// about the node is consulted. Every refusal leaves the manager as it was.
    /// On success a fresh operation's stream holds an `Initializing` event and a
    /// `Downloading` event naming the content; its id and receiver are returned.
    pub fn begin_download(&mut self, started: bool, cid: &String) -> (r: Result<
        (String, UnboundedReceiver<ProgressMessage>),
        CodexError,
    >)
        requires
            old(self).wf(),
        ensures
            final(self).wf(),
            r is Err ==> final(self)@ == old(self)@,
            cid@.len() == 0 ==> r is Err && r->Err_0 is InvalidCid
                && r->Err_0->InvalidCid_0@ == "CID cannot be empty"@,
            cid@.len() > 0 && !old(self)@.has_node ==> r is Err && r->Err_0
                == CodexError::NodeNotInitialized,
            cid@.len() > 0 && old(self)@.has_node && !started ==> r is Err && r->Err_0
                == CodexError::NodeNotStarted,
            cid@.len() > 0 && old(self)@.has_node && started && old(self)@.progress.serial
                == u64::MAX ==> r is Err && r->Err_0 is Configuration,
            cid@.len() > 0 && old(self)@.has_node && started && old(self)@.progress.serial
                < u64::MAX ==> r is Ok,
            r is Ok ==> {
                &&& cid@.len() > 0
                &&& stream_begun(old(self)@, final(self)@, r->Ok_0.0@)
                &&& initial_event(final(self)@.progress.live[r->Ok_0.0@][0], r->Ok_0.0@)
                &&& download_start_event(
                    final(self)@.progress.live[r->Ok_0.0@][1],
                    r->Ok_0.0@,
                    cid@,
                )
            },
    {
        if cid.as_str().is_empty() {
            return Err(CodexError::InvalidCid(String::from_str("CID cannot be empty")));
        }
        if self.node.is_none() {
            return Err(CodexError::NodeNotInitialized);
        }
        if !started {
            return Err(CodexError::NodeNotStarted);
        }
        if !self.progress.can_begin() {
            return Err(CodexError::Configuration(String::from_str("no operation identifier is left")));
        }
        let (id, receiver) = self.progress.begin_operation();
        let first = initial_message(&id);
        let second = download_start_message(&id, cid);
        let ghost (f, g) = (first, second);
        self.progress.emit(&id, first);
        self.progress.emit(&id, second);
        assert(self@.progress.live[id@] =~= seq![f, g]);
        Ok((id, receiver))
    }

    /// Re-emits the node's report that `bytes` of an upload have moved, on the
    /// stream of `id`; once `id` has ended the report is dropped.
    pub fn report_upload_progress(&mut self, id: &String, bytes: usize, total: Option<usize>)
        requires
            old(self).wf(),
        ensures
            final(self).wf(),
            exists|m: ProgressMessage| #[trigger]
                upload_progress_event(m, id@, bytes, total) && final(self)@ == with_progress(
                    old(self)@,
                    emit_model(old(self)@.progress, id@, m),
                ),
    {
        let text = counted_text("Uploaded ", bytes, " bytes");
        let m = ProgressMessage::new(id.clone()).with_stage(OperationStage::Uploading).with_bytes(
            bytes,
            total,
        ).with_message(text);
        let ghost e = m;
        self.progress.emit(id, m);
        assert(upload_progress_event(e, id@, bytes, total));
    }

    /// Re-emits the node's report that `bytes` of a download have moved, on the
    /// stream of `id`; once `id` has ended the report is dropped.
    pub fn report_download_progress(&mut self, id: &String, bytes: usize, total: Option<usize>)
        requires
            old(self).wf(),
        ensures
            final(self).wf(),
            exists|m: ProgressMessage| #[trigger]
                download_progress_event(m, id@, bytes, total) && final(self)@ == with_progress(
                    old(self)@,
                    emit_model(old(self)@.progress, id@, m),
                ),
    {
        let text = counted_text("Downloaded ", bytes, " bytes");
        let m = ProgressMessage::new(id.clone()).with_stage(OperationStage::Downloading).with_bytes(
            bytes,
            total,
        ).with_message(text);
        let ghost e = m;
        self.progress.emit(id, m);
        assert(download_progress_event(e, id@, bytes, total));
    }

    /// Ends the upload `id` with the node's outcome: a `Completed` event with
    /// the file's size, or a `Failed` event with the reason, is sent first and
    /// the stream is retired after it. The content identifier, or the failure,
    /// is handed back.
    pub fn finish_upload(&mut self, id: &String, file_size: usize, outcome: Result<String, String>) -> (r:
        Result<String, CodexError>)
        requires
            old(self).wf(),
        ensures
            final(self).wf(),
            match outcome {
                Ok(cid) => r == Ok::<String, CodexError>(cid) && exists|t: ProgressMessage|
                    completed_event(t, id@, file_size, "Upload completed successfully"@)
                        && #[trigger] closed_by(old(self)@, final(self)@, id@, t),
                Err(e) => r == Err::<String, CodexError>(CodexError::Upload(e)) && exists|
                    t: ProgressMessage,
                | failed_event(t, id@, e@) && #[trigger] closed_by(old(self)@, final(self)@, id@, t),
            },
    {
        match outcome {
            Ok(cid) => {
                let t = completed_message(id, file_size, "Upload completed successfully");
                let ghost e = t;
                self.progress.emit(id, t);
                self.progress.end_operation(id);
                assert(closed_by(old(self)@, self@, id@, e));
                Ok(cid)
            },
            Err(reason) => {
                let t = failed_message(id, &reason);
                let ghost e = t;
                self.progress.emit(id, t);
                self.progress.end_operation(id);
                assert(closed_by(old(self)@, self@, id@, e));
                Err(CodexError::Upload(reason))
            },
        }
    }

    /// Ends the download `id` with the node's outcome: a `Completed` event with
    /// the size the node reported, or a `Failed` event with the reason, is sent
    /// first and the stream is retired after it.
    pub fn finish_download(&mut self, id: &String, outcome: Result<usize, String>) -> (r: Result<
        (),
        CodexError,
    >)
        requires
            old(self).wf(),
        ensures
            final(self).wf(),
            match outcome {
                Ok(size) => r is Ok && exists|t: ProgressMessage|
                    completed_event(t, id@, size, "Download completed successfully"@)
                        && #[trigger] closed_by(old(self)@, final(self)@, id@, t),
                Err(e) => r == Err::<(), CodexError>(CodexError::Download(e)) && exists|
                    t: ProgressMessage,
                | failed_event(t, id@, e@) && #[trigger] closed_by(old(self)@, final(self)@, id@, t),
            },
    {
        match outcome {
            Ok(size) => {
                let t = completed_message(id, size, "Download completed successfully");
                let ghost e = t;
                self.progress.emit(id, t);
                self.progress.end_operation(id);
                assert(closed_by(old(self)@, self@, id@, e));
                Ok(())
            },
            Err(reason) => {
                let t = failed_message(id, &reason);
                let ghost e = t;
                self.progress.emit(id, t);
                self.progress.end_operation(id);
                assert(closed_by(old(self)@, self@, id@, e));
                Err(CodexError::Download(reason))
            },
        }
    }
    /// Whether a call into the node may go ahead, given whether the node
    /// reports itself started.
    pub fn check_node_ready(&self, started: bool) -> (r: Result<(), CodexError>)
        ensures
            !self@.has_node ==> r == Err::<(), CodexError>(CodexError::NodeNotInitialized),
            self@.has_node && !started ==> r == Err::<(), CodexError>(CodexError::NodeNotStarted),
            self@.has_node && started ==> r is Ok,
    {
        if self.node.is_none() {
            return Err(CodexError::NodeNotInitialized);
        }
        if !started {
            return Err(CodexError::NodeNotStarted);
        }
        Ok(())
    }
}

} // verus!
