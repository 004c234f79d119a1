//! The messages between the interface and the per-connection workers, the
//! summaries the workers report, and the worker's decisions.
use vstd::prelude::*;
use crate::domain::DomainState;
use crate::text::{
    chars_of, find_chars, find_from, find_spec, lemma_first_from, lemma_none_from, occurs_at, owned, parse_i64, parse_i64_spec,
    push_str, str_eq, string_of_chars, sub_chars, trim, trim_chars,
};

verus! {

/// A request to the worker of one connection; the first field is always the
/// connection URI.
#[derive(Debug, Clone)]
pub enum BackendCommand {
    Connect(String),
    Disconnect(String),
    DomainAction(String, String, DomainAction),
    DefineXml(String, String),
    UndefineDomain(String, String),
    PollAll(String),
    GetHostInfo(String),
    ListStoragePools(String),
    CreateStoragePool(String, String),
    DeleteStoragePool(String, String),
    StartStoragePool(String, String),
    StopStoragePool(String, String),
    RefreshStoragePool(String, String),
    ListVolumes(String, String),
    CreateVolume(String, String, String),
    DeleteVolume(String, String, String),
    ListNetworks(String),
    CreateNetwork(String, String),
    DeleteNetwork(String, String),
    StartNetwork(String, String),
    StopNetwork(String, String),
    ListSnapshots(String, String),
    CreateSnapshot(String, String, String),
    DeleteSnapshot(String, String, String),
    RevertSnapshot(String, String, String),
    MigrateDomain(String, String, String, u32),
    UpdateDevice(String, String, String, u32),
    QueryQemuCaps(String, String),
}

/// A life-cycle action on a domain.
#[derive(Debug, Clone, Copy, PartialEq, Eq, Structural)]
pub enum DomainAction {
    Start,
    Shutdown,
    ForceOff,
    Pause,
    Resume,
    Reboot,
}

/// The host a connection runs on.
#[derive(Debug, Clone)]
pub struct HostInfo {
    pub hostname: String,
    pub arch: String,
    pub memory_kb: u64,
    pub cpus: u32,
    pub mhz: u32,
    pub model: String,
    pub lib_version: u32,
}

/// A storage pool.
#[derive(Debug, Clone)]
pub struct StoragePoolSummary {
    pub name: String,
    pub uuid: String,
    pub active: bool,
    pub autostart: bool,
    pub capacity: u64,
    pub allocation: u64,
    pub available: u64,
    pub xml: String,
}

/// A storage volume.
#[derive(Debug, Clone)]
pub struct VolumeSummary {
    pub name: String,
    pub path: String,
    pub capacity: u64,
    pub allocation: u64,
    pub vol_type: String,
}

/// A virtual network.
#[derive(Debug, Clone)]
pub struct NetworkSummary {
    pub name: String,
    pub uuid: String,
    pub active: bool,
    pub autostart: bool,
    pub bridge: String,
    pub xml: String,
}

/// A domain snapshot.
#[derive(Debug, Clone)]
pub struct SnapshotSummary {
    pub name: String,
    pub description: String,
    pub state: String,
    pub creation_time: i64,
    pub is_current: bool,
}

/// A domain as the worker lists it.
#[derive(Debug, Clone)]
pub struct DomainSummary {
    pub name: String,
    pub uuid: String,
    pub state: DomainState,
    pub vcpus: u32,
    pub memory_kib: u64,
    pub xml: String,
}

/// The text between the first `<tag>` of `xml` and the first `</tag>` after
/// it.
pub open spec fn element_text(xml: Seq<char>, tag: Seq<char>) -> Option<Seq<char>> {
    let open = "<"@ + tag + ">"@;
    let close = "</"@ + tag + ">"@;
    match find_spec(xml, open) {
        Some(a) => {
            let s = a + open.len();
            match find_spec(xml.skip(s as int), close) {
                Some(b) => Some(xml.subrange(s as int, (s + b) as int)),
                None => None,
            }
        },
        None => None,
    }
}

/// The text of the first `<tag>` element of `xml`, without surrounding white
/// space.
pub open spec fn extract_text_spec(xml: Seq<char>, tag: Seq<char>) -> Option<Seq<char>> {
    match element_text(xml, tag) {
        Some(t) => Some(trim(t)),
        None => None,
    }
}

fn tag_text(before: &str, tag: &str, after: &str) -> (r: Vec<char>)
    ensures
        r@ == before@ + tag@ + after@,
{
    let mut s = owned(before);
    push_str(&mut s, tag);
    push_str(&mut s, after);
    chars_of(s.as_str())
}

/// The text of the first `<tag>` element of `xml`.
pub fn element_text_of(xml: &str, tag: &str) -> (r: Option<Vec<char>>)
    ensures
        match r {
            Some(t) => element_text(xml@, tag@) == Some(t@),
            None => element_text(xml@, tag@) is None,
        },
{
    let xv = chars_of(xml);
    let open = tag_text("<", tag, ">");
    let close = tag_text("</", tag, ">");
    let a = match find_chars(&xv, &open) {
        Some(a) => a,
        None => return None,
    };
    assert(occurs_at(xv@, open@, a as int));
    assert(a + open.len() <= xv.len());
    let start = a + open.len();
    let b = match find_from(&xv, &close, start) {
        Some(b) => b,
        None => {
            proof {
                lemma_none_from(xv@, close@, start as int);
            }
            return None;
        },
    };
    proof {
        lemma_first_from(xv@, close@, start as int, b as int);
    }
    Some(sub_chars(&xv, start, b))
}

/// The trimmed text of the first `<tag>` element of `xml`.
pub fn extract_xml_text(xml: &str, tag: &str) -> (r: Option<String>)
    ensures
        match r {
            Some(t) => extract_text_spec(xml@, tag@) == Some(t@),
            None => extract_text_spec(xml@, tag@) is None,
        },
{
    match element_text_of(xml, tag) {
        Some(inner) => {
            let t = trim_chars(&inner);
            Some(string_of_chars(&t))
        },
        None => None,
    }
}

/// The summary of a snapshot named `name` with description `xml`: its
/// description and state texts (empty when missing), its creation time (0
/// when missing or not a number) and whether it is the current snapshot.
pub fn snapshot_summary(name: String, xml: &str, current_name: Option<&str>) -> (r: SnapshotSummary)
    ensures
        r.name@ == name@,
        r.description@ == match extract_text_spec(xml@, "description"@) {
            Some(t) => t,
            None => Seq::<char>::empty(),
        },
        r.state@ == match extract_text_spec(xml@, "state"@) {
            Some(t) => t,
            None => Seq::<char>::empty(),
        },
        r.creation_time == match extract_text_spec(xml@, "creationTime"@) {
            Some(t) => match parse_i64_spec(t) {
                Some(v) => v,
                None => 0,
            },
            None => 0,
        },
        r.is_current == (current_name matches Some(c) && c@ == name@),
{
    let description = match extract_xml_text(xml, "description") {
        Some(t) => t,
        None => String::new(),
    };
    let state = match extract_xml_text(xml, "state") {
        Some(t) => t,
        None => String::new(),
    };
    let creation_time: i64 = match extract_xml_text(xml, "creationTime") {
        Some(t) => match parse_i64(t.as_str()) {
            Some(v) => v,
            None => 0,
        },
        None => 0,
    };
    let is_current = match current_name {
        Some(c) => str_eq(c, name.as_str()),
        None => false,
    };
    SnapshotSummary { name, description, state, creation_time, is_current }
}

/// What the worker does with a storage pool.
#[derive(Debug, Clone, Copy, PartialEq, Eq, Structural)]
pub enum PoolOp {
    Create,
    Delete,
    Start,
    Stop,
    Refresh,
}

/// What the worker does with a storage volume.
#[derive(Debug, Clone, Copy, PartialEq, Eq, Structural)]
pub enum VolumeOp {
    Create,
    Delete,
}

/// What the worker does with a network.
#[derive(Debug, Clone, Copy, PartialEq, Eq, Structural)]
pub enum NetworkOp {
    Create,
    Delete,
    Start,
    Stop,
}

/// What the worker does with a snapshot.
#[derive(Debug, Clone, Copy, PartialEq, Eq, Structural)]
pub enum SnapshotOp {
    Create,
    Delete,
    Revert,
}

/// The step a worker takes for one command.
#[derive(Debug, Clone)]
pub enum WorkerStep {
    /// The command is for another connection, or needs nothing here.
    Ignore,
    /// Close the connection, report it closed and stop.
    Close,
    DomainAction(String, DomainAction),
    DefineXml(String),
    UndefineDomain(String),
    GetHostInfo,
    ListPools,
    /// Pool name (empty when creating), operation, definition XML.
    PoolAction(String, PoolOp, Option<String>),
    ListVolumes(String),
    /// Pool name, operation, volume XML or volume name.
    VolumeAction(String, VolumeOp, String),
    ListNetworks,
    /// Network name (empty when creating), operation, definition XML.
    NetworkAction(String, NetworkOp, Option<String>),
    ListSnapshots(String),
    /// Domain name, operation, snapshot XML or snapshot name.
    SnapshotAction(String, SnapshotOp, String),
    Migrate(String, String, u32),
    UpdateDevice(String, String, u32),
    QueryCaps(String),
    Poll,
}

/// The connection URI a command is meant for.
pub open spec fn command_uri(c: BackendCommand) -> Seq<char> {
    match c {
        BackendCommand::Connect(u) => u@,
        BackendCommand::Disconnect(u) => u@,
        BackendCommand::DomainAction(u, _, _) => u@,
        BackendCommand::DefineXml(u, _) => u@,
        BackendCommand::UndefineDomain(u, _) => u@,
        BackendCommand::PollAll(u) => u@,
        BackendCommand::GetHostInfo(u) => u@,
        BackendCommand::ListStoragePools(u) => u@,
        BackendCommand::CreateStoragePool(u, _) => u@,
        BackendCommand::DeleteStoragePool(u, _) => u@,
        BackendCommand::StartStoragePool(u, _) => u@,
        BackendCommand::StopStoragePool(u, _) => u@,
        BackendCommand::RefreshStoragePool(u, _) => u@,
        BackendCommand::ListVolumes(u, _) => u@,
        BackendCommand::CreateVolume(u, _, _) => u@,
        BackendCommand::DeleteVolume(u, _, _) => u@,
        BackendCommand::ListNetworks(u) => u@,
        BackendCommand::CreateNetwork(u, _) => u@,
        BackendCommand::DeleteNetwork(u, _) => u@,
        BackendCommand::StartNetwork(u, _) => u@,
        BackendCommand::StopNetwork(u, _) => u@,
        BackendCommand::ListSnapshots(u, _) => u@,
        BackendCommand::CreateSnapshot(u, _, _) => u@,
        BackendCommand::DeleteSnapshot(u, _, _) => u@,
        BackendCommand::RevertSnapshot(u, _, _) => u@,
        BackendCommand::MigrateDomain(u, _, _, _) => u@,
        BackendCommand::UpdateDevice(u, _, _, _) => u@,
        BackendCommand::QueryQemuCaps(u, _) => u@,
    }
}

/// Whether `s` is the step for the command `c`, when `c` is meant for this
/// worker's connection.
pub open spec fn is_step_for(c: BackendCommand, s: WorkerStep) -> bool {
    match c {
        BackendCommand::Connect(_) => s is Ignore,
        BackendCommand::Disconnect(_) => s is Close,
        BackendCommand::DomainAction(_, n, a) => s == WorkerStep::DomainAction(n, a),
        BackendCommand::DefineXml(_, x) => s == WorkerStep::DefineXml(x),
        BackendCommand::UndefineDomain(_, n) => s == WorkerStep::UndefineDomain(n),
        BackendCommand::PollAll(_) => s is Poll,
        BackendCommand::GetHostInfo(_) => s is GetHostInfo,
        BackendCommand::ListStoragePools(_) => s is ListPools,
        BackendCommand::CreateStoragePool(_, x) => s matches WorkerStep::PoolAction(n, op, d)
            && n@.len() == 0 && op == PoolOp::Create && d == Some(x),
        BackendCommand::DeleteStoragePool(_, n) => s == WorkerStep::PoolAction(n, PoolOp::Delete, None),
        BackendCommand::StartStoragePool(_, n) => s == WorkerStep::PoolAction(n, PoolOp::Start, None),
        BackendCommand::StopStoragePool(_, n) => s == WorkerStep::PoolAction(n, PoolOp::Stop, None),
        BackendCommand::RefreshStoragePool(_, n) => s == WorkerStep::PoolAction(n, PoolOp::Refresh, None),
        BackendCommand::ListVolumes(_, p) => s == WorkerStep::ListVolumes(p),
        BackendCommand::CreateVolume(_, p, x) => s == WorkerStep::VolumeAction(p, VolumeOp::Create, x),
        BackendCommand::DeleteVolume(_, p, n) => s == WorkerStep::VolumeAction(p, VolumeOp::Delete, n),
        BackendCommand::ListNetworks(_) => s is ListNetworks,
        BackendCommand::CreateNetwork(_, x) => s matches WorkerStep::NetworkAction(n, op, d)
            && n@.len() == 0 && op == NetworkOp::Create && d == Some(x),
        BackendCommand::DeleteNetwork(_, n) => s == WorkerStep::NetworkAction(n, NetworkOp::Delete, None),
        BackendCommand::StartNetwork(_, n) => s == WorkerStep::NetworkAction(n, NetworkOp::Start, None),
        BackendCommand::StopNetwork(_, n) => s == WorkerStep::NetworkAction(n, NetworkOp::Stop, None),
        BackendCommand::ListSnapshots(_, d) => s == WorkerStep::ListSnapshots(d),
        BackendCommand::CreateSnapshot(_, d, x) => s == WorkerStep::SnapshotAction(d, SnapshotOp::Create, x),
        BackendCommand::DeleteSnapshot(_, d, n) => s == WorkerStep::SnapshotAction(d, SnapshotOp::Delete, n),
        BackendCommand::RevertSnapshot(_, d, n) => s == WorkerStep::SnapshotAction(d, SnapshotOp::Revert, n),
        BackendCommand::MigrateDomain(_, n, dest, f) => s == WorkerStep::Migrate(n, dest, f),
        BackendCommand::UpdateDevice(_, n, x, f) => s == WorkerStep::UpdateDevice(n, x, f),
        BackendCommand::QueryQemuCaps(_, arch) => s == WorkerStep::QueryCaps(arch),
    }
}

/// The step that the worker of the connection `worker_uri` takes for `cmd`:
/// a command for another connection is ignored.
pub fn route_command(worker_uri: &str, cmd: BackendCommand) -> (r: WorkerStep)
    ensures
        command_uri(cmd) != worker_uri@ ==> r is Ignore,
        command_uri(cmd) == worker_uri@ ==> is_step_for(cmd, r),
{
    let same = match &cmd {
        BackendCommand::Connect(u) => str_eq(u.as_str(), worker_uri),
        BackendCommand::Disconnect(u) => str_eq(u.as_str(), worker_uri),
        BackendCommand::DomainAction(u, _, _) => str_eq(u.as_str(), worker_uri),
        BackendCommand::DefineXml(u, _) => str_eq(u.as_str(), worker_uri),
        BackendCommand::UndefineDomain(u, _) => str_eq(u.as_str(), worker_uri),
        BackendCommand::PollAll(u) => str_eq(u.as_str(), worker_uri),
        BackendCommand::GetHostInfo(u) => str_eq(u.as_str(), worker_uri),
        BackendCommand::ListStoragePools(u) => str_eq(u.as_str(), worker_uri),
        BackendCommand::CreateStoragePool(u, _) => str_eq(u.as_str(), worker_uri),
        BackendCommand::DeleteStoragePool(u, _) => str_eq(u.as_str(), worker_uri),
        BackendCommand::StartStoragePool(u, _) => str_eq(u.as_str(), worker_uri),
        BackendCommand::StopStoragePool(u, _) => str_eq(u.as_str(), worker_uri),
        BackendCommand::RefreshStoragePool(u, _) => str_eq(u.as_str(), worker_uri),
        BackendCommand::ListVolumes(u, _) => str_eq(u.as_str(), worker_uri),
        BackendCommand::CreateVolume(u, _, _) => str_eq(u.as_str(), worker_uri),
        BackendCommand::DeleteVolume(u, _, _) => str_eq(u.as_str(), worker_uri),
        BackendCommand::ListNetworks(u) => str_eq(u.as_str(), worker_uri),
        BackendCommand::CreateNetwork(u, _) => str_eq(u.as_str(), worker_uri),
        BackendCommand::DeleteNetwork(u, _) => str_eq(u.as_str(), worker_uri),
        BackendCommand::StartNetwork(u, _) => str_eq(u.as_str(), worker_uri),
        BackendCommand::StopNetwork(u, _) => str_eq(u.as_str(), worker_uri),
        BackendCommand::ListSnapshots(u, _) => str_eq(u.as_str(), worker_uri),
        BackendCommand::CreateSnapshot(u, _, _) => str_eq(u.as_str(), worker_uri),
        BackendCommand::DeleteSnapshot(u, _, _) => str_eq(u.as_str(), worker_uri),
        BackendCommand::RevertSnapshot(u, _, _) => str_eq(u.as_str(), worker_uri),
        BackendCommand::MigrateDomain(u, _, _, _) => str_eq(u.as_str(), worker_uri),
        BackendCommand::UpdateDevice(u, _, _, _) => str_eq(u.as_str(), worker_uri),
        BackendCommand::QueryQemuCaps(u, _) => str_eq(u.as_str(), worker_uri),
    };
    if !same {
        return WorkerStep::Ignore;
    }
    match cmd {
        BackendCommand::Connect(_) => WorkerStep::Ignore,
        BackendCommand::Disconnect(_) => WorkerStep::Close,
        BackendCommand::DomainAction(_, n, a) => WorkerStep::DomainAction(n, a),
        BackendCommand::DefineXml(_, x) => WorkerStep::DefineXml(x),
        BackendCommand::UndefineDomain(_, n) => WorkerStep::UndefineDomain(n),
        BackendCommand::PollAll(_) => WorkerStep::Poll,
        BackendCommand::GetHostInfo(_) => WorkerStep::GetHostInfo,
        BackendCommand::ListStoragePools(_) => WorkerStep::ListPools,
        BackendCommand::CreateStoragePool(_, x) => WorkerStep::PoolAction(
            String::new(),
            PoolOp::Create,
            Some(x),
        ),
        BackendCommand::DeleteStoragePool(_, n) => WorkerStep::PoolAction(n, PoolOp::Delete, None),
        BackendCommand::StartStoragePool(_, n) => WorkerStep::PoolAction(n, PoolOp::Start, None),
        BackendCommand::StopStoragePool(_, n) => WorkerStep::PoolAction(n, PoolOp::Stop, None),
        BackendCommand::RefreshStoragePool(_, n) => WorkerStep::PoolAction(n, PoolOp::Refresh, None),
        BackendCommand::ListVolumes(_, p) => WorkerStep::ListVolumes(p),
        BackendCommand::CreateVolume(_, p, x) => WorkerStep::VolumeAction(p, VolumeOp::Create, x),
        BackendCommand::DeleteVolume(_, p, n) => WorkerStep::VolumeAction(p, VolumeOp::Delete, n),
        BackendCommand::ListNetworks(_) => WorkerStep::ListNetworks,
        BackendCommand::CreateNetwork(_, x) => WorkerStep::NetworkAction(
            String::new(),
            NetworkOp::Create,
            Some(x),
        ),
        BackendCommand::DeleteNetwork(_, n) => WorkerStep::NetworkAction(n, NetworkOp::Delete, None),
        BackendCommand::StartNetwork(_, n) => WorkerStep::NetworkAction(n, NetworkOp::Start, None),
        BackendCommand::StopNetwork(_, n) => WorkerStep::NetworkAction(n, NetworkOp::Stop, None),
        BackendCommand::ListSnapshots(_, d) => WorkerStep::ListSnapshots(d),
        BackendCommand::CreateSnapshot(_, d, x) => WorkerStep::SnapshotAction(d, SnapshotOp::Create, x),
        BackendCommand::DeleteSnapshot(_, d, n) => WorkerStep::SnapshotAction(d, SnapshotOp::Delete, n),
        BackendCommand::RevertSnapshot(_, d, n) => WorkerStep::SnapshotAction(d, SnapshotOp::Revert, n),
        BackendCommand::MigrateDomain(_, n, dest, f) => WorkerStep::Migrate(n, dest, f),
        BackendCommand::UpdateDevice(_, n, x, f) => WorkerStep::UpdateDevice(n, x, f),
        BackendCommand::QueryQemuCaps(_, arch) => WorkerStep::QueryCaps(arch),
    }
}

/// Whether the worker lists the domains again right after the step.
pub open spec fn polls_after_spec(s: WorkerStep) -> bool {
    ||| s is DomainAction
    ||| s is DefineXml
    ||| s is UndefineDomain
    ||| s is UpdateDevice
    ||| s is Poll
}

/// Whether the worker lists the domains again right after the step (and
/// restarts its poll timer).
pub fn polls_after(s: &WorkerStep) -> (r: bool)
    ensures
        r == polls_after_spec(*s),
{
    match s {
        WorkerStep::DomainAction(_, _) => true,
        WorkerStep::DefineXml(_) => true,
        WorkerStep::UndefineDomain(_) => true,
        WorkerStep::UpdateDevice(_, _, _) => true,
        WorkerStep::Poll => true,
        _ => false,
    }
}

/// The interval between two polls of the domain list, in milliseconds.
pub const POLL_INTERVAL_MS: u64 = 2000;

/// Whether a poll is due, `elapsed_ms` after the last one.
pub fn poll_due(elapsed_ms: u64) -> (r: bool)
    ensures
        r == (elapsed_ms >= POLL_INTERVAL_MS),
{
    elapsed_ms >= POLL_INTERVAL_MS
}


/// How many samples a performance graph keeps.
pub const MAX_POINTS: usize = 40;

/// The samples of a graph after `val` was recorded: it goes at the end, and
/// the oldest sample goes once there are more than `MAX_POINTS`.
pub open spec fn pushed_samples<T>(h: Seq<T>, val: T) -> Seq<T> {
    if h.len() + 1 > MAX_POINTS {
        h.push(val).drop_first()
    } else {
        h.push(val)
    }
}

/// Records a sample in the history of a performance graph.
pub fn push_sample<T>(history: &mut std::collections::VecDeque<T>, val: T)
    ensures
        final(history)@ == pushed_samples(old(history)@, val),
{
    history.push_back(val);
    if history.len() > MAX_POINTS {
        let _ = history.pop_front();
    }
}

/// A history that holds no more than `MAX_POINTS` samples keeps to that
/// bound whatever is recorded, and ends with the sample recorded last.
pub proof fn lemma_samples_bounded<T>(h: Seq<T>, val: T)
    requires
        h.len() <= MAX_POINTS,
    ensures
        pushed_samples(h, val).len() <= MAX_POINTS,
        pushed_samples(h, val).last() == val,
{
}

pub open spec fn pool_op_name(op: PoolOp) -> Seq<char> {
    match op {
        PoolOp::Create => "create"@,
        PoolOp::Delete => "delete"@,
        PoolOp::Start => "start"@,
        PoolOp::Stop => "stop"@,
        PoolOp::Refresh => "refresh"@,
    }
}

pub open spec fn volume_op_name(op: VolumeOp) -> Seq<char> {
    match op {
        VolumeOp::Create => "create"@,
        VolumeOp::Delete => "delete"@,
    }
}

pub open spec fn network_op_name(op: NetworkOp) -> Seq<char> {
    match op {
        NetworkOp::Create => "create"@,
        NetworkOp::Delete => "delete"@,
        NetworkOp::Start => "start"@,
        NetworkOp::Stop => "stop"@,
    }
}

pub open spec fn snapshot_op_name(op: SnapshotOp) -> Seq<char> {
    match op {
        SnapshotOp::Create => "create"@,
        SnapshotOp::Delete => "delete"@,
        SnapshotOp::Revert => "revert"@,
    }
}

impl PoolOp {
    /// The name of the operation in messages.
    pub fn label(&self) -> (r: &'static str)
        ensures
            r@ == pool_op_name(*self),
    {
        match self {
            PoolOp::Create => "create",
            PoolOp::Delete => "delete",
            PoolOp::Start => "start",
            PoolOp::Stop => "stop",
            PoolOp::Refresh => "refresh",
        }
    }
}

impl VolumeOp {
    /// The name of the operation in messages.
    pub fn label(&self) -> (r: &'static str)
        ensures
            r@ == volume_op_name(*self),
    {
        match self {
            VolumeOp::Create => "create",
            VolumeOp::Delete => "delete",
        }
    }
}

impl NetworkOp {
    /// The name of the operation in messages.
    pub fn label(&self) -> (r: &'static str)
        ensures
            r@ == network_op_name(*self),
    {
        match self {
            NetworkOp::Create => "create",
            NetworkOp::Delete => "delete",
            NetworkOp::Start => "start",
            NetworkOp::Stop => "stop",
        }
    }
}

impl SnapshotOp {
    /// The name of the operation in messages.
    pub fn label(&self) -> (r: &'static str)
        ensures
            r@ == snapshot_op_name(*self),
    {
        match self {
            SnapshotOp::Create => "create",
            SnapshotOp::Delete => "delete",
            SnapshotOp::Revert => "revert",
        }
    }
}

/// The message of a failed operation on a named object:
/// `KIND 'NAME' ACTION failed: ERROR`.
pub fn action_failed_message(kind: &str, name: &str, action: &str, err: &str) -> (r: String)
    ensures
        r@ == kind@ + " '"@ + name@ + "' "@ + action@ + " failed: "@ + err@,
{
    let mut r = owned(kind);
    push_str(&mut r, " '");
    push_str(&mut r, name);
    push_str(&mut r, "' ");
    push_str(&mut r, action);
    push_str(&mut r, " failed: ");
    push_str(&mut r, err);
    r
}

/// The message of a lookup that found nothing: `KIND 'NAME' not found: ERROR`.
pub fn not_found_message(kind: &str, name: &str, err: &str) -> (r: String)
    ensures
        r@ == kind@ + " '"@ + name@ + "' not found: "@ + err@,
{
    let mut r = owned(kind);
    push_str(&mut r, " '");
    push_str(&mut r, name);
    push_str(&mut r, "' not found: ");
    push_str(&mut r, err);
    r
}

/// The message of a failed step: `WHAT failed: ERROR`.
pub fn step_failed_message(what: &str, err: &str) -> (r: String)
    ensures
        r@ == what@ + " failed: "@ + err@,
{
    let mut r = owned(what);
    push_str(&mut r, " failed: ");
    push_str(&mut r, err);
    r
}

/// The host of a connection as its node information describes it; the
/// architecture shown is the CPU model the node reports.
pub fn host_info_from_node(hostname: String, model: String, memory_kb: u64, cpus: u32, mhz: u32, lib_version: u32) -> (r: HostInfo)
    ensures
        r.hostname@ == hostname@,
        r.arch@ == model@,
        r.model@ == model@,
        r.memory_kb == memory_kb,
        r.cpus == cpus,
        r.mhz == mhz,
        r.lib_version == lib_version,
{
    HostInfo { hostname, arch: model.clone(), memory_kb, cpus, mhz, model, lib_version }
}

/// A domain as the worker lists it, from its name, UUID, libvirt state
/// code, CPU count, memory and definition.
pub fn domain_summary_from_info(name: String, uuid: String, state_code: u32, vcpus: u32, memory_kib: u64, xml: String) -> (r: DomainSummary)
    ensures
        r.name@ == name@,
        r.uuid@ == uuid@,
        r.state == crate::domain::state_of_code(state_code),
        r.vcpus == vcpus,
        r.memory_kib == memory_kib,
        r.xml@ == xml@,
{
    DomainSummary { name, uuid, state: DomainState::from_libvirt(state_code), vcpus, memory_kib, xml }
}

} // verus!
