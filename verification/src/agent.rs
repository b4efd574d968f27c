//! What the agent decides when the server speaks to it, and what it tells the server about
//! the machine. Sending, receiving and timing are the caller's.
use vstd::prelude::*;
use sysinfo::{Disks, System};
use crate::sum::{checked_sum, sum};
use crate::sys;
use crate::text::str_eq;

verus! {

/// A command from the server; `value` is its value where that is a whole number that fits
/// in a `u64`.
pub struct ServerCommand {
    pub command: String,
    pub value: Option<u64>,
}

/// The value that a response carries.
pub enum ResponseValue {
    /// `{"interval_secs": n}`: the polling interval, in seconds.
    IntervalSecs(u64),
    /// `{"received": c}`: a command that the agent does not know.
    Received(String),
}

/// A response of the agent to a command of the server.
pub struct AgentResponse {
    pub message_type: String,
    pub command: String,
    pub value: Option<ResponseValue>,
}

pub enum ResponseValueView {
    IntervalSecs(u64),
    Received(Seq<char>),
}

pub struct ResponseView {
    pub message_type: Seq<char>,
    pub command: Seq<char>,
    pub value: Option<ResponseValueView>,
}

impl View for ResponseValue {
    type V = ResponseValueView;

    open spec fn view(&self) -> ResponseValueView {
        match self {
            ResponseValue::IntervalSecs(n) => ResponseValueView::IntervalSecs(*n),
            ResponseValue::Received(c) => ResponseValueView::Received(c@),
        }
    }
}

impl View for AgentResponse {
    type V = ResponseView;

    open spec fn view(&self) -> ResponseView {
        ResponseView {
            message_type: self.message_type@,
            command: self.command@,
            value: match self.value {
                Some(v) => Some(v@),
                None => None,
            },
        }
    }
}

/// A response to `command`, carrying `value`.
pub open spec fn response_of(command: Seq<char>, value: Option<ResponseValueView>) -> ResponseView {
    ResponseView { message_type: "response"@, command, value }
}

impl AgentResponse {
    /// A response to `command` that carries no value.
    pub fn ok(command: &str) -> (r: AgentResponse)
        ensures
            r@ == response_of(command@, None),
    {
        AgentResponse { message_type: "response".to_owned(), command: command.to_owned(), value: None }
    }

    /// A response to `command` that carries `v`.
    pub fn with_value(command: &str, v: ResponseValue) -> (r: AgentResponse)
        ensures
            r@ == response_of(command@, Some(v@)),
    {
        AgentResponse {
            message_type: "response".to_owned(),
            command: command.to_owned(),
            value: Some(v),
        }
    }
}

/// What the agent does about a command.
pub enum AgentAction {
    /// Poll at this interval, in seconds, from now on.
    SetInterval(u64),
    /// The command `SetInterval` came without a usable value: nothing changes.
    RejectInterval,
    /// Send this response.
    Respond(AgentResponse),
    /// Collect and send the metrics now, then send this acknowledgement.
    ForceMetricsUpdate(AgentResponse),
    /// Send this acknowledgement, close the connection, start the agent anew and exit.
    Restart(AgentResponse),
    /// Send this acknowledgement, close the connection and exit.
    Stop(AgentResponse),
}

pub enum ActionView {
    SetInterval(u64),
    RejectInterval,
    Respond(ResponseView),
    ForceMetricsUpdate(ResponseView),
    Restart(ResponseView),
    Stop(ResponseView),
}

impl View for AgentAction {
    type V = ActionView;

    open spec fn view(&self) -> ActionView {
        match self {
            AgentAction::SetInterval(n) => ActionView::SetInterval(*n),
            AgentAction::RejectInterval => ActionView::RejectInterval,
            AgentAction::Respond(r) => ActionView::Respond(r@),
            AgentAction::ForceMetricsUpdate(r) => ActionView::ForceMetricsUpdate(r@),
            AgentAction::Restart(r) => ActionView::Restart(r@),
            AgentAction::Stop(r) => ActionView::Stop(r@),
        }
    }
}

/// The interval that `SetInterval` with value `v` sets: at least one second.
pub open spec fn interval_from(v: u64) -> u64 {
    if v < 1 {
        1
    } else {
        v
    }
}

/// The polling interval after a command: `SetInterval` with a value sets it, at least to
/// one second; anything else leaves it as it was.
pub open spec fn next_interval(interval_secs: u64, command: Seq<char>, value: Option<u64>) -> u64 {
    if command == "SetInterval"@ {
        match value {
            Some(v) => interval_from(v),
            None => interval_secs,
        }
    } else {
        interval_secs
    }
}

/// What the agent does about a command while it polls every `interval_secs` seconds.
pub open spec fn command_action(interval_secs: u64, command: Seq<char>, value: Option<u64>) -> ActionView {
    if command == "SetInterval"@ {
        match value {
            Some(v) => ActionView::SetInterval(interval_from(v)),
            None => ActionView::RejectInterval,
        }
    } else if command == "GetInterval"@ {
        ActionView::Respond(
            response_of("GetInterval"@, Some(ResponseValueView::IntervalSecs(interval_secs))),
        )
    } else if command == "ForceMetricsUpdate"@ {
        ActionView::ForceMetricsUpdate(response_of("ForceMetricsUpdate"@, None))
    } else if command == "RestartAgent"@ {
        ActionView::Restart(response_of("RestartAgent"@, None))
    } else if command == "StopAgent"@ {
        ActionView::Stop(response_of("StopAgent"@, None))
    } else {
        ActionView::Respond(
            response_of("UnknownCommand"@, Some(ResponseValueView::Received(command))),
        )
    }
}

/// Handles a command of the server while the agent polls every `interval_secs` seconds:
/// the interval from now on, and what to do.
pub fn handle_command(interval_secs: u64, cmd: &ServerCommand) -> (r: (u64, AgentAction))
    ensures
        r.0 == next_interval(interval_secs, cmd.command@, cmd.value),
        r.1@ == command_action(interval_secs, cmd.command@, cmd.value),
{
    let c = cmd.command.as_str();
    if str_eq(c, "SetInterval") {
        match cmd.value {
            Some(v) => {
                let n = if v < 1 {
                    1
                } else {
                    v
                };
                (n, AgentAction::SetInterval(n))
            },
            None => (interval_secs, AgentAction::RejectInterval),
        }
    } else if str_eq(c, "GetInterval") {
        (
            interval_secs,
            AgentAction::Respond(
                AgentResponse::with_value("GetInterval", ResponseValue::IntervalSecs(interval_secs)),
            ),
        )
    } else if str_eq(c, "ForceMetricsUpdate") {
        (interval_secs, AgentAction::ForceMetricsUpdate(AgentResponse::ok("ForceMetricsUpdate")))
    } else if str_eq(c, "RestartAgent") {
        (interval_secs, AgentAction::Restart(AgentResponse::ok("RestartAgent")))
    } else if str_eq(c, "StopAgent") {
        (interval_secs, AgentAction::Stop(AgentResponse::ok("StopAgent")))
    } else {
        (
            interval_secs,
            AgentAction::Respond(
                AgentResponse::with_value("UnknownCommand", ResponseValue::Received(c.to_owned())),
            ),
        )
    }
}

/// Whatever the command, the interval stays at least one second.
pub proof fn lemma_interval_stays_positive(interval_secs: u64, command: Seq<char>, value: Option<u64>)
    requires
        interval_secs >= 1,
    ensures
        next_interval(interval_secs, command, value) >= 1,
{
}

/// Only `SetInterval` changes the interval.
pub proof fn lemma_only_set_interval_changes_it(
    interval_secs: u64,
    command: Seq<char>,
    value: Option<u64>,
)
    requires
        command != "SetInterval"@,
    ensures
        next_interval(interval_secs, command, value) == interval_secs,
{
}

/// After `SetInterval` with value `v`, `GetInterval` reports the interval that was set:
/// `v`, or one second where `v` is 0.
pub proof fn lemma_get_interval_reports_set_interval(
    interval_secs: u64,
    v: u64,
    get_value: Option<u64>,
)
    ensures
        command_action(
            next_interval(interval_secs, "SetInterval"@, Some(v)),
            "GetInterval"@,
            get_value,
        ) == ActionView::Respond(
            response_of(
                "GetInterval"@,
                Some(ResponseValueView::IntervalSecs(if v == 0 { 1 } else { v })),
            ),
        ),
{
    reveal_strlit("SetInterval");
    reveal_strlit("GetInterval");
    assert("GetInterval"@ != "SetInterval"@) by {
        assert("GetInterval"@[0] != "SetInterval"@[0]);
    }
}

/// What the server answered to the handshake.
pub enum HandshakeReply {
    /// A text message that reads as a command.
    Command(ServerCommand),
    /// A text message that does not read as a command.
    Unreadable,
    /// The server closed the connection.
    Closed,
    /// Reading from the connection failed.
    ReadError,
    /// The connection ended.
    StreamEnded,
    /// No answer came in time.
    TimedOut,
    /// Some other kind of message.
    Other,
}

/// Whether the server accepted the handshake: it answered with the command
/// `HandshakeAccepted`. On any other answer the agent connects anew.
pub fn handshake_accepted(reply: &HandshakeReply) -> (b: bool)
    ensures
        b == (reply matches HandshakeReply::Command(c) && c.command@ == "HandshakeAccepted"@),
{
    match reply {
        HandshakeReply::Command(c) => str_eq(c.command.as_str(), "HandshakeAccepted"),
        _ => false,
    }
}

/// What the agent tells the server about the machine when it connects.
pub struct AgentMetadata {
    pub message_type: String,
    pub node_id: String,
    pub hostname: String,
    pub os_name: String,
    pub cpu_cores: u32,
    pub cpu_threads: u32,
    pub cpu_frequency_mhz: u32,
    pub cpu_brand: String,
    pub cpu_model: String,
    pub gpu_vendor: String,
    pub gpu_name: String,
    pub gpu_memory_total_mb: u64,
    pub ram_total_kb: u64,
    pub swap_total_kb: u64,
    pub disk_total_kb: u64,
}

/// The frequency (MHz), vendor id and brand of the first CPU.
pub struct CpuIdentity {
    pub frequency_mhz: u64,
    pub vendor_id: String,
    pub brand: String,
}

/// The size of each disk, in whole KiB.
pub open spec fn disk_kb_column(disk_total_bytes: Seq<u64>) -> Seq<u64> {
    disk_total_bytes.map_values(|t: u64| t / 1024)
}

/// Whether `m` is the handshake for the given facts: the CPU counts and frequency are
/// narrowed to 32 bits, the CPU brand is the first CPU's vendor id and the model its
/// brand (empty, and a frequency of 0, where there is no CPU), memory and each disk are
/// in whole KiB.
pub open spec fn is_metadata_for(
    m: AgentMetadata,
    node_id: Seq<char>,
    hostname: Seq<char>,
    os_name: Seq<char>,
    physical_cores: Option<usize>,
    cpu_count: usize,
    first_cpu: Option<CpuIdentity>,
    gpu: (String, String, u64),
    total_memory: u64,
    total_swap: u64,
    disk_total_bytes: Seq<u64>,
) -> bool {
    &&& m.message_type@ == "handshake"@
    &&& m.node_id@ == node_id
    &&& m.hostname@ == hostname
    &&& m.os_name@ == os_name
    &&& m.cpu_cores == (match physical_cores {
        Some(n) => n,
        None => 0,
    }) as u32
    &&& m.cpu_threads == cpu_count as u32
    &&& m.cpu_frequency_mhz == (match first_cpu {
        Some(c) => c.frequency_mhz,
        None => 0,
    }) as u32
    &&& m.cpu_brand@ == (match first_cpu {
        Some(c) => c.vendor_id@,
        None => Seq::empty(),
    })
    &&& m.cpu_model@ == (match first_cpu {
        Some(c) => c.brand@,
        None => Seq::empty(),
    })
    &&& m.gpu_vendor@ == gpu.0@
    &&& m.gpu_name@ == gpu.1@
    &&& m.gpu_memory_total_mb == gpu.2
    &&& m.ram_total_kb == total_memory / 1024
    &&& m.swap_total_kb == total_swap / 1024
    &&& m.disk_total_kb == sum(disk_kb_column(disk_total_bytes))
}

/// Whether `r` is what building the handshake from the given facts gives: a handshake
/// exactly when the sizes of the disks, in KiB, add up without overflow, and then the one
/// for these facts.
pub open spec fn is_handshake_outcome(
    r: Option<AgentMetadata>,
    node_id: Seq<char>,
    hostname: Seq<char>,
    os_name: Seq<char>,
    physical_cores: Option<usize>,
    cpu_count: usize,
    first_cpu: Option<CpuIdentity>,
    gpu: (String, String, u64),
    total_memory: u64,
    total_swap: u64,
    disk_total_bytes: Seq<u64>,
) -> bool {
    &&& (r is Some <==> sum(disk_kb_column(disk_total_bytes)) <= u64::MAX)
    &&& (r matches Some(m) ==> is_metadata_for(
        m,
        node_id,
        hostname,
        os_name,
        physical_cores,
        cpu_count,
        first_cpu,
        gpu,
        total_memory,
        total_swap,
        disk_total_bytes,
    ))
}

/// The handshake for the given facts about the machine; `None` where the disk sizes
/// overflow when added up.
pub fn agent_metadata(
    node_id: &str,
    hostname: &str,
    os_name: &str,
    physical_cores: Option<usize>,
    cpu_count: usize,
    first_cpu: Option<CpuIdentity>,
    gpu: (String, String, u64),
    total_memory: u64,
    total_swap: u64,
    disk_total_bytes: &[u64],
) -> (r: Option<AgentMetadata>)
    ensures
        r is Some <==> sum(disk_kb_column(disk_total_bytes@)) <= u64::MAX,
        r matches Some(m) ==> is_metadata_for(
            m,
            node_id@,
            hostname@,
            os_name@,
            physical_cores,
            cpu_count,
            first_cpu,
            gpu,
            total_memory,
            total_swap,
            disk_total_bytes@,
        ),
{
    let mut kb: Vec<u64> = Vec::new();
    let mut i: usize = 0;
    while i < disk_total_bytes.len()
        invariant
            i <= disk_total_bytes.len(),
            kb@ =~= disk_kb_column(disk_total_bytes@.take(i as int)),
        decreases disk_total_bytes.len() - i,
    {
        kb.push(disk_total_bytes[i] / 1024);
        assert(disk_total_bytes@.take(i as int + 1) =~= disk_total_bytes@.take(i as int).push(
            disk_total_bytes@[i as int],
        ));
        i = i + 1;
    }
    assert(disk_total_bytes@.take(disk_total_bytes.len() as int) =~= disk_total_bytes@);
    assert(kb@ == disk_kb_column(disk_total_bytes@));
    proof {
        crate::sum::lemma_sum_nonneg(kb@);
    }
    let disk_total_kb = match checked_sum(kb.as_slice()) {
        Some(t) => t,
        None => {
            return None;
        },
    };
    let cores: usize = match physical_cores {
        Some(n) => n,
        None => 0,
    };
    let (frequency, cpu_brand, cpu_model) = match first_cpu {
        Some(c) => (c.frequency_mhz, c.vendor_id, c.brand),
        None => (0, String::new(), String::new()),
    };
    let (gpu_vendor, gpu_name, gpu_memory_total_mb) = gpu;
    Some(
        AgentMetadata {
            message_type: "handshake".to_owned(),
            node_id: node_id.to_owned(),
            hostname: hostname.to_owned(),
            os_name: os_name.to_owned(),
            cpu_cores: cores as u32,
            cpu_threads: cpu_count as u32,
            cpu_frequency_mhz: frequency as u32,
            cpu_brand,
            cpu_model,
            gpu_vendor,
            gpu_name,
            gpu_memory_total_mb,
            ram_total_kb: total_memory / 1024,
            swap_total_kb: total_swap / 1024,
            disk_total_kb,
        },
    )
}

/// The handshake for the snapshots `system` and `disks`, with the identity of the machine,
/// its number of physical cores (where known) and its GPU. It is the handshake for the CPUs,
/// memory and disk sizes that the snapshots report, and `None` exactly where those disk
/// sizes, in KiB, overflow when added up.
pub fn collect_agent_metadata(
    node_id: &str,
    hostname: &str,
    os_name: &str,
    physical_cores: Option<usize>,
    system: &System,
    disks: &Disks,
    gpu: (String, String, u64),
) -> (r: Option<AgentMetadata>)
    ensures
        r matches Some(m) ==> {
            &&& m.message_type@ == "handshake"@
            &&& m.node_id@ == node_id@
            &&& m.hostname@ == hostname@
            &&& m.os_name@ == os_name@
            &&& m.cpu_cores == (match physical_cores {
                Some(n) => n,
                None => 0,
            }) as u32
            &&& m.gpu_vendor@ == gpu.0@
            &&& m.gpu_name@ == gpu.1@
            &&& m.gpu_memory_total_mb == gpu.2
        },
        exists|cpu_count: usize, first_cpu: Option<CpuIdentity>, memory: u64, swap: u64, disk_bytes: Seq<u64>|
            #[trigger] is_handshake_outcome(
                r,
                node_id@,
                hostname@,
                os_name@,
                physical_cores,
                cpu_count,
                first_cpu,
                gpu,
                memory,
                swap,
                disk_bytes,
            ),
{
    let cpus = sys::cpus(system);
    let first_cpu = if cpus.len() > 0 {
        Some(
            CpuIdentity {
                frequency_mhz: sys::cpu_frequency(&cpus[0]),
                vendor_id: sys::cpu_vendor_id(&cpus[0]),
                brand: sys::cpu_brand(&cpus[0]),
            },
        )
    } else {
        None
    };
    let list = sys::disk_list(disks);
    let mut disk_bytes: Vec<u64> = Vec::new();
    let mut i: usize = 0;
    while i < list.len()
        invariant
            i <= list.len(),
        decreases list.len() - i,
    {
        disk_bytes.push(sys::disk_total_space(&list[i]));
        i = i + 1;
    }
    let memory = sys::total_memory(system);
    let swap = sys::total_swap(system);
    let ghost cpu_count = cpus.len();
    let ghost first = first_cpu;
    let r = agent_metadata(
        node_id,
        hostname,
        os_name,
        physical_cores,
        cpus.len(),
        first_cpu,
        gpu,
        memory,
        swap,
        disk_bytes.as_slice(),
    );
    assert(is_handshake_outcome(
        r,
        node_id@,
        hostname@,
        os_name@,
        physical_cores,
        cpu_count,
        first,
        gpu,
        memory,
        swap,
        disk_bytes@,
    ));
    r
}

} // verus!
