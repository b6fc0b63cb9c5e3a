//! What each collection round gathers and how it is sent.
//!
//! The exporter runs rounds forever: refresh the enabled readings, build the
//! body in the configured format, send it, and sleep for the configured
//! interval. The decisions of a round are taken here from the configuration;
//! the reading, sending and sleeping are done by the caller.
use vstd::prelude::*;
use crate::configs::configs::{is_default_agent_config, AgentConfigFile, DataType};
use crate::metric_types::{
    is_blank_components, is_blank_cpu, is_blank_disk, is_blank_memory, is_blank_network,
    is_blank_process_list, is_blank_system, ComponentsInfo, CpuInfo, DiskInfo, MemoryInfo,
    NetworkInfo, ProcessListInfo, SystemInfo,
};
use crate::text::str_to_string;

verus! {

broadcast use vstd::string::group_string_axioms;

/// The decisions that hold for every round of an exporter run.
pub struct CollectionPlan {
    /// Whether the processor, memory and process readings are refreshed at all.
    pub refresh_system: bool,
    pub collect_memory: bool,
    pub collect_cpu: bool,
    /// The system summary (memory, swap and load) has a switch of its own.
    pub collect_system: bool,
    /// Whether the process list is collected, and how long it may be.
    pub collect_processes: bool,
    pub process_limit: u32,
    pub collect_disks: bool,
    pub collect_networks: bool,
    pub collect_components: bool,
    /// The mount point whose disk is reported.
    pub disk_mount_point: String,
    /// The body format of the requests.
    pub data_type: DataType,
    /// Seconds to wait after each request.
    pub send_interval_secs: u64,
}

/// The plan that `config` asks for.
pub open spec fn plan_for(config: AgentConfigFile, plan: CollectionPlan) -> bool {
    let m = config.metrics;
    &&& plan.refresh_system == (m.cpu.settings.enabled || m.memory.settings.enabled
        || m.system.settings.enabled || m.system.collect_processes)
    &&& plan.collect_memory == m.memory.settings.enabled
    &&& plan.collect_cpu == m.cpu.settings.enabled
    &&& plan.collect_system == m.system.settings.enabled
    &&& plan.collect_processes == m.system.collect_processes
    &&& plan.process_limit == m.system.process_limit
    &&& plan.collect_disks == m.disks.settings.enabled
    &&& plan.collect_networks == m.network.settings.enabled
    &&& plan.collect_components == m.components.settings.enabled
    &&& plan.disk_mount_point@ == "/"@
    &&& plan.data_type == config.agent.data_type
    &&& plan.send_interval_secs == config.agent.send_metrics_interval
}

/// The round decisions for `config`: processor, memory and process readings
/// are refreshed when some group that needs them is on, each group follows its
/// own switch, the process list is cut to the configured limit, the disk of `/` is reported, and bodies use the configured format
/// and interval.
pub fn plan_collection(config: &AgentConfigFile) -> (plan: CollectionPlan)
    ensures
        plan_for(*config, plan),
{
    let m = &config.metrics;
    CollectionPlan {
        refresh_system: m.cpu.settings.enabled || m.memory.settings.enabled
            || m.system.settings.enabled || m.system.collect_processes,
        collect_memory: m.memory.settings.enabled,
        collect_cpu: m.cpu.settings.enabled,
        collect_system: m.system.settings.enabled,
        collect_processes: m.system.collect_processes,
        process_limit: m.system.process_limit,
        collect_disks: m.disks.settings.enabled,
        collect_networks: m.network.settings.enabled,
        collect_components: m.components.settings.enabled,
        disk_mount_point: str_to_string("/"),
        data_type: config.agent.data_type,
        send_interval_secs: config.agent.send_metrics_interval,
    }
}

/// The line-protocol timestamp of a round taken at `nanos` nanoseconds since
/// the epoch: the same bits read as a signed number.
pub fn line_timestamp(nanos: u64) -> (t: i64)
    ensures
        t == nanos as i64,
{
    nanos as i64
}

/// With the built-in configuration every metric group is collected (the
/// process list up to five entries), the disk
/// of `/` is reported, and JSON bodies are sent every five seconds.
pub proof fn default_plan_collects_everything(config: AgentConfigFile, plan: CollectionPlan)
    requires
        is_default_agent_config(config),
        plan_for(config, plan),
    ensures
        plan.refresh_system,
        plan.collect_memory,
        plan.collect_cpu,
        plan.collect_system,
        plan.collect_processes,
        plan.process_limit == 5,
        plan.collect_disks,
        plan.collect_networks,
        plan.collect_components,
        plan.disk_mount_point@ == "/"@,
        plan.data_type == DataType::Json,
        plan.send_interval_secs == 5,
{
}

/// The processor, memory and process readings are refreshed exactly when some
/// group that needs them (memory, CPU, the system summary or the process list)
/// is collected.
pub proof fn refresh_exactly_when_needed(config: AgentConfigFile, plan: CollectionPlan)
    requires
        plan_for(config, plan),
    ensures
        plan.refresh_system == (plan.collect_memory || plan.collect_cpu || plan.collect_system
            || plan.collect_processes),
{
}

/// Each metric group is collected exactly when its own switch is on,
/// whatever the other switches say, and the process list is cut to the
/// configured limit.
pub proof fn each_group_follows_its_own_switch(config: AgentConfigFile, plan: CollectionPlan)
    requires
        plan_for(config, plan),
    ensures
        plan.collect_memory == config.metrics.memory.settings.enabled,
        plan.collect_cpu == config.metrics.cpu.settings.enabled,
        plan.collect_system == config.metrics.system.settings.enabled,
        plan.collect_processes == config.metrics.system.collect_processes,
        plan.process_limit == config.metrics.system.process_limit,
        plan.collect_disks == config.metrics.disks.settings.enabled,
        plan.collect_networks == config.metrics.network.settings.enabled,
        plan.collect_components == config.metrics.components.settings.enabled,
{
}

/// Two configurations that agree on one group's switch give plans that agree
/// on whether that group is collected, however the other switches differ.
pub proof fn switches_do_not_affect_each_other(
    a: AgentConfigFile,
    b: AgentConfigFile,
    plan_a: CollectionPlan,
    plan_b: CollectionPlan,
)
    requires
        plan_for(a, plan_a),
        plan_for(b, plan_b),
    ensures
        a.metrics.memory.settings.enabled == b.metrics.memory.settings.enabled
            ==> plan_a.collect_memory == plan_b.collect_memory,
        a.metrics.cpu.settings.enabled == b.metrics.cpu.settings.enabled
            ==> plan_a.collect_cpu == plan_b.collect_cpu,
        a.metrics.system.settings.enabled == b.metrics.system.settings.enabled
            ==> plan_a.collect_system == plan_b.collect_system,
        a.metrics.system.collect_processes == b.metrics.system.collect_processes
            ==> plan_a.collect_processes == plan_b.collect_processes,
        a.metrics.disks.settings.enabled == b.metrics.disks.settings.enabled
            ==> plan_a.collect_disks == plan_b.collect_disks,
        a.metrics.network.settings.enabled == b.metrics.network.settings.enabled
            ==> plan_a.collect_networks == plan_b.collect_networks,
        a.metrics.components.settings.enabled == b.metrics.components.settings.enabled
            ==> plan_a.collect_components == plan_b.collect_components,
{
}

/// What one round collected; a group that is switched off is `None`.
pub struct RoundMetrics {
    pub system: Option<SystemInfo>,
    pub memory: Option<MemoryInfo>,
    pub disk: Option<DiskInfo>,
    pub network: Option<NetworkInfo>,
    pub cpu: Option<CpuInfo>,
    pub components: Option<ComponentsInfo>,
    pub processes: Option<ProcessListInfo>,
}

/// The records of a line-protocol batch: every group present, the ones not
/// collected as blank records.
pub struct LineProtocolRecords {
    pub system: SystemInfo,
    pub memory: MemoryInfo,
    pub disk: DiskInfo,
    pub network: NetworkInfo,
    pub cpu: CpuInfo,
    pub components: ComponentsInfo,
    pub processes: ProcessListInfo,
}

/// `v` is the collected value when there is one, else satisfies `blank`.
pub open spec fn collected_or_blank<T>(v: T, collected: Option<T>, blank: spec_fn(T) -> bool) -> bool {
    match collected {
        Some(c) => v == c,
        None => blank(v),
    }
}

/// The records written in a line-protocol batch: each collected group as it
/// was collected, each other group as its blank record.
pub fn line_protocol_records(round: RoundMetrics) -> (r: LineProtocolRecords)
    ensures
        collected_or_blank(r.system, round.system, |v: SystemInfo| is_blank_system(v)),
        collected_or_blank(r.memory, round.memory, |v: MemoryInfo| is_blank_memory(v)),
        collected_or_blank(r.disk, round.disk, |v: DiskInfo| is_blank_disk(v)),
        collected_or_blank(r.network, round.network, |v: NetworkInfo| is_blank_network(v)),
        collected_or_blank(r.cpu, round.cpu, |v: CpuInfo| is_blank_cpu(v)),
        collected_or_blank(r.components, round.components, |v: ComponentsInfo| is_blank_components(v)),
        collected_or_blank(r.processes, round.processes, |v: ProcessListInfo| is_blank_process_list(v)),
{
    LineProtocolRecords {
        system: match round.system { Some(v) => v, None => SystemInfo::default() },
        memory: match round.memory { Some(v) => v, None => MemoryInfo::default() },
        disk: match round.disk { Some(v) => v, None => DiskInfo::default() },
        network: match round.network { Some(v) => v, None => NetworkInfo::default() },
        cpu: match round.cpu { Some(v) => v, None => CpuInfo::default() },
        components: match round.components { Some(v) => v, None => ComponentsInfo::default() },
        processes: match round.processes { Some(v) => v, None => ProcessListInfo::default() },
    }
}

}
