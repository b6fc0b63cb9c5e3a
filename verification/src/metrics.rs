//! Turning what the operating system reports into metric records.
//!
//! The readings come in as plain values: a caller reads the machine and hands
//! over one record per CPU summary, disk, network interface or sensor, in the
//! order the operating system lists them.
use vstd::prelude::*;
use crate::metric_types::{
    ComponentInfo, ComponentsInfo, CpuInfo, DiskInfo, DiskUsage, LoadAverage, MemoryInfo,
    NetworkInfo, ProcessInfo, ProcessListInfo, SystemInfo,
};
use crate::paths::{same_path, same_unix_path, trailing_slash_names_same_path};
use crate::text::{is_prefix, same_text, starts_with};

verus! {

broadcast use vstd::string::group_string_axioms;

/// What the machine reports about its processors.
pub struct CpuReading {
    /// Bit pattern of the global CPU usage (`f32`).
    pub global_cpu_usage: u32,
    /// Number of logical CPUs.
    pub cpu_count: usize,
    /// Number of physical cores, when the machine reports it.
    pub physical_core_count: Option<usize>,
}

/// What the machine reports about its memory, swap and load.
pub struct SystemReading {
    pub total_memory: u64,
    pub used_memory: u64,
    pub total_swap: u64,
    pub used_swap: u64,
    pub free_swap: u64,
    pub available_memory: u64,
    /// Load averages, already narrowed to `f32` bit patterns.
    pub load_avg: LoadAverage,
}

/// One mounted disk.
pub struct DiskRecord {
    pub mount_point: String,
    pub name: String,
    pub file_system: String,
    pub kind: String,
    pub total_space: u64,
    pub available_space: u64,
}

/// One network interface and its counters.
pub struct NetworkRecord {
    pub name: String,
    pub total_received: u64,
    pub total_transmitted: u64,
    pub total_packets_received: u64,
    pub total_packets_transmitted: u64,
    pub total_errors_on_received: u64,
    pub total_errors_on_transmitted: u64,
}

/// One hardware sensor; temperatures are `f32` bit patterns.
pub struct ComponentRecord {
    pub id: Option<String>,
    pub label: String,
    pub temperature: Option<u32>,
    pub critical: Option<u32>,
    pub max: Option<u32>,
}

/// CPU summary: usage as reported, number of logical CPUs, and the number of
/// physical cores or `0` when it is unknown.
pub fn collect_cpus_metrics(reading: &CpuReading) -> (r: CpuInfo)
    ensures
        r.cpu_usage == reading.global_cpu_usage,
        r.threads == reading.cpu_count,
        r.physical_core_count == match reading.physical_core_count {
            Some(n) => n,
            None => 0,
        },
{
    let physical_core_count = match reading.physical_core_count {
        Some(n) => n,
        None => 0,
    };
    CpuInfo {
        cpu_usage: reading.global_cpu_usage,
        threads: reading.cpu_count,
        physical_core_count,
    }
}

/// Memory, swap and load summary, copied field by field from the reading.
pub fn collect_system_metrics(reading: &SystemReading) -> (r: SystemInfo)
    ensures
        r.total_memory == reading.total_memory,
        r.used_memory == reading.used_memory,
        r.total_swap == reading.total_swap,
        r.used_swap == reading.used_swap,
        r.free_swap == reading.free_swap,
        r.available_memory == reading.available_memory,
        r.load_avg == reading.load_avg,
{
    SystemInfo {
        total_memory: reading.total_memory,
        used_memory: reading.used_memory,
        total_swap: reading.total_swap,
        used_swap: reading.used_swap,
        free_swap: reading.free_swap,
        available_memory: reading.available_memory,
        load_avg: LoadAverage {
            one: reading.load_avg.one,
            five: reading.load_avg.five,
            fifteen: reading.load_avg.fifteen,
        },
    }
}

// ---------------------------------------------------------------- disks

/// The disk record `d` is described by `info`.
pub open spec fn describes_disk(info: DiskInfo, d: DiskRecord) -> bool {
    &&& info.name@ == d.name@
    &&& info.file_system@ == d.file_system@
    &&& info.kind@ == d.kind@
    &&& info.total_space == d.total_space
    &&& info.available_space == d.available_space
}

/// `i` is the first disk mounted at `mount_point`.
pub open spec fn first_disk_at(disks: Seq<DiskRecord>, mount_point: Seq<char>, i: int) -> bool {
    &&& 0 <= i < disks.len()
    &&& same_unix_path(disks[i].mount_point@, mount_point)
    &&& forall|j: int| 0 <= j < i ==> !same_unix_path(#[trigger] disks[j].mount_point@, mount_point)
}

/// The record for a mount point that no disk is mounted at.
pub open spec fn is_unknown_disk(info: DiskInfo) -> bool {
    &&& info.name@ == "unknown"@
    &&& info.file_system@ == Seq::<char>::empty()
    &&& info.kind@ == Seq::<char>::empty()
    &&& info.total_space == 0
    &&& info.available_space == 0
}

/// The first disk mounted at `mount_point`, or a record named `unknown` with
/// everything else empty when none is.
pub fn collect_disk_metrics(disks: &Vec<DiskRecord>, mount_point: &str) -> (r: DiskInfo)
    ensures
        (exists|i: int| first_disk_at(disks@, mount_point@, i) && describes_disk(r, disks@[i]))
            || ((forall|i: int| 0 <= i < disks@.len()
                ==> !same_unix_path(#[trigger] disks@[i].mount_point@, mount_point@))
                && is_unknown_disk(r)),
{
    let mut i: usize = 0;
    while i < disks.len()
        invariant
            i <= disks@.len(),
            forall|j: int| 0 <= j < i ==> !same_unix_path(#[trigger] disks@[j].mount_point@, mount_point@),
        decreases disks.len() - i,
    {
        let d = &disks[i];
        if same_path(d.mount_point.as_str(), mount_point) {
            let r = DiskInfo {
                name: d.name.clone(),
                file_system: d.file_system.clone(),
                kind: d.kind.clone(),
                total_space: d.total_space,
                available_space: d.available_space,
            };
            assert(first_disk_at(disks@, mount_point@, i as int));
            return r;
        }
        i = i + 1;
    }
    DiskInfo {
        name: "unknown".to_string(),
        file_system: String::new(),
        kind: String::new(),
        total_space: 0,
        available_space: 0,
    }
}

}
verus! {

/// Which disk is reported depends only on the path that the mount point text
/// names, not on how it is spelled.
pub proof fn disk_lookup_follows_the_path(disks: Seq<DiskRecord>, a: Seq<char>, b: Seq<char>, i: int)
    requires
        same_unix_path(a, b),
    ensures
        first_disk_at(disks, a, i) == first_disk_at(disks, b, i),
{
}

/// A trailing `/` on a non-empty mount point reports the same disk
/// (`/mnt/` and `/mnt`).
pub proof fn disk_lookup_ignores_trailing_slash(disks: Seq<DiskRecord>, mount_point: Seq<char>, i: int)
    requires
        mount_point.len() > 0,
    ensures
        first_disk_at(disks, mount_point.push('/'), i) == first_disk_at(disks, mount_point, i),
{
    trailing_slash_names_same_path(mount_point);
    disk_lookup_follows_the_path(disks, mount_point.push('/'), mount_point, i);
}

// ---------------------------------------------------------------- network

/// Interfaces that can be the main one: not the loopback `lo`, and not a
/// bridge (`br-`), docker (`docker`) or virtual ethernet (`veth`) interface.
pub open spec fn is_main_interface_candidate(name: Seq<char>) -> bool {
    &&& name != "lo"@
    &&& !is_prefix("br-"@, name)
    &&& !is_prefix("docker"@, name)
    &&& !is_prefix("veth"@, name)
}

/// Every interface name is a main-interface candidate except `lo` and the
/// names that begin with `br-`, `docker` or `veth`; any other name (such as
/// `eth0` or `enp3s0`) is one.
pub proof fn candidates_are_all_but_local_and_virtual(name: Seq<char>)
    ensures
        is_main_interface_candidate(name) <==> !(
            name =~= seq!['l', 'o']
            || (name.len() >= 3 && name.take(3) =~= seq!['b', 'r', '-'])
            || (name.len() >= 6 && name.take(6) =~= seq!['d', 'o', 'c', 'k', 'e', 'r'])
            || (name.len() >= 4 && name.take(4) =~= seq!['v', 'e', 't', 'h'])),
{
    reveal_strlit("lo");
    reveal_strlit("br-");
    reveal_strlit("docker");
    reveal_strlit("veth");
    assert("lo"@ =~= seq!['l', 'o']);
    assert("br-"@ =~= seq!['b', 'r', '-']);
    assert("docker"@ =~= seq!['d', 'o', 'c', 'k', 'e', 'r']);
    assert("veth"@ =~= seq!['v', 'e', 't', 'h']);
}

/// An interface that is the only candidate is the one reported, whatever its
/// traffic and whatever the others carry.
pub proof fn sole_candidate_is_reported(nets: Seq<NetworkRecord>, i: int)
    requires
        0 <= i < nets.len(),
        is_main_interface_candidate(nets[i].name@),
        forall|j: int| 0 <= j < nets.len() && j != i
            ==> !is_main_interface_candidate(#[trigger] nets[j].name@),
    ensures
        is_main_interface(nets, i),
        forall|k: int| is_main_interface(nets, k) ==> k == i,
{
}

/// Bytes received and transmitted, together.
pub open spec fn traffic(n: NetworkRecord) -> int {
    n.total_received + n.total_transmitted
}

/// `i` is the interface that the exporter reports: a candidate with the most
/// traffic, the last of them in the given order where several tie.
pub open spec fn is_main_interface(nets: Seq<NetworkRecord>, i: int) -> bool {
    &&& 0 <= i < nets.len()
    &&& is_main_interface_candidate(nets[i].name@)
    &&& forall|j: int| 0 <= j < nets.len() && is_main_interface_candidate(#[trigger] nets[j].name@)
        ==> traffic(nets[j]) <= traffic(nets[i])
    &&& forall|j: int| i < j < nets.len() && is_main_interface_candidate(#[trigger] nets[j].name@)
        ==> traffic(nets[j]) < traffic(nets[i])
}

/// The interface `n` is described by `info`.
pub open spec fn describes_interface(info: NetworkInfo, n: NetworkRecord) -> bool {
    &&& info.interface_name@ == n.name@
    &&& info.total_rx_bytes == n.total_received
    &&& info.total_tx_bytes == n.total_transmitted
    &&& info.total_rx_packets == n.total_packets_received
    &&& info.total_tx_packets == n.total_packets_transmitted
    &&& info.total_rx_errors == n.total_errors_on_received
    &&& info.total_tx_errors == n.total_errors_on_transmitted
}

/// The record reported when no interface is a candidate.
pub open spec fn is_unknown_interface(info: NetworkInfo) -> bool {
    &&& info.interface_name@ == "unknown"@
    &&& info.total_rx_bytes == 0 && info.total_tx_bytes == 0
    &&& info.total_rx_packets == 0 && info.total_tx_packets == 0
    &&& info.total_rx_errors == 0 && info.total_tx_errors == 0
}

/// Traffic of every candidate interface fits in a `u64`.
pub open spec fn traffic_fits(nets: Seq<NetworkRecord>) -> bool {
    forall|j: int| 0 <= j < nets.len() && is_main_interface_candidate(#[trigger] nets[j].name@)
        ==> traffic(nets[j]) <= u64::MAX
}

fn unknown_interface_name() -> (s: String)
    ensures
        s@ == "unknown"@,
        is_main_interface_candidate(s@),
{
    let s = "unknown".to_string();
    proof {
        reveal_strlit("unknown");
        reveal_strlit("lo");
        reveal_strlit("br-");
        reveal_strlit("docker");
        reveal_strlit("veth");
        assert(s@ != "lo"@) by { assert(s@.len() != "lo"@.len()); }
        assert(!is_prefix("br-"@, s@)) by { assert(s@.subrange(0, 3)[0] != "br-"@[0]); }
        assert(!is_prefix("docker"@, s@)) by { assert(s@.subrange(0, 6)[0] != "docker"@[0]); }
        assert(!is_prefix("veth"@, s@)) by { assert(s@.subrange(0, 4)[0] != "veth"@[0]); }
    }
    s
}

/// Whether the interface `name` can be the main one (see
/// `is_main_interface_candidate`).
pub fn is_candidate_name(name: &str) -> (b: bool)
    ensures
        b == is_main_interface_candidate(name@),
{
    !same_text(name, "lo") && !starts_with(name, "br-") && !starts_with(name, "docker")
        && !starts_with(name, "veth")
}

/// Whether the traffic of every candidate interface fits in a `u64`, as
/// `collect_network_metrics` needs.
pub fn traffic_fits_all(networks: &Vec<NetworkRecord>) -> (b: bool)
    ensures
        b == traffic_fits(networks@),
{
    let mut i: usize = 0;
    while i < networks.len()
        invariant
            i <= networks@.len(),
            forall|j: int| 0 <= j < i && is_main_interface_candidate(#[trigger] networks@[j].name@)
                ==> traffic(networks@[j]) <= u64::MAX,
        decreases networks.len() - i,
    {
        let n = &networks[i];
        if is_candidate_name(n.name.as_str()) && n.total_received > u64::MAX - n.total_transmitted {
            return false;
        }
        i = i + 1;
    }
    true
}

/// Counters of the main interface: among the interfaces that are not
/// loopback, bridge, docker or veth ones, the one with the most bytes received
/// and transmitted (the last such in the given order on a tie); a record named
/// `unknown` with zero counters when there is none.
pub fn collect_network_metrics(networks: &Vec<NetworkRecord>) -> (r: NetworkInfo)
    requires
        traffic_fits(networks@),
    ensures
        is_main_interface_candidate(r.interface_name@),
        (exists|i: int| is_main_interface(networks@, i) && describes_interface(r, networks@[i]))
            || ((forall|i: int| 0 <= i < networks@.len()
                ==> !is_main_interface_candidate(#[trigger] networks@[i].name@))
                && is_unknown_interface(r)),
{
    let mut best: Option<usize> = None;
    let mut best_traffic: u64 = 0;
    let mut i: usize = 0;
    while i < networks.len()
        invariant
            i <= networks@.len(),
            traffic_fits(networks@),
            match best {
                None => forall|j: int| 0 <= j < i
                    ==> !is_main_interface_candidate(#[trigger] networks@[j].name@),
                Some(b) => {
                    &&& b < i
                    &&& is_main_interface_candidate(networks@[b as int].name@)
                    &&& best_traffic == traffic(networks@[b as int])
                    &&& forall|j: int| 0 <= j < i && is_main_interface_candidate(#[trigger] networks@[j].name@)
                        ==> traffic(networks@[j]) <= best_traffic
                    &&& forall|j: int| b < j < i && is_main_interface_candidate(#[trigger] networks@[j].name@)
                        ==> traffic(networks@[j]) < best_traffic
                },
            },
        decreases networks.len() - i,
    {
        let n = &networks[i];
        if is_candidate_name(n.name.as_str()) {
            assert(is_main_interface_candidate(networks@[i as int].name@));
            let t = n.total_received + n.total_transmitted;
            match best {
                None => {
                    best = Some(i);
                    best_traffic = t;
                },
                Some(_) => {
                    if t >= best_traffic {
                        best = Some(i);
                        best_traffic = t;
                    }
                },
            }
        }
        i = i + 1;
    }
    match best {
        Some(b) => {
            let n = &networks[b];
            assert(is_main_interface(networks@, b as int));
            NetworkInfo {
                interface_name: n.name.clone(),
                total_rx_bytes: n.total_received,
                total_tx_bytes: n.total_transmitted,
                total_rx_packets: n.total_packets_received,
                total_tx_packets: n.total_packets_transmitted,
                total_rx_errors: n.total_errors_on_received,
                total_tx_errors: n.total_errors_on_transmitted,
            }
        },
        None => NetworkInfo {
            interface_name: unknown_interface_name(),
            total_rx_bytes: 0,
            total_tx_bytes: 0,
            total_rx_packets: 0,
            total_tx_packets: 0,
            total_rx_errors: 0,
            total_tx_errors: 0,
        },
    }
}

// ---------------------------------------------------------------- sensors

/// The sensor `c` is described by `info`: a missing id reads `unknown`, a
/// missing temperature reads `0`.
pub open spec fn describes_component(info: ComponentInfo, c: ComponentRecord) -> bool {
    &&& info.id@ == match c.id {
        Some(id) => id@,
        None => "unknown"@,
    }
    &&& info.name@ == c.label@
    &&& info.temp == match c.temperature { Some(t) => t, None => 0 }
    &&& info.critical_temp == match c.critical { Some(t) => t, None => 0 }
    &&& info.max_temp == match c.max { Some(t) => t, None => 0 }
}

fn describe_component(c: &ComponentRecord) -> (r: ComponentInfo)
    ensures
        describes_component(r, *c),
{
    let id = match &c.id {
        Some(id) => id.clone(),
        None => "unknown".to_string(),
    };
    let temp = match c.temperature { Some(t) => t, None => 0 };
    let critical_temp = match c.critical { Some(t) => t, None => 0 };
    let max_temp = match c.max { Some(t) => t, None => 0 };
    ComponentInfo { id, name: c.label.clone(), temp, critical_temp, max_temp }
}

/// All sensors, one record each in the given order, with their number and
/// whether there are none.
pub fn collect_components_metrics(components: &Vec<ComponentRecord>) -> (r: ComponentsInfo)
    ensures
        r.count == components@.len(),
        r.is_empty == (components@.len() == 0),
        r.components@.len() == components@.len(),
        forall|i: int| 0 <= i < components@.len()
            ==> describes_component(#[trigger] r.components@[i], components@[i]),
{
    let mut out: Vec<ComponentInfo> = Vec::new();
    let mut i: usize = 0;
    while i < components.len()
        invariant
            i <= components@.len(),
            out@.len() == i,
            forall|k: int| 0 <= k < i ==> describes_component(#[trigger] out@[k], components@[k]),
        decreases components.len() - i,
    {
        let info = describe_component(&components[i]);
        out.push(info);
        i = i + 1;
    }
    ComponentsInfo { count: components.len(), is_empty: components.len() == 0, components: out }
}

}

verus! {

// ---------------------------------------------------------------- memory

/// What the machine reports about its memory and swap, in bytes.
pub struct MemoryReading {
    pub total_memory: u64,
    pub used_memory: u64,
    pub free_memory: u64,
    pub available_memory: u64,
    pub total_swap: u64,
    pub used_swap: u64,
    pub free_swap: u64,
}

/// Memory and swap use, copied field by field from the reading.
pub fn collect_memory_metrics(reading: &MemoryReading) -> (r: MemoryInfo)
    ensures
        r.total_memory == reading.total_memory,
        r.used_memory == reading.used_memory,
        r.free_memory == reading.free_memory,
        r.available_memory == reading.available_memory,
        r.total_swap == reading.total_swap,
        r.used_swap == reading.used_swap,
        r.free_swap == reading.free_swap,
{
    MemoryInfo {
        total_memory: reading.total_memory,
        used_memory: reading.used_memory,
        free_memory: reading.free_memory,
        available_memory: reading.available_memory,
        total_swap: reading.total_swap,
        used_swap: reading.used_swap,
        free_swap: reading.free_swap,
    }
}

// ---------------------------------------------------------------- processes

/// One running process as the machine reports it.
pub struct ProcessRecord {
    pub pid: u32,
    pub name: String,
    pub status: String,
    pub read_bytes: u64,
    pub written_bytes: u64,
    pub total_read_bytes: u64,
    pub total_written_bytes: u64,
    /// Bit pattern of the CPU usage (`f32`).
    pub cpu_usage: u32,
    pub memory: u64,
    pub virtual_memory: u64,
    pub run_time: u64,
    pub start_time: u64,
    pub user_id: Option<String>,
    pub group_id: Option<String>,
}

/// An owner id as reported: the id, or `unknown` when there is none.
pub open spec fn id_text(id: Option<String>) -> Seq<char> {
    match id {
        Some(s) => s@,
        None => "unknown"@,
    }
}

/// The process `p` is described by `info`.
pub open spec fn describes_process(info: ProcessInfo, p: ProcessRecord) -> bool {
    &&& info.name@ == p.name@
    &&& info.status@ == p.status@
    &&& info.disk_usage.read_bytes == p.read_bytes
    &&& info.disk_usage.written_bytes == p.written_bytes
    &&& info.disk_usage.total_read_bytes == p.total_read_bytes
    &&& info.disk_usage.total_written_bytes == p.total_written_bytes
    &&& info.program_id == p.pid
    &&& info.cpu_usage == p.cpu_usage
    &&& info.memory_usage == p.memory
    &&& info.virtual_memory == p.virtual_memory
    &&& info.run_time == p.run_time
    &&& info.start_time == p.start_time
    &&& info.user_id@ == id_text(p.user_id)
    &&& info.group_id@ == id_text(p.group_id)
}

fn id_or_unknown(id: &Option<String>) -> (r: String)
    ensures
        r@ == id_text(*id),
{
    match id {
        Some(s) => s.clone(),
        None => "unknown".to_string(),
    }
}

fn describe_process(p: &ProcessRecord) -> (r: ProcessInfo)
    ensures
        describes_process(r, *p),
{
    ProcessInfo {
        name: p.name.clone(),
        status: p.status.clone(),
        disk_usage: DiskUsage {
            read_bytes: p.read_bytes,
            written_bytes: p.written_bytes,
            total_read_bytes: p.total_read_bytes,
            total_written_bytes: p.total_written_bytes,
        },
        program_id: p.pid,
        cpu_usage: p.cpu_usage,
        memory_usage: p.memory,
        virtual_memory: p.virtual_memory,
        run_time: p.run_time,
        start_time: p.start_time,
        user_id: id_or_unknown(&p.user_id),
        group_id: id_or_unknown(&p.group_id),
    }
}

/// `i` is the first process with id `pid`.
pub open spec fn first_process_with(processes: Seq<ProcessRecord>, pid: u32, i: int) -> bool {
    &&& 0 <= i < processes.len()
    &&& processes[i].pid == pid
    &&& forall|j: int| 0 <= j < i ==> #[trigger] processes[j].pid != pid
}

/// The process list of a round: the exporter's own process (the first with
/// id `exporter_pid`, when there is one), and the first `limit` processes in
/// the given order.
pub fn collect_process_list_info(processes: &Vec<ProcessRecord>, exporter_pid: u32, limit: u32) -> (r: ProcessListInfo)
    ensures
        r.process_list@.len() == if limit < processes@.len() { limit as int } else { processes@.len() as int },
        forall|i: int| 0 <= i < r.process_list@.len()
            ==> describes_process(#[trigger] r.process_list@[i], processes@[i]),
        match r.exporter_metrics {
            Some(e) => exists|i: int| first_process_with(processes@, exporter_pid, i)
                && describes_process(e, processes@[i]),
            None => forall|i: int| 0 <= i < processes@.len() ==> #[trigger] processes@[i].pid != exporter_pid,
        },
{
    let n: usize = if (limit as u64) < (processes.len() as u64) { limit as usize } else { processes.len() };
    let mut list: Vec<ProcessInfo> = Vec::new();
    let mut i: usize = 0;
    while i < n
        invariant
            n <= processes@.len(),
            n == if limit < processes@.len() { limit as int } else { processes@.len() as int },
            i <= n,
            list@.len() == i,
            forall|k: int| 0 <= k < i ==> describes_process(#[trigger] list@[k], processes@[k]),
        decreases n - i,
    {
        let info = describe_process(&processes[i]);
        list.push(info);
        i = i + 1;
    }
    let mut j: usize = 0;
    while j < processes.len()
        invariant
            j <= processes@.len(),
            list@.len() == n,
            n == if limit < processes@.len() { limit as int } else { processes@.len() as int },
            forall|k: int| 0 <= k < n ==> describes_process(#[trigger] list@[k], processes@[k]),
            forall|k: int| 0 <= k < j ==> #[trigger] processes@[k].pid != exporter_pid,
        decreases processes.len() - j,
    {
        if processes[j].pid == exporter_pid {
            let info = describe_process(&processes[j]);
            assert(first_process_with(processes@, exporter_pid, j as int));
            return ProcessListInfo { exporter_metrics: Some(info), process_list: list };
        }
        j = j + 1;
    }
    ProcessListInfo { exporter_metrics: None, process_list: list }
}

}
