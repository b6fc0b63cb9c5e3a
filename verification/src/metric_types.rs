//! The metric records that an exporter run produces.
//!
//! Readings that the operating system reports as `f32` (CPU load, temperatures,
//! load averages) are carried as their IEEE-754 bit patterns (`f32::to_bits`),
//! so that `0` stands for `0.0`.
use vstd::prelude::*;

verus! {

/// CPU usage summary.
#[derive(Clone, Debug, PartialEq, Eq)]
pub struct CpuInfo {
    /// Bit pattern of the global CPU usage in percent.
    pub cpu_usage: u32,
    /// Number of logical CPUs.
    pub threads: usize,
    /// Number of physical cores, `0` when unknown.
    pub physical_core_count: usize,
}

/// Load averages over one, five and fifteen minutes (bit patterns of `f32`).
#[derive(Clone, Debug, PartialEq, Eq)]
pub struct LoadAverage {
    pub one: u32,
    pub five: u32,
    pub fifteen: u32,
}

/// Memory, swap and load summary of the machine.
#[derive(Clone, Debug, PartialEq, Eq)]
pub struct SystemInfo {
    pub total_memory: u64,
    pub used_memory: u64,
    pub total_swap: u64,
    pub used_swap: u64,
    pub free_swap: u64,
    pub available_memory: u64,
    pub load_avg: LoadAverage,
}

/// The disk mounted at the observed mount point.
#[derive(Clone, Debug, PartialEq, Eq)]
pub struct DiskInfo {
    pub name: String,
    pub file_system: String,
    pub kind: String,
    pub total_space: u64,
    pub available_space: u64,
}

/// Traffic counters of the main network interface.
#[derive(Clone, Debug, PartialEq, Eq)]
pub struct NetworkInfo {
    pub interface_name: String,
    pub total_rx_bytes: u64,
    pub total_tx_bytes: u64,
    pub total_rx_packets: u64,
    pub total_tx_packets: u64,
    pub total_rx_errors: u64,
    pub total_tx_errors: u64,
}

/// One hardware sensor.
#[derive(Clone, Debug, PartialEq, Eq)]
pub struct ComponentInfo {
    pub id: String,
    pub name: String,
    /// Bit pattern of the temperature in °C, `0` when unknown.
    pub temp: u32,
    /// Bit pattern of the critical temperature, `0` when unknown.
    pub critical_temp: u32,
    /// Bit pattern of the highest temperature seen, `0` when unknown.
    pub max_temp: u32,
}

/// All hardware sensors.
#[derive(Clone, Debug, PartialEq, Eq)]
pub struct ComponentsInfo {
    pub count: usize,
    pub is_empty: bool,
    pub components: Vec<ComponentInfo>,
}

/// Memory and swap use, in bytes.
#[derive(Clone, Debug, PartialEq, Eq)]
pub struct MemoryInfo {
    pub total_memory: u64,
    pub used_memory: u64,
    pub free_memory: u64,
    pub available_memory: u64,
    pub total_swap: u64,
    pub used_swap: u64,
    pub free_swap: u64,
}

/// Bytes a process read and wrote, since the last refresh and in total.
#[derive(Clone, Debug, PartialEq, Eq)]
pub struct DiskUsage {
    pub read_bytes: u64,
    pub written_bytes: u64,
    pub total_read_bytes: u64,
    pub total_written_bytes: u64,
}

/// One running process.
#[derive(Clone, Debug, PartialEq, Eq)]
pub struct ProcessInfo {
    pub name: String,
    pub status: String,
    pub disk_usage: DiskUsage,
    /// The process id.
    pub program_id: u32,
    /// Bit pattern of the CPU usage in percent (`f32`).
    pub cpu_usage: u32,
    pub memory_usage: u64,
    pub virtual_memory: u64,
    /// Seconds the process has been running.
    pub run_time: u64,
    /// Seconds since the epoch when the process started.
    pub start_time: u64,
    pub user_id: String,
    pub group_id: String,
}

/// The exporter's own process and the listed processes.
#[derive(Clone, Debug, PartialEq, Eq)]
pub struct ProcessListInfo {
    pub exporter_metrics: Option<ProcessInfo>,
    pub process_list: Vec<ProcessInfo>,
}

/// `r` is the blank memory record that `default` gives.
pub open spec fn is_blank_memory(r: MemoryInfo) -> bool {
    &&& r.total_memory == 0 && r.used_memory == 0 && r.free_memory == 0
    &&& r.available_memory == 0
    &&& r.total_swap == 0 && r.used_swap == 0 && r.free_swap == 0
}

impl Default for MemoryInfo {
    fn default() -> (r: Self)
        ensures
            is_blank_memory(r),
    {
        MemoryInfo {
            total_memory: 0,
            used_memory: 0,
            free_memory: 0,
            available_memory: 0,
            total_swap: 0,
            used_swap: 0,
            free_swap: 0,
        }
    }
}

/// `r` is the blank process list record that `default` gives.
pub open spec fn is_blank_process_list(r: ProcessListInfo) -> bool {
    &&& r.exporter_metrics is None
    &&& r.process_list@.len() == 0
}

impl Default for ProcessListInfo {
    fn default() -> (r: Self)
        ensures
            is_blank_process_list(r),
    {
        ProcessListInfo { exporter_metrics: None, process_list: Vec::new() }
    }
}

impl Default for LoadAverage {
    fn default() -> (r: Self)
        ensures
            r.one == 0 && r.five == 0 && r.fifteen == 0,
    {
        LoadAverage { one: 0, five: 0, fifteen: 0 }
    }
}

/// `r` is the blank CPU record that `default` gives.
pub open spec fn is_blank_cpu(r: CpuInfo) -> bool {
    &&& r.cpu_usage == 0 && r.threads == 0 && r.physical_core_count == 0
}

impl Default for CpuInfo {
    fn default() -> (r: Self)
        ensures
            is_blank_cpu(r),
    {
        CpuInfo { cpu_usage: 0, threads: 0, physical_core_count: 0 }
    }
}

/// `r` is the blank system record that `default` gives.
pub open spec fn is_blank_system(r: SystemInfo) -> bool {
    &&& r.total_memory == 0
    &&& r.used_memory == 0
    &&& r.total_swap == 0
    &&& r.used_swap == 0
    &&& r.free_swap == 0
    &&& r.available_memory == 0
    &&& r.load_avg.one == 0 && r.load_avg.five == 0 && r.load_avg.fifteen == 0
}

impl Default for SystemInfo {
    fn default() -> (r: Self)
        ensures
            is_blank_system(r),
    {
        SystemInfo {
            total_memory: 0,
            used_memory: 0,
            total_swap: 0,
            used_swap: 0,
            free_swap: 0,
            available_memory: 0,
            load_avg: LoadAverage { one: 0, five: 0, fifteen: 0 },
        }
    }
}

/// `r` is the blank disk record that `default` gives.
pub open spec fn is_blank_disk(r: DiskInfo) -> bool {
    &&& r.name@ == Seq::<char>::empty()
    &&& r.file_system@ == Seq::<char>::empty()
    &&& r.kind@ == Seq::<char>::empty()
    &&& r.total_space == 0
    &&& r.available_space == 0
}

impl Default for DiskInfo {
    fn default() -> (r: Self)
        ensures
            is_blank_disk(r),
    {
        DiskInfo {
            name: String::new(),
            file_system: String::new(),
            kind: String::new(),
            total_space: 0,
            available_space: 0,
        }
    }
}

/// `r` is the blank network record that `default` gives.
pub open spec fn is_blank_network(r: NetworkInfo) -> bool {
    &&& r.interface_name@ == Seq::<char>::empty()
    &&& r.total_rx_bytes == 0 && r.total_tx_bytes == 0
    &&& r.total_rx_packets == 0 && r.total_tx_packets == 0
    &&& r.total_rx_errors == 0 && r.total_tx_errors == 0
}

impl Default for NetworkInfo {
    fn default() -> (r: Self)
        ensures
            is_blank_network(r),
    {
        NetworkInfo {
            interface_name: String::new(),
            total_rx_bytes: 0,
            total_tx_bytes: 0,
            total_rx_packets: 0,
            total_tx_packets: 0,
            total_rx_errors: 0,
            total_tx_errors: 0,
        }
    }
}

/// `r` is the blank sensor record that `default` gives.
pub open spec fn is_blank_components(r: ComponentsInfo) -> bool {
    &&& r.count == 0
    &&& !r.is_empty
    &&& r.components@.len() == 0
}

impl Default for ComponentsInfo {
    fn default() -> (r: Self)
        ensures
            is_blank_components(r),
    {
        ComponentsInfo { count: 0, is_empty: false, components: Vec::new() }
    }
}

}
