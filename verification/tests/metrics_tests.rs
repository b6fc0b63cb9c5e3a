use persona_exporter::metric_types::LoadAverage;
use persona_exporter::metrics::{
    collect_components_metrics, collect_cpus_metrics, collect_disk_metrics,
    collect_memory_metrics, collect_network_metrics, collect_process_list_info,
    collect_system_metrics, traffic_fits_all, ComponentRecord, CpuReading, DiskRecord,
    MemoryReading, NetworkRecord, ProcessRecord, SystemReading,
};

fn disk(mount: &str, name: &str, total: u64) -> DiskRecord {
    DiskRecord {
        mount_point: mount.to_string(),
        name: name.to_string(),
        file_system: "ext4".to_string(),
        kind: "SSD".to_string(),
        total_space: total,
        available_space: total / 2,
    }
}

fn net(name: &str, rx: u64, tx: u64) -> NetworkRecord {
    NetworkRecord {
        name: name.to_string(),
        total_received: rx,
        total_transmitted: tx,
        total_packets_received: rx / 10,
        total_packets_transmitted: tx / 10,
        total_errors_on_received: 1,
        total_errors_on_transmitted: 2,
    }
}

#[test]
fn cpu_summary_without_core_count_reports_zero_cores() {
    let usage = 14.814815f32.to_bits();
    let r = collect_cpus_metrics(&CpuReading {
        global_cpu_usage: usage,
        cpu_count: 8,
        physical_core_count: None,
    });
    assert_eq!(r.cpu_usage, usage);
    assert_eq!(f32::from_bits(r.cpu_usage), 14.814815f32);
    assert_eq!(r.threads, 8);
    assert_eq!(r.physical_core_count, 0);
}

#[test]
fn cpu_summary_with_core_count() {
    let r = collect_cpus_metrics(&CpuReading {
        global_cpu_usage: 0,
        cpu_count: 8,
        physical_core_count: Some(4),
    });
    assert_eq!(r.physical_core_count, 4);
    assert_eq!(r.cpu_usage, 0);
}

#[test]
fn system_summary_copies_every_reading() {
    let load = LoadAverage {
        one: 1.1f32.to_bits(),
        five: 1.31f32.to_bits(),
        fifteen: 1.35f32.to_bits(),
    };
    let r = collect_system_metrics(&SystemReading {
        total_memory: 16543600640,
        used_memory: 9833271296,
        total_swap: 25451552768,
        used_swap: 917835776,
        free_swap: 24533716992,
        available_memory: 6710329344,
        load_avg: load.clone(),
    });
    assert_eq!(r.total_memory, 16543600640);
    assert_eq!(r.used_memory, 9833271296);
    assert_eq!(r.total_swap, 25451552768);
    assert_eq!(r.used_swap, 917835776);
    assert_eq!(r.free_swap, 24533716992);
    assert_eq!(r.available_memory, 6710329344);
    assert_eq!(r.load_avg, load);
    assert_eq!(f32::from_bits(r.load_avg.five), 1.31f32);
}

#[test]
fn disk_at_root_is_found() {
    let disks = vec![disk("/boot", "/dev/nvme0n1p1", 500), disk("/", "/dev/nvme0n1p2", 501889327104)];
    let r = collect_disk_metrics(&disks, "/");
    assert_eq!(r.name, "/dev/nvme0n1p2");
    assert_eq!(r.file_system, "ext4");
    assert_eq!(r.kind, "SSD");
    assert_eq!(r.total_space, 501889327104);
    assert_eq!(r.available_space, 501889327104 / 2);
}

#[test]
fn first_disk_wins_when_two_share_a_mount_point() {
    let disks = vec![disk("/", "first", 10), disk("/", "second", 20)];
    let r = collect_disk_metrics(&disks, "/");
    assert_eq!(r.name, "first");
    assert_eq!(r.total_space, 10);
}

#[test]
fn mount_points_compare_as_paths() {
    let disks = vec![disk("/mnt/data/", "data", 7)];
    let r = collect_disk_metrics(&disks, "/mnt/data");
    assert_eq!(r.name, "data");
    let r = collect_disk_metrics(&disks, "/mnt/dat");
    assert_eq!(r.name, "unknown");
    let r = collect_disk_metrics(&disks, "/mnt//data");
    assert_eq!(r.name, "data");
    let r = collect_disk_metrics(&disks, "/mnt/./data/.");
    assert_eq!(r.name, "data");
    let r = collect_disk_metrics(&disks, "mnt/data");
    assert_eq!(r.name, "unknown");
}

#[test]
fn missing_disk_is_unknown() {
    let disks = vec![disk("/boot", "boot", 5)];
    let r = collect_disk_metrics(&disks, "/");
    assert_eq!(r.name, "unknown");
    assert_eq!(r.file_system, "");
    assert_eq!(r.kind, "");
    assert_eq!(r.total_space, 0);
    assert_eq!(r.available_space, 0);
    let r = collect_disk_metrics(&Vec::new(), "/");
    assert_eq!(r.name, "unknown");
}

#[test]
fn busiest_real_interface_is_reported() {
    let nets = vec![
        net("lo", 9_000_000, 9_000_000),
        net("docker0", 8_000_000, 0),
        net("br-1234", 8_000_000, 0),
        net("veth99", 8_000_000, 0),
        net("eth0", 100, 200),
        net("wlp0s20f3", 7457014974, 284549525),
    ];
    let r = collect_network_metrics(&nets);
    assert_eq!(r.interface_name, "wlp0s20f3");
    assert_eq!(r.total_rx_bytes, 7457014974);
    assert_eq!(r.total_tx_bytes, 284549525);
    assert_eq!(r.total_rx_packets, 745701497);
    assert_eq!(r.total_tx_packets, 28454952);
    assert_eq!(r.total_rx_errors, 1);
    assert_eq!(r.total_tx_errors, 2);
}

#[test]
fn last_interface_wins_a_tie() {
    let nets = vec![net("eth0", 10, 5), net("eth1", 5, 10), net("eth2", 1, 1)];
    let r = collect_network_metrics(&nets);
    assert_eq!(r.interface_name, "eth1");
}

#[test]
fn names_that_only_resemble_filtered_ones_are_kept() {
    let nets = vec![net("lo0", 1, 0), net("brx", 0, 0), net("dock", 0, 0)];
    let r = collect_network_metrics(&nets);
    assert_eq!(r.interface_name, "lo0");
}

#[test]
fn only_virtual_interfaces_give_unknown() {
    let nets = vec![net("lo", 5, 5), net("docker0", 1, 1), net("veth1", 3, 3), net("br-x", 2, 2)];
    let r = collect_network_metrics(&nets);
    assert_eq!(r.interface_name, "unknown");
    assert_eq!(r.total_rx_bytes, 0);
    assert_eq!(r.total_tx_bytes, 0);
    assert_eq!(r.total_rx_packets, 0);
    assert_eq!(r.total_tx_packets, 0);
    assert_eq!(r.total_rx_errors, 0);
    assert_eq!(r.total_tx_errors, 0);
    let r = collect_network_metrics(&Vec::new());
    assert_eq!(r.interface_name, "unknown");
}

#[test]
fn sensors_keep_order_and_fill_gaps() {
    let comps = vec![
        ComponentRecord {
            id: Some("hwmon4_1".to_string()),
            label: "coretemp Package id 0".to_string(),
            temperature: Some(84.0f32.to_bits()),
            critical: Some(100.0f32.to_bits()),
            max: Some(84.0f32.to_bits()),
        },
        ComponentRecord {
            id: None,
            label: "acpitz temp1".to_string(),
            temperature: None,
            critical: None,
            max: Some(74.0f32.to_bits()),
        },
    ];
    let r = collect_components_metrics(&comps);
    assert_eq!(r.count, 2);
    assert!(!r.is_empty);
    assert_eq!(r.components.len(), 2);
    assert_eq!(r.components[0].id, "hwmon4_1");
    assert_eq!(r.components[0].name, "coretemp Package id 0");
    assert_eq!(f32::from_bits(r.components[0].temp), 84.0);
    assert_eq!(f32::from_bits(r.components[0].critical_temp), 100.0);
    assert_eq!(r.components[1].id, "unknown");
    assert_eq!(r.components[1].name, "acpitz temp1");
    assert_eq!(f32::from_bits(r.components[1].temp), 0.0);
    assert_eq!(f32::from_bits(r.components[1].critical_temp), 0.0);
    assert_eq!(f32::from_bits(r.components[1].max_temp), 74.0);
}

#[test]
fn no_sensors_is_empty() {
    let r = collect_components_metrics(&Vec::new());
    assert_eq!(r.count, 0);
    assert!(r.is_empty);
    assert!(r.components.is_empty());
}

#[test]
fn traffic_overflow_is_detected() {
    assert!(traffic_fits_all(&vec![net("eth0", u64::MAX, 0), net("lo", u64::MAX, 5)]));
    assert!(!traffic_fits_all(&vec![net("eth0", u64::MAX, 1)]));
}

#[test]
fn memory_summary_copies_every_reading() {
    let r = collect_memory_metrics(&MemoryReading {
        total_memory: 16543600640,
        used_memory: 9833271296,
        free_memory: 503083008,
        available_memory: 6710329344,
        total_swap: 25451552768,
        used_swap: 917835776,
        free_swap: 24533716992,
    });
    assert_eq!(r.total_memory, 16543600640);
    assert_eq!(r.used_memory, 9833271296);
    assert_eq!(r.free_memory, 503083008);
    assert_eq!(r.available_memory, 6710329344);
    assert_eq!(r.total_swap, 25451552768);
    assert_eq!(r.used_swap, 917835776);
    assert_eq!(r.free_swap, 24533716992);
}

fn process(pid: u32, name: &str) -> ProcessRecord {
    ProcessRecord {
        pid,
        name: name.to_string(),
        status: "Sleep".to_string(),
        read_bytes: 1,
        written_bytes: 2,
        total_read_bytes: 3,
        total_written_bytes: 4,
        cpu_usage: 0.5f32.to_bits(),
        memory: 805584896,
        virtual_memory: 13410684928,
        run_time: 85932,
        start_time: 1786947990,
        user_id: Some("1000".to_string()),
        group_id: None,
    }
}

#[test]
fn process_list_is_cut_to_the_limit() {
    let ps = vec![process(6726, "a"), process(6720, "b"), process(353498, "persona-exporte"), process(1, "init")];
    let r = collect_process_list_info(&ps, 353498, 2);
    assert_eq!(r.process_list.len(), 2);
    assert_eq!(r.process_list[0].name, "a");
    assert_eq!(r.process_list[0].program_id, 6726);
    assert_eq!(r.process_list[1].name, "b");
    assert_eq!(r.process_list[0].status, "Sleep");
    assert_eq!(r.process_list[0].disk_usage.total_written_bytes, 4);
    assert_eq!(f32::from_bits(r.process_list[0].cpu_usage), 0.5);
    assert_eq!(r.process_list[0].user_id, "1000");
    assert_eq!(r.process_list[0].group_id, "unknown");
    let own = r.exporter_metrics.unwrap();
    assert_eq!(own.name, "persona-exporte");
    assert_eq!(own.program_id, 353498);
}

#[test]
fn process_list_shorter_than_limit_and_no_own_process() {
    let ps = vec![process(2, "x")];
    let r = collect_process_list_info(&ps, 99, 5);
    assert_eq!(r.process_list.len(), 1);
    assert!(r.exporter_metrics.is_none());
    let r = collect_process_list_info(&ps, 2, 0);
    assert!(r.process_list.is_empty());
    assert_eq!(r.exporter_metrics.unwrap().name, "x");
}
