use persona_exporter::configs::configs::{AgentConfigFile, DataType, HeaderConfig, ParamField};
use persona_exporter::metric_types::{CpuInfo, DiskInfo};
use persona_exporter::platforms::other::collector::{
    line_protocol_records, line_timestamp, plan_collection, RoundMetrics,
};
use persona_exporter::platforms::other::methods::arguments::ToLineProtocolOptions;
use persona_exporter::platforms::other::methods::{
    build_query_pairs, build_request_headers, collect_metrics_as_line_protocol, get_host, host_from_parsed,
    load_config, measurement_name, push_decimal, tracing_filter, LineSection,
};
use persona_exporter::text::{chars_of, same_text, starts_with, str_to_string};

fn options(time: i64) -> ToLineProtocolOptions {
    ToLineProtocolOptions {
        time,
        system: b" total_memory=1u".to_vec(),
        memory: b" used=2u".to_vec(),
        disk: b",name=sda total_space=9u".to_vec(),
        network: b",interface_name=eth0 rx=3u".to_vec(),
        cpu: b" threads=8u".to_vec(),
        components: vec![b",id=hwmon4_1 temp=84".to_vec()],
        processes: vec![b" name=\"a\"".to_vec(), b" name=\"b\"".to_vec()],
        exporter_process: Some(b" name=\"self\"".to_vec()),
    }
}

#[test]
fn line_protocol_batch_order_names_and_timestamps() {
    let out = collect_metrics_as_line_protocol(options(42));
    let expected = "metrics_system total_memory=1u 42\n\
metrics_memory used=2u 42\n\
metrics_disk,name=sda total_space=9u 42\n\
metrics_cpu threads=8u 42\n\
metrics_network,interface_name=eth0 rx=3u 42\n\
metrics_process_list name=\"a\" 42\n\
metrics_process_list name=\"b\" 42\n\
metrics_component_list,id=hwmon4_1 temp=84 42\n\
metrics_process_list name=\"self\" 42\n";
    assert_eq!(String::from_utf8(out).unwrap(), expected);
}

#[test]
fn line_protocol_batch_with_large_time() {
    let out = String::from_utf8(collect_metrics_as_line_protocol(options(1787033923350927711))).unwrap();
    assert_eq!(out.lines().count(), 9);
    assert!(out.lines().all(|l| l.ends_with(" 1787033923350927711")));
}

#[test]
fn line_protocol_batch_without_lists() {
    let mut o = options(0);
    o.components = Vec::new();
    o.processes = Vec::new();
    o.exporter_process = None;
    let out = collect_metrics_as_line_protocol(o);
    let expected = "metrics_system total_memory=1u 0\nmetrics_memory used=2u 0\n\
metrics_disk,name=sda total_space=9u 0\nmetrics_cpu threads=8u 0\n\
metrics_network,interface_name=eth0 rx=3u 0\n";
    assert_eq!(String::from_utf8(out).unwrap(), expected);
}

#[test]
fn negative_timestamps_are_signed() {
    let mut o = options(-42);
    o.components = Vec::new();
    o.processes = Vec::new();
    o.exporter_process = None;
    let out = String::from_utf8(collect_metrics_as_line_protocol(o)).unwrap();
    assert!(out.starts_with("metrics_system total_memory=1u -42\n"));
}

#[test]
fn decimal_text_of_extremes() {
    for v in [0i64, 7, 10, 1234567890, i64::MAX, i64::MIN, -1, -10] {
        let mut out = b"x".to_vec();
        push_decimal(&mut out, v);
        assert_eq!(String::from_utf8(out).unwrap(), format!("x{}", v));
    }
}

#[test]
fn measurement_names() {
    assert_eq!(measurement_name(LineSection::System), "metrics_system");
    assert_eq!(measurement_name(LineSection::Memory), "metrics_memory");
    assert_eq!(measurement_name(LineSection::Disk), "metrics_disk");
    assert_eq!(measurement_name(LineSection::Cpu), "metrics_cpu");
    assert_eq!(measurement_name(LineSection::Network), "metrics_network");
    assert_eq!(measurement_name(LineSection::Components), "metrics_component_list");
    assert_eq!(measurement_name(LineSection::Processes), "metrics_process_list");
}

#[test]
fn request_headers_in_order() {
    let extra = vec![
        HeaderConfig { header: "Authorization".to_string(), value: "Token abc".to_string() },
        HeaderConfig { header: "Content-Type".to_string(), value: "text-plain; charset=utf-8".to_string() },
    ];
    let h = build_request_headers("localhost", &extra);
    assert_eq!(
        h,
        vec![
            ("host".to_string(), "localhost".to_string()),
            ("connection".to_string(), "close".to_string()),
            ("Authorization".to_string(), "Token abc".to_string()),
            ("Content-Type".to_string(), "text-plain; charset=utf-8".to_string()),
        ]
    );
    assert_eq!(build_request_headers("h", &Vec::new()).len(), 2);
}

#[test]
fn host_of_target_url() {
    assert_eq!(get_host("http://localhost:8086/api/v2/write"), "localhost");
    assert_eq!(get_host("https://example.com"), "example.com");
    assert_eq!(get_host("https://Example.COM/x"), "example.com");
}

#[test]
fn host_of_bad_url() {
    assert_eq!(get_host("not a url"), "incorrect_url");
    assert_eq!(get_host(""), "incorrect_url");
}

#[test]
fn host_of_url_without_host() {
    assert_eq!(get_host("mailto:someone@example.com"), "localhost");
}

#[test]
fn host_from_each_parse_outcome() {
    assert_eq!(host_from_parsed(None), "incorrect_url");
    assert_eq!(host_from_parsed(Some(None)), "localhost");
    assert_eq!(host_from_parsed(Some(Some("db".to_string()))), "db");
}

#[test]
fn loaded_config_is_used() {
    let mut c = AgentConfigFile::default();
    c.agent.send_metrics_interval = 30;
    let cfg = load_config(Ok(c));
    assert_eq!(cfg.agent.send_metrics_interval, 30);
}

#[test]
fn tracing_filters() {
    assert_eq!(tracing_filter(true), "debug");
    assert_eq!(tracing_filter(false), "info");
}

#[test]
fn default_plan_collects_everything_as_json() {
    let p = plan_collection(&AgentConfigFile::default());
    assert!(p.refresh_system && p.collect_memory && p.collect_cpu && p.collect_system);
    assert!(p.collect_disks && p.collect_networks && p.collect_components);
    assert_eq!(p.disk_mount_point, "/");
    assert_eq!(p.data_type, DataType::Json);
    assert_eq!(p.send_interval_secs, 5);
}

#[test]
fn each_group_follows_its_own_switch() {
    let mut c = AgentConfigFile::default();
    c.metrics.cpu.settings.enabled = true;
    c.metrics.system.settings.enabled = false;
    c.metrics.disks.settings.enabled = false;
    c.agent.data_type = DataType::LineProtocol;
    c.agent.send_metrics_interval = 10;
    c.metrics.system.process_limit = 3;
    let p = plan_collection(&c);
    assert!(p.refresh_system);
    assert!(p.collect_memory);
    assert!(p.collect_cpu);
    assert!(!p.collect_system);
    assert!(p.collect_processes);
    assert_eq!(p.process_limit, 3);
    assert!(!p.collect_disks);
    assert_eq!(p.data_type, DataType::LineProtocol);
    assert_eq!(p.send_interval_secs, 10);
}

#[test]
fn system_readings_refreshed_only_when_needed() {
    let mut c = AgentConfigFile::default();
    c.metrics.cpu.settings.enabled = false;
    c.metrics.memory.settings.enabled = false;
    c.metrics.system.settings.enabled = false;
    c.metrics.system.collect_processes = false;
    assert!(!plan_collection(&c).refresh_system);
    c.metrics.system.settings.enabled = true;
    let p = plan_collection(&c);
    assert!(p.refresh_system && p.collect_system && !p.collect_cpu);
}

#[test]
fn timestamps_keep_their_bits() {
    assert_eq!(line_timestamp(1787033923350927711), 1787033923350927711);
    assert_eq!(line_timestamp(u64::MAX), -1);
}

#[test]
fn text_helpers() {
    assert!(starts_with("docker0", "docker"));
    assert!(!starts_with("dock", "docker"));
    assert!(starts_with("abc", ""));
    assert!(same_text("lo", "lo"));
    assert!(!same_text("lo", "lo0"));
    assert_eq!(chars_of("añb"), vec!['a', 'ñ', 'b']);
    assert_eq!(str_to_string("x"), "x");
}

#[test]
fn query_pairs_in_order() {
    let params = vec![
        ParamField { variable: "org".to_string(), value: "my-great-company".to_string() },
        ParamField { variable: "bucket".to_string(), value: "org-server-metrics".to_string() },
        ParamField { variable: "precision".to_string(), value: "ns".to_string() },
    ];
    assert_eq!(
        build_query_pairs(&params),
        vec![
            ("org".to_string(), "my-great-company".to_string()),
            ("bucket".to_string(), "org-server-metrics".to_string()),
            ("precision".to_string(), "ns".to_string()),
        ]
    );
    assert!(build_query_pairs(&Vec::new()).is_empty());
}

#[test]
fn groups_not_collected_are_written_blank() {
    let cpu = CpuInfo { cpu_usage: 7, threads: 8, physical_core_count: 4 };
    let r = line_protocol_records(RoundMetrics {
        system: None,
        memory: None,
        disk: Some(DiskInfo {
            name: "sda".to_string(),
            file_system: "ext4".to_string(),
            kind: "SSD".to_string(),
            total_space: 10,
            available_space: 5,
        }),
        network: None,
        cpu: Some(cpu.clone()),
        components: None,
        processes: None,
    });
    assert_eq!(r.cpu, cpu);
    assert_eq!(r.disk.name, "sda");
    assert_eq!(r.system.total_memory, 0);
    assert_eq!(r.memory.total_memory, 0);
    assert_eq!(r.network.interface_name, "");
    assert_eq!(r.components.count, 0);
    assert!(r.components.components.is_empty());
    assert!(r.processes.exporter_metrics.is_none());
    assert!(r.processes.process_list.is_empty());
}
