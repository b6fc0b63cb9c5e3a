use persona_exporter::config::config as first_layout;
use persona_exporter::configs::config_structs;
use persona_exporter::configs::configs::{
    apply_documented_keys, config_file_path, AgentConfigFile, DataType, DocumentedKeys,
    HeaderConfig, ListType, ParamField, SendModel,
};

#[test]
fn exporter_config_path_defaults_to_etc() {
    assert_eq!(config_file_path(None), "/etc/persona-exporter/config.toml");
}

#[test]
fn exporter_config_dir_from_the_variable() {
    let p = config_file_path(Some("~/.config/persona-exporter/".to_string()));
    assert_eq!(p, "~/.config/persona-exporter/config.toml");
    assert_eq!(config_file_path(Some("/opt/pe".to_string())), "/opt/pe/config.toml");
    assert_eq!(config_file_path(Some(String::new())), "config.toml");
}

#[test]
fn agent_config_path_defaults_to_etc() {
    assert_eq!(first_layout::config_file_path(None), "/etc/persona-rs-agent/config.toml");
    assert_eq!(first_layout::config_file_path(Some("x.toml".to_string())), "x.toml");
}

#[test]
fn enum_defaults() {
    assert_eq!(SendModel::default(), SendModel::Pull);
    assert_eq!(DataType::default(), DataType::Json);
    assert_eq!(ListType::default(), ListType::IgnoreList);
}

#[test]
fn exporter_default_configuration() {
    let c = AgentConfigFile::default();
    assert_eq!(c.agent.send_metrics_interval, 5);
    assert_eq!(c.agent.send_model, SendModel::Pull);
    assert_eq!(c.agent.data_type, DataType::Json);
    assert_eq!(c.server.url, "https://example.com");
    assert_eq!(c.server.bearer_token, "");
    assert!(c.server.enable_server_key);
    assert!(c.server.additional_get_params.is_empty());
    assert!(c.server.additional_headers.is_empty());
    assert!(c.metrics.cpu.settings.enabled);
    assert_eq!(c.metrics.cpu.settings.override_interval, 0);
    assert!(c.metrics.disks.settings.enabled);
    assert_eq!(c.metrics.disks.ignore_fs_types, vec!["tmpfs".to_string()]);
    assert_eq!(c.metrics.disks.ignore_mount_points, vec!["/mnt/backup_test".to_string()]);
    assert!(c.metrics.network.settings.enabled);
    assert_eq!(c.metrics.network.list_type, ListType::IgnoreList);
    assert_eq!(c.metrics.network.interfaces, vec!["lo".to_string(), "docker0".to_string()]);
    assert!(c.metrics.system.settings.enabled);
    assert!(c.metrics.system.collect_processes);
    assert_eq!(c.metrics.system.process_limit, 5);
    assert!(c.metrics.components.settings.enabled);
    assert!(c.metrics.memory.settings.enabled);
}

#[test]
fn switch_layout_default_configuration() {
    let c = config_structs::AgentConfigFile::default();
    assert_eq!(c.agent.send_metrics_interval, 5);
    assert_eq!(c.server.server_url, "https://example.com");
    assert_eq!(c.server.server_key, "put-your-token");
    assert!(c.server.enable_server_key);
    assert!(c.metrics.cpu.enabled);
    assert!(c.metrics.disks.enabled);
    assert!(c.metrics.network.enabled);
    assert!(c.metrics.system.enabled);
    assert!(c.metrics.components.enabled);
    assert!(c.metrics.memory.enabled);
}

#[test]
fn first_layout_holds_agent_and_server() {
    let c = first_layout::AgentConfigFile {
        agent: first_layout::AgentSection { send_metrics_interval: 10 },
        server: first_layout::ServerSection {
            server_url: "http://localhost:8086".to_string(),
            server_key: "k".to_string(),
        },
    };
    assert_eq!(c.agent.send_metrics_interval, 10);
    assert_eq!(c.server.server_url, "http://localhost:8086");
}

fn no_documented_keys() -> DocumentedKeys {
    DocumentedKeys {
        send_interval: None,
        http_headers: None,
        get_params: None,
        cpu_enable: None,
        disks_enable: None,
        network_enable: None,
        system_enable: None,
        components_enable: None,
        memory_enable: None,
        processes_enable: None,
        process_limit: None,
    }
}

#[test]
fn documented_keys_set_what_they_name() {
    let mut k = no_documented_keys();
    k.send_interval = Some(10);
    k.http_headers = Some(vec![HeaderConfig { header: "Authorization".to_string(), value: "Token x".to_string() }]);
    k.get_params = Some(vec![ParamField { variable: "org".to_string(), value: "o".to_string() }]);
    k.cpu_enable = Some(false);
    k.processes_enable = Some(false);
    k.process_limit = Some(7);
    let c = apply_documented_keys(AgentConfigFile::default(), k);
    assert_eq!(c.agent.send_metrics_interval, 10);
    assert_eq!(c.server.additional_headers.len(), 1);
    assert_eq!(c.server.additional_headers[0].header, "Authorization");
    assert_eq!(c.server.additional_get_params[0].variable, "org");
    assert!(!c.metrics.cpu.settings.enabled);
    assert!(c.metrics.memory.settings.enabled);
    assert!(!c.metrics.system.collect_processes);
    assert_eq!(c.metrics.system.process_limit, 7);
    assert_eq!(c.server.url, "https://example.com");
}

#[test]
fn no_documented_keys_changes_nothing() {
    let c = apply_documented_keys(AgentConfigFile::default(), no_documented_keys());
    assert_eq!(c.agent.send_metrics_interval, 5);
    assert_eq!(c.metrics.network.interfaces, vec!["lo".to_string(), "docker0".to_string()]);
    assert!(c.metrics.cpu.settings.enabled);
    assert!(c.metrics.system.collect_processes);
}
