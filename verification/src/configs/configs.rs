//! Configuration of the exporter: how and where metrics are sent, and which
//! metric groups are collected.
use vstd::prelude::*;
use crate::text::{chars_of, concat, str_to_string};

verus! {

broadcast use vstd::string::group_string_axioms;

/// Environment variable that names the directory holding `config.toml`.
pub const CONFIG_DIR_VARIABLE: &'static str = "PERSONA_EXPORTER_CONFIG_DIR";

/// Prefix of the environment variables that override single settings
/// (`PERSONA_EXPORTER__AGENT__SEND_METRICS_INTERVAL=10`, say).
pub const ENVIRONMENT_PREFIX: &'static str = "PERSONA_EXPORTER";

/// Separator between the levels of a setting's name in those variables.
pub const ENVIRONMENT_SEPARATOR: &'static str = "__";

#[derive(Debug)]
pub struct AgentConfigFile {
    pub agent: AgentSection,
    pub server: ServerSection,
    pub metrics: MetricsConfig,
}

#[derive(Debug, Default)]
pub struct MetricsConfig {
    pub cpu: CpuConfig,
    pub disks: DisksConfig,
    pub network: NetworkConfig,
    pub system: SystemConfig,
    pub components: ComponentsConfig,
    pub memory: MemoryConfig,
}

#[derive(Debug, Default)]
pub struct MemoryConfig {
    pub settings: CommonMetricSetting,
}

#[derive(Debug, Default)]
pub struct ComponentsConfig {
    pub settings: CommonMetricSetting,
}

#[derive(Debug, Default)]
pub struct CpuConfig {
    pub settings: CommonMetricSetting,
}

#[derive(Debug, Default)]
pub struct DisksConfig {
    pub settings: CommonMetricSetting,
    pub ignore_fs_types: Vec<String>,
    pub ignore_mount_points: Vec<String>,
}

#[derive(Debug, Default)]
pub struct NetworkConfig {
    pub settings: CommonMetricSetting,
    pub list_type: ListType,
    pub interfaces: Vec<String>,
}

#[derive(Debug, Default)]
pub struct SystemConfig {
    pub settings: CommonMetricSetting,
    pub collect_processes: bool,
    pub process_limit: u32,
}

#[derive(Debug, Default)]
pub struct AgentSection {
    pub send_metrics_interval: u64,
    pub send_model: SendModel,
    pub data_type: DataType,
}

#[derive(Debug, Default)]
pub struct ServerSection {
    pub url: String,
    pub bearer_token: String,
    pub enable_server_key: bool,
    pub additional_get_params: Vec<ParamField>,
    pub additional_headers: Vec<HeaderConfig>,
}

/// An extra HTTP header sent with every request.
#[derive(Debug, Default, Clone)]
pub struct HeaderConfig {
    pub header: String,
    pub value: String,
}

/// An extra query parameter added to the target URL.
#[derive(Debug, Default, Clone)]
pub struct ParamField {
    pub variable: String,
    pub value: String,
}

/// Settings that every metric group has.
#[derive(Debug, Default)]
pub struct CommonMetricSetting {
    pub enabled: bool,
    pub override_interval: u32,
}

/// Whether the exporter is scraped (`pull`) or sends on its own (`push`).
#[derive(Debug, Clone, Copy, PartialEq, Eq, Structural)]
pub enum SendModel {
    Pull,
    Push,
}

/// The body format of a request: JSON or InfluxDB line protocol.
#[derive(Debug, Clone, Copy, PartialEq, Eq, Structural)]
pub enum DataType {
    Json,
    LineProtocol,
}

/// Whether the listed network interfaces are the only ones watched
/// (`white_list`) or the ones left out (`ignore_list`).
#[derive(Debug, Clone, Copy, PartialEq, Eq, Structural)]
pub enum ListType {
    WhiteList,
    IgnoreList,
}

impl Default for SendModel {
    fn default() -> (r: Self)
        ensures
            r == SendModel::Pull,
    {
        SendModel::Pull
    }
}

impl Default for DataType {
    fn default() -> (r: Self)
        ensures
            r == DataType::Json,
    {
        DataType::Json
    }
}

impl Default for ListType {
    fn default() -> (r: Self)
        ensures
            r == ListType::IgnoreList,
    {
        ListType::IgnoreList
    }
}

/// The metric switch `s` is on, with no interval of its own.
pub open spec fn is_enabled_setting(s: CommonMetricSetting) -> bool {
    s.enabled && s.override_interval == 0
}

fn enabled_setting() -> (s: CommonMetricSetting)
    ensures
        is_enabled_setting(s),
{
    CommonMetricSetting { enabled: true, override_interval: 0 }
}

/// The views of a list of strings.
pub open spec fn texts(v: Seq<String>) -> Seq<Seq<char>> {
    v.map_values(|s: String| s@)
}

/// The built-in configuration: JSON every five seconds to
/// `https://example.com` with an empty token that is switched on and no extra
/// parameters or headers; every metric group on; `tmpfs` file systems and
/// `/mnt/backup_test` ignored; `lo` and `docker0` on the interface ignore
/// list; processes collected, five of them.
pub open spec fn is_default_agent_config(r: AgentConfigFile) -> bool {
    &&& r.agent.send_metrics_interval == 5
    &&& r.agent.send_model == SendModel::Pull
    &&& r.agent.data_type == DataType::Json
    &&& r.server.url@ == "https://example.com"@
    &&& r.server.bearer_token@ == Seq::<char>::empty()
    &&& r.server.enable_server_key
    &&& r.server.additional_get_params@.len() == 0
    &&& r.server.additional_headers@.len() == 0
    &&& is_enabled_setting(r.metrics.cpu.settings)
    &&& is_enabled_setting(r.metrics.disks.settings)
    &&& texts(r.metrics.disks.ignore_fs_types@) == seq!["tmpfs"@]
    &&& texts(r.metrics.disks.ignore_mount_points@) == seq!["/mnt/backup_test"@]
    &&& is_enabled_setting(r.metrics.network.settings)
    &&& r.metrics.network.list_type == ListType::IgnoreList
    &&& texts(r.metrics.network.interfaces@) == seq!["lo"@, "docker0"@]
    &&& is_enabled_setting(r.metrics.system.settings)
    &&& r.metrics.system.collect_processes
    &&& r.metrics.system.process_limit == 5
    &&& is_enabled_setting(r.metrics.components.settings)
    &&& is_enabled_setting(r.metrics.memory.settings)
}

impl Default for AgentConfigFile {
    /// The built-in configuration (see `is_default_agent_config`).
    fn default() -> (r: Self)
        ensures
            is_default_agent_config(r),
    {
        let mut ignore_fs_types: Vec<String> = Vec::new();
        ignore_fs_types.push(str_to_string("tmpfs"));
        let mut ignore_mount_points: Vec<String> = Vec::new();
        ignore_mount_points.push(str_to_string("/mnt/backup_test"));
        let mut interfaces: Vec<String> = Vec::new();
        interfaces.push(str_to_string("lo"));
        interfaces.push(str_to_string("docker0"));
        assert(texts(ignore_fs_types@) =~= seq!["tmpfs"@]);
        assert(texts(ignore_mount_points@) =~= seq!["/mnt/backup_test"@]);
        assert(texts(interfaces@) =~= seq!["lo"@, "docker0"@]);
        AgentConfigFile {
            agent: AgentSection {
                send_metrics_interval: 5,
                send_model: SendModel::default(),
                data_type: DataType::default(),
            },
            server: ServerSection {
                url: str_to_string("https://example.com"),
                bearer_token: String::new(),
                enable_server_key: true,
                additional_get_params: Vec::new(),
                additional_headers: Vec::new(),
            },
            metrics: MetricsConfig {
                cpu: CpuConfig { settings: enabled_setting() },
                disks: DisksConfig {
                    settings: enabled_setting(),
                    ignore_fs_types,
                    ignore_mount_points,
                },
                network: NetworkConfig {
                    settings: enabled_setting(),
                    list_type: ListType::default(),
                    interfaces,
                },
                system: SystemConfig {
                    settings: enabled_setting(),
                    collect_processes: true,
                    process_limit: 5,
                },
                components: ComponentsConfig { settings: enabled_setting() },
                memory: MemoryConfig { settings: enabled_setting() },
            },
        }
    }
}

/// The file `config.toml` inside the directory `dir`: a `/` is put between
/// them unless `dir` is empty or already ends with one.
pub open spec fn config_file_in(dir: Seq<char>) -> Seq<char> {
    if dir.len() == 0 {
        "config.toml"@
    } else if dir.last() == '/' {
        dir + "config.toml"@
    } else {
        dir + "/config.toml"@
    }
}

/// Where the configuration file is read from: `config.toml` in the directory
/// named by `PERSONA_EXPORTER_CONFIG_DIR` when it is set, else
/// `/etc/persona-exporter/config.toml`.
pub fn config_file_path(dir: Option<String>) -> (path: String)
    ensures
        path@ == match dir {
            Some(d) => config_file_in(d@),
            None => "/etc/persona-exporter/config.toml"@,
        },
{
    match dir {
        Some(d) => {
            let cs = chars_of(d.as_str());
            if cs.len() == 0 {
                str_to_string("config.toml")
            } else if cs[cs.len() - 1] == '/' {
                concat(d.as_str(), "config.toml")
            } else {
                concat(d.as_str(), "/config.toml")
            }
        },
        None => str_to_string("/etc/persona-exporter/config.toml"),
    }
}

}
verus! {

/// Settings under the key names that the documented sample configuration
/// uses: `agent.send_interval`, `server.http_headers` and `server.get_params`
/// (with `key`/`value` entries), `metrics.<group>.enable`, and
/// `metrics.processes.enable`/`process_limit`. A key that is absent is `None`.
pub struct DocumentedKeys {
    pub send_interval: Option<u64>,
    pub http_headers: Option<Vec<HeaderConfig>>,
    pub get_params: Option<Vec<ParamField>>,
    pub cpu_enable: Option<bool>,
    pub disks_enable: Option<bool>,
    pub network_enable: Option<bool>,
    pub system_enable: Option<bool>,
    pub components_enable: Option<bool>,
    pub memory_enable: Option<bool>,
    pub processes_enable: Option<bool>,
    pub process_limit: Option<u32>,
}

/// The documented value when it is given, else the configured one.
pub open spec fn given_or<T>(documented: Option<T>, configured: T) -> T {
    match documented {
        Some(v) => v,
        None => configured,
    }
}

/// `s` with its switch set by `enable` when that is given.
pub open spec fn switched(s: CommonMetricSetting, enable: Option<bool>) -> CommonMetricSetting {
    CommonMetricSetting { enabled: given_or(enable, s.enabled), override_interval: s.override_interval }
}

/// `c` with every documented key that is given taking the place of the
/// setting it names; everything else as in `c`.
pub open spec fn with_documented_keys(c: AgentConfigFile, k: DocumentedKeys) -> AgentConfigFile {
    AgentConfigFile {
        agent: AgentSection {
            send_metrics_interval: given_or(k.send_interval, c.agent.send_metrics_interval),
            send_model: c.agent.send_model,
            data_type: c.agent.data_type,
        },
        server: ServerSection {
            url: c.server.url,
            bearer_token: c.server.bearer_token,
            enable_server_key: c.server.enable_server_key,
            additional_get_params: given_or(k.get_params, c.server.additional_get_params),
            additional_headers: given_or(k.http_headers, c.server.additional_headers),
        },
        metrics: MetricsConfig {
            cpu: CpuConfig { settings: switched(c.metrics.cpu.settings, k.cpu_enable) },
            disks: DisksConfig {
                settings: switched(c.metrics.disks.settings, k.disks_enable),
                ignore_fs_types: c.metrics.disks.ignore_fs_types,
                ignore_mount_points: c.metrics.disks.ignore_mount_points,
            },
            network: NetworkConfig {
                settings: switched(c.metrics.network.settings, k.network_enable),
                list_type: c.metrics.network.list_type,
                interfaces: c.metrics.network.interfaces,
            },
            system: SystemConfig {
                settings: switched(c.metrics.system.settings, k.system_enable),
                collect_processes: given_or(k.processes_enable, c.metrics.system.collect_processes),
                process_limit: given_or(k.process_limit, c.metrics.system.process_limit),
            },
            components: ComponentsConfig {
                settings: switched(c.metrics.components.settings, k.components_enable),
            },
            memory: MemoryConfig { settings: switched(c.metrics.memory.settings, k.memory_enable) },
        },
    }
}

fn switch(s: CommonMetricSetting, enable: Option<bool>) -> (r: CommonMetricSetting)
    ensures
        r == switched(s, enable),
{
    CommonMetricSetting {
        enabled: match enable { Some(e) => e, None => s.enabled },
        override_interval: s.override_interval,
    }
}

/// The configuration with the documented key names applied: each one that
/// is given sets the setting it names, the rest stays.
pub fn apply_documented_keys(config: AgentConfigFile, keys: DocumentedKeys) -> (r: AgentConfigFile)
    ensures
        r == with_documented_keys(config, keys),
{
    let AgentConfigFile { agent, server, metrics } = config;
    let DocumentedKeys {
        send_interval,
        http_headers,
        get_params,
        cpu_enable,
        disks_enable,
        network_enable,
        system_enable,
        components_enable,
        memory_enable,
        processes_enable,
        process_limit,
    } = keys;
    AgentConfigFile {
        agent: AgentSection {
            send_metrics_interval: match send_interval { Some(v) => v, None => agent.send_metrics_interval },
            send_model: agent.send_model,
            data_type: agent.data_type,
        },
        server: ServerSection {
            url: server.url,
            bearer_token: server.bearer_token,
            enable_server_key: server.enable_server_key,
            additional_get_params: match get_params { Some(v) => v, None => server.additional_get_params },
            additional_headers: match http_headers { Some(v) => v, None => server.additional_headers },
        },
        metrics: MetricsConfig {
            cpu: CpuConfig { settings: switch(metrics.cpu.settings, cpu_enable) },
            disks: DisksConfig {
                settings: switch(metrics.disks.settings, disks_enable),
                ignore_fs_types: metrics.disks.ignore_fs_types,
                ignore_mount_points: metrics.disks.ignore_mount_points,
            },
            network: NetworkConfig {
                settings: switch(metrics.network.settings, network_enable),
                list_type: metrics.network.list_type,
                interfaces: metrics.network.interfaces,
            },
            system: SystemConfig {
                settings: switch(metrics.system.settings, system_enable),
                collect_processes: match processes_enable { Some(v) => v, None => metrics.system.collect_processes },
                process_limit: match process_limit { Some(v) => v, None => metrics.system.process_limit },
            },
            components: ComponentsConfig { settings: switch(metrics.components.settings, components_enable) },
            memory: MemoryConfig { settings: switch(metrics.memory.settings, memory_enable) },
        },
    }
}

}
