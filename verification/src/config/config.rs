//! Configuration of the agent: how often to send, and where.
use vstd::prelude::*;
use crate::text::str_to_string;

verus! {

/// Environment variable that overrides where the configuration file lives.
pub const CONFIG_PATH_VARIABLE: &'static str = "PERSONA_CONFIG_PATH";

/// Prefix of the environment variables that override single settings.
pub const ENVIRONMENT_PREFIX: &'static str = "PERSONA_AGENT";

#[derive(Debug)]
pub struct AgentConfigFile {
    pub agent: AgentSection,
    pub server: ServerSection,
}

#[derive(Debug)]
pub struct MetricsConfig {
    pub cpu: CpuConfig,
    pub disks: DisksConfig,
    pub network: NetworkConfig,
    pub system: SystemConfig,
}

#[derive(Debug)]
pub struct CpuConfig {}

#[derive(Debug)]
pub struct DisksConfig {}

#[derive(Debug)]
pub struct NetworkConfig {}

#[derive(Debug)]
pub struct SystemConfig {}

#[derive(Debug)]
pub struct AgentSection {
    pub send_metrics_interval: u64,
}

#[derive(Debug)]
pub struct ServerSection {
    pub server_url: String,
    pub server_key: String,
}

/// Where the configuration file is read from: the value of
/// `PERSONA_CONFIG_PATH` when it is set, else `/etc/persona-rs-agent/config.toml`.
pub fn config_file_path(variable: Option<String>) -> (path: String)
    ensures
        path@ == match variable {
            Some(v) => v@,
            None => "/etc/persona-rs-agent/config.toml"@,
        },
{
    match variable {
        Some(v) => v,
        None => str_to_string("/etc/persona-rs-agent/config.toml"),
    }
}

}
