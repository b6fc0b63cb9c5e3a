//! Configuration with an on/off switch per metric group.
use vstd::prelude::*;
use crate::text::str_to_string;

verus! {

broadcast use vstd::string::group_string_axioms;

#[derive(Debug)]
pub struct AgentConfigFile {
    pub agent: AgentSection,
    pub server: ServerSection,
    pub metrics: MetricsConfig,
}

#[derive(Debug, Default)]
pub struct MetricsConfig {
    pub cpu: CpuConfig,
    pub disks: DisksConfig,
    pub network: NetworkConfig,
    pub system: SystemConfig,
    pub components: ComponentsConfig,
    pub memory: MemoryConfig,
}

#[derive(Debug, Default)]
pub struct MemoryConfig {
    pub enabled: bool,
}

#[derive(Debug, Default)]
pub struct ComponentsConfig {
    pub enabled: bool,
}

#[derive(Debug, Default)]
pub struct CpuConfig {
    pub enabled: bool,
}

#[derive(Debug, Default)]
pub struct DisksConfig {
    pub enabled: bool,
}

#[derive(Debug, Default)]
pub struct NetworkConfig {
    pub enabled: bool,
}

#[derive(Debug, Default)]
pub struct SystemConfig {
    pub enabled: bool,
}

#[derive(Debug, Default)]
pub struct AgentSection {
    pub send_metrics_interval: u64,
}

#[derive(Debug, Default)]
pub struct ServerSection {
    pub server_url: String,
    pub server_key: String,
    pub enable_server_key: bool,
}

/// Every metric group of `m` is switched on.
pub open spec fn all_metrics_enabled(m: MetricsConfig) -> bool {
    &&& m.cpu.enabled
    &&& m.disks.enabled
    &&& m.network.enabled
    &&& m.system.enabled
    &&& m.components.enabled
    &&& m.memory.enabled
}

impl Default for AgentConfigFile {
    /// Send every five seconds to `https://example.com` with the placeholder
    /// token `put-your-token`, the token switched on, and every metric group on.
    fn default() -> (r: Self)
        ensures
            r.agent.send_metrics_interval == 5,
            r.server.server_url@ == "https://example.com"@,
            r.server.server_key@ == "put-your-token"@,
            r.server.enable_server_key,
            all_metrics_enabled(r.metrics),
    {
        AgentConfigFile {
            agent: AgentSection { send_metrics_interval: 5 },
            server: ServerSection {
                server_url: str_to_string("https://example.com"),
                server_key: str_to_string("put-your-token"),
                enable_server_key: true,
            },
            metrics: MetricsConfig {
                cpu: CpuConfig { enabled: true },
                disks: DisksConfig { enabled: true },
                network: NetworkConfig { enabled: true },
                system: SystemConfig { enabled: true },
                components: ComponentsConfig { enabled: true },
                memory: MemoryConfig { enabled: true },
            },
        }
    }
}

}
