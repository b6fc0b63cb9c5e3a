[package]
name = "persona_exporter"
version = "0.1.0"
edition = "2021"
publish = false

[dependencies]
url = "2"
http = "1"
influxdb-line-protocol = "*"
sysinfo = "*"
surf = { version = "2", default-features = false, features = ["h1-client"] }
smol = "2"
serde = { version = "1", features = ["derive"] }
serde_json = "1"
config = { version = "*", default-features = false, features = ["toml"] }
tracing = "0.1"
tracing-subscriber = { version = "0.3", features = ["env-filter"] }
tokio = { version = "1", features = ["macros", "rt-multi-thread"] }
