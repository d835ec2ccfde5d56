[package]
name = "vm_eol"
version = "0.1.0"
edition = "2021"
publish = false

[dependencies]
async-trait = "*"
azure_core = "=0.21.0"
azure_mgmt_compute = "=0.21.0"
azure_mgmt_subscription = "=0.21.0"
chrono = { version = "=0.4.45", features = ["serde"] }
clap = { version = "=4.6.7", features = ["derive"] }
futures = "=0.3.34"
paris = "=1.5.15"
reqwest = { version = "=0.12.28", features = ["json"] }
serde = { version = "=1.0.229", features = ["derive"] }
serde_json = "*"
time = "=0.3.55"
tokio = { version = "=1.53.2", features = ["full"] }
xlsxwriter = "=0.5.0"
