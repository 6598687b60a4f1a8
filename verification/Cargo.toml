[package]
name = "proxy"
version = "0.1.0"
edition = "2021"
publish = false

[dependencies]
anyhow = "1"
aya = "0.11"
aya-ebpf = "0.1"
aya-log = "0.1"
clap = { version = "3", features = ["derive"] }
log = "0.4"
simplelog = "0.12"
thiserror = "1"
tokio = { version = "1", features = ["macros", "rt", "rt-multi-thread", "net", "signal"] }
