[package]
name = "inband-traceroute"
version = "0.1.0"
edition = "2021"
publish = false

[dependencies]
anyhow = "1"
async-stream = "0.3"
axum = "0.8"
axum-server = "0.7"
aya = "0.13.1"
aya-ebpf = "0.1.1"
aya-log = "0.2.1"
aya-log-ebpf = "0.1.0"
bytes = "1"
clap = { version = "4", features = ["derive"] }
etherparse = "=0.21.0"
futures = "0.3"
hickory-client = "0.25"
http = "1"
hyper = "1"
libc = "0.2"
log = "0.4"
maxminddb = "0.26"
network-types = "0.0.8"
nix = { version = "0.29", features = ["time"] }
rand = "=0.8.8"
rustls-acme = { version = "0.13", features = ["axum"] }
serde = { version = "1", features = ["derive"] }
socket2 = { version = "0.5", features = ["all"] }
tokio = { version = "1", features = ["full"] }
tokio-stream = "0.1"
tower-http = { version = "0.6", features = ["cors", "trace"] }
tracing = "0.1"
tracing-subscriber = { version = "0.3", features = ["env-filter"] }
