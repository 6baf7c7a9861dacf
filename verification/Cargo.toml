[package]
name = "netx"
version = "0.1.0"
edition = "2021"
publish = false

[dependencies]
data-rw = { version = "=1.6.4", features = ["check_utf8"] }
chrono = "=0.4.45"
anyhow = "=1.0.104"
thiserror = "=1.0.69"
aqueue = "=1.4.2"
tokio = { version = "=1.54.1", features = ["full"] }
tcpserver = "=2.2.3"
tcpclient = "=2.1.2"
oneshot = { version = "=0.2.1", features = ["std", "async"] }
serde = { version = "=1.0.229", features = ["derive"] }
log = "=0.4.35"
async-trait = "=0.1.92"
once_cell = "=1.21.4"
bytes = "=1.12.1"
paste = "=1.0.15"
syn = { version = "=2.0.119", features = ["full"] }
quote = "=1.0.47"
proc-macro2 = "=1.0.107"
