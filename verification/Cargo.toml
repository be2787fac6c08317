[package]
name = "nxzr"
version = "0.1.0"
edition = "2021"
publish = false

[dependencies]
bytes = "=1.12.1"
macaddr = "=1.0.1"
uuid = "=1.29.0"
tokio = { version = "=1.54.1", features = ["sync", "time", "rt", "macros", "net", "process"] }
async-trait = "=0.1.92"
thiserror = "=1.0.69"
strum = { version = "=0.25.0", features = ["derive"] }
tracing = "=0.1.44"
libc = "*"
sudo = "*"
systemctl = "*"
