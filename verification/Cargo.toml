[package]
name = "threadsnoop"
version = "0.1.0"
edition = "2021"
publish = false

[dependencies]
anyhow = "1"
aya = { version = "0.13", features = ["async_tokio"] }
aya-ebpf = "0.1"
aya-log = "0.2"
bytes = "1"
clap = { version = "4", features = ["derive"] }
env_logger = "0.11"
libc = "0.2"
log = "0.4"
tokio = { version = "1", features = ["macros", "rt", "rt-multi-thread", "net", "signal"] }
