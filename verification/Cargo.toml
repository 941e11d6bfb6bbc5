[package]
name = "dpdk_net"
version = "0.1.0"
edition = "2021"
publish = false

[dependencies]
nix = { version = "=0.29.0", default-features = false, features = ["feature", "net"] }
arrayvec = "=0.7.8"
arc-swap = "=1.9.3"
smoltcp = { version = "=0.12.0", default-features = false, features = ["std", "medium-ethernet", "proto-ipv4", "socket-tcp", "socket-udp", "async"] }
tracing = "=0.1.44"
tokio = { version = "=1.54.1", features = ["rt", "sync", "macros"] }
