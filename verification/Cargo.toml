[package]
name = "socket_pktinfo"
version = "0.1.0"
edition = "2021"
publish = false

[dependencies]
libc = "=0.2.191"
socket2 = { version = "=0.6.5", features = ["all"] }
tokio = { version = "=1.54.1", features = ["net"] }
