[package]
name = "greptime_ingester"
version = "0.1.0"
edition = "2021"
publish = false

[dependencies]
libc = "=0.2.191"
greptime-proto = "=0.1.0"
tokio = { version = "=1.54.1", features = ["rt-multi-thread"] }
once_cell = "=1.21.4"
tonic = { version = "=0.14.9", features = ["tls-ring", "tls-native-roots"] }
