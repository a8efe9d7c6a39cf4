[package]
name = "proto_tower"
version = "0.1.0"
edition = "2021"
publish = false

[dependencies]
http = "=1.5.0"
bytes = "=1.12.1"
kafka-protocol = "=0.14.1"
parser-helper = "=0.1.0"
tokio = { version = "=1.54.1", features = ["full"] }
tower = { version = "=0.5.3", features = ["util"] }
async-trait = "=0.1.92"

[dev-dependencies]
uuid = "1"
