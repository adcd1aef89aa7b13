[package]
name = "cypher_sheet"
version = "0.1.0"
edition = "2021"
publish = false

[dependencies]
uuid = { version = "1", features = ["v4"] }
heck = "0.4"
protobuf = "2"
grpcio = "0.12"
futures = "0.3"
tracing = "0.1"
tracing-subscriber = "0.3"
clap = { version = "4", features = ["derive", "env"] }
dotenv = "0.15"
tokio = { version = "1", features = ["macros", "rt-multi-thread"] }
kube = "0.82"
k8s-openapi = { version = "0.18", features = ["v1_26"] }
serenity = "0.11"
assert-json-diff = "2"
