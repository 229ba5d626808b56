[package]
name = "builders"
version = "0.1.0"
edition = "2021"
publish = false

[dependencies]
regex = "1"
anyhow = "1"
async-trait = "0.1"
tokio = { version = "1", features = ["macros", "rt-multi-thread"] }
tracing = "0.1"
tracing-subscriber = "0.3"
twilight-model = "0.16"
twilight-gateway = "0.16"
twilight-http = "0.16"
twilight-cache-inmemory = "0.16"
twilight-util = { version = "0.16", features = ["builder"] }
