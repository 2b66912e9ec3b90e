[package]
name = "jenkins_monitor"
version = "0.1.0"
edition = "2021"
publish = false

[dependencies]
serde_json = "*"
urlencoding = "*"
tokio = { version = "*", features = ["rt-multi-thread", "macros", "time", "sync"] }
reqwest = { version = "*", default-features = false }
curl = { version = "*", default-features = false }
colored = "*"
futures = "*"
anyhow = "*"
