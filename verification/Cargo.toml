[package]
name = "factorio_server"
version = "0.1.0"
edition = "2021"
publish = false

[dependencies]
async-compression = { version = "0.4", features = ["tokio", "xz"] }
async_zip = "0.0.19"
dashmap = "6"
futures = "0.3"
futures-lite = "2"
rand = "0.9"
rc-zip-tokio = "4"
rcon = { version = "0.6", features = ["rt-tokio"] }
reqwest = { version = "0.12", features = ["json", "stream"] }
scraper = "0.29"
serde = { version = "1", features = ["derive"] }
serde_json = "1"
sysinfo = "0.32"
thiserror = "2"
tokio = { version = "1", features = ["fs", "io-util", "macros", "net", "process", "rt", "rt-multi-thread", "sync", "time"] }
tokio-tar = "0.3"
tokio-util = { version = "0.7", features = ["io"] }
