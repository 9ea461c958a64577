[package]
name = "file_search"
version = "0.1.0"
edition = "2021"
publish = false

[dependencies]
anyhow = "1"
chrono = "0.4"
everything-rs = "*"
file-id = "0.2"
fs2 = "0.4"
lazy_static = "1"
lopdf = "*"
notify = "*"
rand = "0.8"
serde = { version = "1", features = ["derive"] }
tokio = { version = "1", features = ["sync", "time", "rt", "macros"] }
xmp_toolkit = "1"
