[package]
name = "tgdigest"
version = "0.5.0"
edition = "2021"
publish = false

[dependencies]
partial_sort = "=1.0.0"
chrono = "*"
clap = { version = "*", features = ["derive"] }
serde = { version = "*", features = ["derive"] }
serde_json = "*"
log = "*"
simple_logger = "*"
once_cell = "*"
path-slash = "*"
tera = { version = "=1.20.1", default-features = false }
tokio = { version = "*", features = ["rt-multi-thread", "macros", "fs", "time"] }
rocket = "*"
futures-util = "*"
grammers-client = "=0.7.0"
grammers-session = "=0.7.0"
uuid = { version = "*", features = ["v4"] }
