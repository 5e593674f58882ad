[package]
name = "pitwall"
version = "0.1.0"
edition = "2021"
publish = false

[dependencies]
sha2 = "=0.10.9"
uuid = { version = "=1.29.1", features = ["v4"] }
serde = { version = "=1.0.229", features = ["derive"] }
serde_json = "=1.0.154"
thiserror = "=1.0.69"
chrono = "=0.4.45"
tracing = "=0.1.44"
tokio = { version = "=1.54.1", features = ["rt", "time", "macros"] }
crossbeam = "=0.8.5"
rand = "=0.8.8"
sysinfo = "=0.33.1"
arrow = { version = "=60.1.0", default-features = false }
parquet = { version = "=60.1.0", default-features = false, features = ["arrow", "snap"] }
sqlx = { version = "=0.8.6", default-features = false, features = ["sqlite", "runtime-tokio", "migrate", "macros"] }
windows = { version = "=0.57.0", features = ["Win32_Foundation", "Win32_System_Memory"] }
