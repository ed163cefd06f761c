[package]
name = "templog_chart"
version = "0.1.0"
edition = "2021"
publish = false

[dependencies]
chrono = { version = "=0.4.45", features = ["serde"] }
log = "*"
reqwest = { version = "*", features = ["json", "query"] }
serde = { version = "*", features = ["derive"] }
wasm-logger = "*"
yew = { version = "=0.21.0", features = ["csr"] }
yew-chart = "=0.6.0"
