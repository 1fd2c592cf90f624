[package]
name = "modbus_core"
version = "0.1.0"
edition = "2021"
publish = false

[dependencies]
anyhow = "*"
clap = { version = "*", features = ["derive"] }
tokio = { version = "*", features = ["rt-multi-thread", "macros", "net", "time", "signal"] }
tokio-modbus = { version = "*", features = ["tcp-server", "rtu-server"] }
tokio-serial = "*"
