[package]
name = "psu"
version = "0.1.0"
edition = "2021"
publish = false

[dependencies]
tokio-modbus = { version = "0.5", default-features = false, features = ["rtu"] }
tokio-serial = { version = "5.4", default-features = false }
tokio = { version = "1", features = ["rt", "macros"] }
futures = "0.3"
flagset = "0.4"
clap = { version = "3.0", features = ["derive", "cargo"] }
snafu = "0.7"
tracing = "0.1"
tracing-subscriber = "0.3"
color-backtrace = "0.5"
