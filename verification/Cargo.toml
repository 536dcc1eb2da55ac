[package]
name = "emaild"
version = "0.1.0"
edition = "2021"
publish = false

[dependencies]
chrono = "=0.4.45"
futures = "=0.3.34"
gmail = "=0.18.0"
mysql = { version = "=28.0.4", features = ["chrono"] }
tokio = { version = "=1.54.1", features = ["macros", "rt-multi-thread"] }
