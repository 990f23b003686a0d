[package]
name = "escl-mock-server"
version = "0.1.0"
edition = "2021"
publish = false

[dependencies]
actix-web = { version = "4", default-features = false, features = ["macros"] }
chrono = "0.4"
clap = { version = "4", features = ["derive"] }
futures = "0.3"
mdns-sd = "*"
tokio = { version = "1", features = ["fs", "sync"] }
tokio-util = { version = "0.7", features = ["io"] }
uuid = { version = "1", features = ["v4"] }
