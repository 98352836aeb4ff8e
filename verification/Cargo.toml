[package]
name = "port_switch"
version = "0.1.0"
edition = "2021"
publish = false

[dependencies]
tokio = { version = "1", features = ["rt-multi-thread", "net", "sync", "io-util", "macros", "time"] }
hyper = { version = "1", features = ["http1", "client", "server"] }
hyper-util = { version = "0.1", features = ["tokio", "server", "server-graceful", "http1"] }
http-body-util = { version = "0.1" }
serde = { version = "1", features = ["derive"] }
eframe = { version = "0.28", default-features = false, features = ["glow", "persistence", "default_fonts"] }
egui = { version = "0.28", default-features = false }
