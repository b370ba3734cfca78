[package]
name = "ermete"
version = "1.0.0"
edition = "2021"
publish = false

[dependencies]
serde = { version = "1", features = ["derive"] }
serde_json = "1"
greetd_ipc = "*"
anyhow = "1"
tracing = "0.1"
tokio = { version = "1", features = ["rt-multi-thread", "macros", "process", "time"] }
zbus = "4"
notify = "6"
clap = { version = "4", features = ["derive"] }
reqwest = { version = "*", default-features = false }
glib = "*"
gtk4 = "*"
gtk4-layer-shell = "*"
relm4 = "*"
