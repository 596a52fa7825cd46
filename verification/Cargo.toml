[package]
name = "imserious"
version = "0.1.0"
edition = "2021"
publish = false

[dependencies]
anyhow = "1"
axum = "0.6"
axum-server = { version = "0.5", features = ["tls-rustls"] }
governor = { version = "0.6", default-features = false, features = ["std"] }
gumdrop = "0.8"
humantime = "2"
ipnet = { version = "2", features = ["serde"] }
nonzero_ext = "0.3"
read-restrict = "0.3"
serde = { version = "1", features = ["derive"] }
shell-words = "1"
strum = { version = "0.25", features = ["derive"] }
tokio = { version = "1", features = ["macros", "process", "rt", "signal", "sync", "time"] }
toml = "0.7"
tower = { version = "0.4", features = ["limit", "load-shed", "timeout", "util"] }
tower-http = { version = "0.4", features = ["auth", "trace", "validate-request"] }
tracing = "0.1"
tracing-subscriber = { version = "0.3", features = ["env-filter", "json"] }
