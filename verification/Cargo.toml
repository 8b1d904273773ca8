[package]
name = "server"
version = "0.1.0"
edition = "2021"
publish = false

[dependencies]
anyhow = "=1.0.104"
async-stream = "=0.3.6"
async-trait = "=0.1.92"
axum = { version = "=0.6.20", features = ["multipart"] }
chrono = "=0.4.45"
fs_extra = "=1.3.0"
http = "=0.2.12"
http-range = "=0.1.6"
httpz = { version = "=0.0.6", features = ["axum"] }
include_dir = "=0.7.4"
jsonwebtoken = "=8.3.0"
mime_guess = "=2.0.5"
mini-moka = "=0.10.3"
once_cell = "=1.21.4"
reqwest = { version = "=0.11.27", default-features = false, features = ["json"] }
rspc = { version = "=0.1.4", features = ["axum", "internal_axum_07"] }
serde = { version = "=1.0.229", features = ["derive"] }
serde_json = { version = "=1.0.154", features = ["preserve_order"] }
specta = "=1.0.5"
thiserror = "=1.0.69"
tokio = { version = "=1.54.1", features = ["full"] }
tower-http = { version = "=0.4.4", features = ["cors"] }
tracing = "=0.1.44"
tracing-appender = "=0.2.5"
tracing-subscriber = { version = "=0.3.23", features = ["env-filter"] }
uuid = { version = "=1.29.0", features = ["v4", "serde"] }
