[package]
name = "ptyctl"
version = "0.1.0"
edition = "2021"
publish = false

[dependencies]
async-trait = "*"
axum = "*"
base64 = "*"
clap = { version = "*", features = ["derive"] }
libc = "*"
portable-pty = "*"
regex = "*"
rmcp = { version = "*", features = ["server", "transport-io", "transport-streamable-http-server"] }
schemars = "*"
serde = { version = "*", features = ["derive"] }
serde_json = "*"
tempfile = "*"
thiserror = "*"
tokio = { version = "*", features = ["full"] }
toml = "*"
tracing = "*"
tracing-subscriber = { version = "*", features = ["env-filter"] }
uuid = { version = "*", features = ["v4"] }
