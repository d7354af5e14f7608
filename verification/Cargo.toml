[package]
name = "fff-server"
version = "0.1.0"
edition = "2021"
publish = false

[dependencies]
axum = "0.8"
clap = { version = "4", features = ["derive", "env"] }
dunce = "1"
fff-query-parser = "=0.11.0"
fff-search = { version = "=0.11.0", features = ["definitions"] }
figment = { version = "0.10", features = ["toml", "env"] }
file-id = "=0.2.3"
git2 = { version = "=0.21.0", default-features = false }
parking_lot = "0.12"
serde = { version = "1", features = ["derive"] }
serde_json = "1"
thiserror = "2"
time = { version = "=0.3.55", features = ["serde", "formatting", "parsing"] }
tokio = { version = "1", features = ["full"] }
tower-http = { version = "0.6", features = ["trace"] }
tracing = "0.1"
tracing-subscriber = { version = "0.3", features = ["env-filter", "json"] }
utoipa = { version = "5", features = ["axum_extras", "time"] }
utoipa-axum = "0.2"
