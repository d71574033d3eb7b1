[package]
name = "arsa-backend"
version = "0.1.0"
edition = "2021"
publish = false

[dependencies]
anyhow = "1"
axum = { version = "0.8", features = ["ws", "macros"] }
axum-cookie = "*"
axum-extra = { version = "0.10", features = ["typed-header"] }
axum-macros = "0.5"
bollard = "0.19"
chrono = { version = "0.4", features = ["serde"] }
fs_extra = "1"
futures = "0.3"
local-ip-address = "0.6"
openidconnect = { version = "4", default-features = false, features = ["reqwest"] }
regex = "1"
reqwest = { version = "0.12", default-features = false, features = ["json"] }
sea-orm = { version = "2", default-features = false, features = ["macros", "with-chrono", "with-uuid", "with-json"] }
serde = { version = "1", features = ["derive"] }
serde_json = "1"
tokio = { version = "1", features = ["full"] }
tokio-util = "0.7"
tower-http = { version = "0.6", features = ["cors"] }
utoipa = { version = "5", features = ["axum_extras", "uuid", "chrono"] }
utoipa-axum = "0.2"
uuid = { version = "1", features = ["v4", "serde"] }
