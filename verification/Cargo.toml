[package]
name = "minecraft_bot"
version = "0.1.0"
edition = "2021"
publish = false

[dependencies]
base64 = "0.22"
rand = "0.10"
poise = "0.6"
tokio = { version = "1", features = ["macros", "rt-multi-thread", "net", "sync"] }
sea-orm = { version = "1", default-features = false, features = ["sqlx-postgres", "runtime-tokio-rustls", "macros", "with-uuid"] }
sea-orm-migration = { version = "1", default-features = false, features = ["sqlx-postgres", "runtime-tokio-rustls"] }
rcon = { version = "0.6", features = ["rt-tokio"] }
figment = { version = "0.10", features = ["yaml", "env"] }
serde = { version = "1", features = ["derive"] }
uuid = { version = "1", features = ["v4"] }
wincode = "*"
tracing = "0.1"
async-trait = "0.1"
