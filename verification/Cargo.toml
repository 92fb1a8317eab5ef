[package]
name = "hex_dungeon"
version = "0.1.0"
edition = "2021"
publish = false

[dependencies]
rand = "=0.9.5"
wyrand = "=0.3.2"
bevy = { version = "=0.16.1", default-features = false, features = ["std", "async_executor", "bevy_state", "bevy_log"] }
bevy_ecs_tilemap = "=0.16.0"
getrandom = "=0.3.4"
serde = { version = "=1.0.229", features = ["derive"] }
ron = "=0.12.2"
rusqlite = { version = "*", features = ["bundled", "backup", "chrono"] }
chrono = "0.4"
thiserror = "2"
const_format = "0.2"
