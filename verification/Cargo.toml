[package]
name = "missioncontrol"
version = "0.1.0"
edition = "2021"
publish = false

[dependencies]
rusty_ulid = "=2.0.1"
serenity = { version = "=0.11.7", features = ["collector"] }
tokio = { version = "1", features = ["macros", "rt-multi-thread"] }
log = "0.4"
fern = { version = "=0.6.2", features = ["colored"] }
chrono = "0.4"
dotenv = "=0.15.0"
