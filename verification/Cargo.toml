[package]
name = "yarbot"
version = "0.1.0"
edition = "2021"
publish = false

[dependencies]
serenity = "0.11"
tokio = { version = "1", features = ["macros", "rt-multi-thread"] }
diesel = { version = "2", features = ["sqlite", "r2d2"] }
reqwest = { version = "0.11", features = ["json", "cookies", "gzip"] }
serde_json = "1"
log = "0.4"
fern = { version = "0.6", features = ["colored"] }
chrono = "0.4"
dotenv = "0.15"
