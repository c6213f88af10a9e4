[package]
name = "zvuk_dl"
version = "0.1.0"
edition = "2021"
publish = false

[dependencies]
anyhow = "1"
audiotags = "0.5"
chrono = { version = "0.4", default-features = false, features = ["std"] }
clap = { version = "4", features = ["derive", "env"] }
dotenvy = "0.15"
humantime = "2"
id3 = "1"
metaflac = "0.2"
reqwest = { version = "0.12", features = ["blocking", "json", "cookies"] }
serde = { version = "1", features = ["derive"] }
serde_json = "1"
supports-color = "3"
tracing = "0.1"
tracing-subscriber = { version = "0.3", features = ["env-filter", "json"] }
