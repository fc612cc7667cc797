[package]
name = "maviola"
version = "0.1.0"
edition = "2021"
publish = false

[dependencies]
mavio = { version = "=0.4.4", default-features = false }
tokio = { version = "1", features = ["sync", "io-util", "rt", "time", "macros"] }
serde = { version = "1", features = ["derive"] }
thiserror = "1"
log = "0.4"
specta = "1"
