[package]
name = "whatsapp_desktop"
version = "0.1.0"
edition = "2021"
publish = false

[dependencies]
chrono = { version = "=0.4.45", features = ["serde"] }
futures = "=0.3.34"
serde = { version = "1", features = ["derive"] }
serde_json = "1"
dirs = "5"
log = "0.4"
tokio = { version = "1", features = ["rt-multi-thread", "macros", "sync", "time", "fs"] }
rusqlite = { version = "*", features = ["bundled"] }
prost = "*"
iced = { version = "0.14", default-features = false, features = ["tiny-skia", "tokio", "qr_code", "svg"] }
icondata = "*"
waproto = "*"
