[package]
name = "mikupush"
version = "0.1.0"
edition = "2021"
publish = false

[dependencies]
uuid = { version = "1", features = ["v4"] }
url = "2"
mime_guess = "2"
base64 = "0.22"
regex = "1"
serde = { version = "1", features = ["derive"] }
serde_json = "1"
chrono = "0.4"
rand = "0.8"
mimetype-detector = "*"
log = "0.4"
tokio = { version = "1", features = ["rt", "rt-multi-thread", "sync", "fs", "macros", "time"] }
tokio-util = { version = "0.7", features = ["io"] }
tokio-stream = "0.1"
bytes = "1"
futures-core = "0.3"
reqwest = { version = "0.12", default-features = false, features = ["json", "stream"] }
zip = { version = "*", default-features = false }
urlencoding = "2"
