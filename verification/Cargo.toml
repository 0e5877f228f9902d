[package]
name = "seiran-common"
version = "0.1.0"
edition = "2021"
publish = false

[dependencies]
ammonia = "4"
chrono = "0.4"
hex = "0.4"
html-escape = "0.2"
regex = "1"
reqwest = { version = "0.12", default-features = false, features = ["json"] }
serde_json = "1"
sha2 = "0.10"
sqlx = { version = "0.8", default-features = false, features = ["postgres", "runtime-tokio", "chrono", "json"] }
tokio = { version = "1", features = ["time"] }
tracing = "0.1"
url = "2"
urlencoding = "2"
uuid = { version = "1", features = ["v4"] }
