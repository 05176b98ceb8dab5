[package]
name = "bili_live_tool"
version = "0.1.0"
edition = "2021"
publish = false

[dependencies]
anyhow = "1"
arboard = "3"
async-compat = "0.2"
cookie_store = "0.21"
directories = "6"
image = { version = "0.25", default-features = false, features = ["png"] }
md5 = "0.7"
qrcode = "0.14"
reqwest = { version = "0.12", default-features = false, features = ["json", "cookies"] }
reqwest_cookie_store = "0.8"
reqwest-middleware = "0.4"
reqwest-tracing = "0.5"
serde = { version = "1", features = ["derive"] }
serde-aux = "4"
serde_json = "1"
serde_repr = "0.1"
serde_urlencoded = "0.7"
smol_str = { version = "0.3", features = ["serde"] }
thiserror = "2"
tokio = { version = "1", features = ["time"] }
tracing = "0.1"
tracing-subscriber = "0.3"
ureq = "3"
