[package]
name = "prior_web"
version = "0.1.0"
edition = "2021"
publish = false

[dependencies]
urlencoding = "=2.1.3"
rand = "=0.8.8"
time = "=0.3.55"
serde = { version = "=1.0.229", features = ["derive"] }
serde_json = "=1.0.154"
axum = { version = "=0.8.9", features = ["ws"] }
axum-extra = { version = "=0.10.3", features = ["cookie-private", "cookie-key-expansion"] }
tokio = { version = "=1.54.1", features = ["full"] }
tokio-tungstenite = "=0.26.2"
futures-util = { version = "=0.3.34", features = ["sink"] }
prost = "=0.13.5"
prost-types = "=0.13.5"
reqwest = { version = "=0.12.28", default-features = false, features = ["json"] }
tracing = "=0.1.44"
tracing-subscriber = "=0.3.23"
tower-http = { version = "=0.6.11", features = ["fs"] }
pulldown-cmark = { version = "=0.12.2", default-features = false, features = ["html"] }
html-escape = "=0.2.15"
