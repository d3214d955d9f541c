[package]
name = "static_feeds"
version = "0.1.0"
edition = "2021"
publish = false

[dependencies]
async-std = { version = "1", features = ["attributes"] }
base64 = "0.22"
chrono = "0.4"
dotenv = "0.15"
femme = "2"
futures = "0.3"
http-types = "2"
rss = "2"
serde = { version = "1", features = ["derive"] }
serde_json = "1"
surf = { version = "2", default-features = false, features = ["h1-client-rustls"] }
tide = { version = "0.16", default-features = false, features = ["h1-server", "logger"] }
toml = "0.8"
url = "2"
