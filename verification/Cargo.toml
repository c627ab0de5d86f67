[package]
name = "pipitor"
version = "0.3.0"
edition = "2021"
publish = false

[dependencies]
anyhow = "=1.0.104"
atom_syndication = { version = "=0.9.1", default-features = false }
base64 = "=0.13.1"
diesel = { version = "=1.4.8", features = ["sqlite", "r2d2"] }
diesel_migrations = "=1.4.0"
dotenv = "=0.15.0"
env_logger = "=0.8.4"
fs2 = "=0.4.3"
futures = "=0.3.34"
hex = "=0.4.3"
hmac = "=0.10.1"
http = "=0.2.12"
hyper = { version = "=0.14.32", features = ["client", "http1", "server", "stream", "tcp", "runtime"] }
hyper-rustls = "=0.22.1"
listenfd = "=0.3.5"
log = "=0.4.35"
mime = "=0.3.17"
oauth1-request = "=0.6.1"
rand = "=0.8.8"
regex = "=1.13.1"
rss = { version = "2.0", default-features = false }
serde = { version = "=1.0.229", features = ["derive"] }
serde_json = "=1.0.154"
serde_urlencoded = "=0.7.1"
sha-1 = "=0.9.8"
smallvec = "=1.16.4"
structopt = "=0.3.26"
tokio = { version = "=1.54.1", features = ["full"] }
toml = "=0.5.11"
twitter-stream = { version = "0.13", default-features = false, features = ["hyper"] }
