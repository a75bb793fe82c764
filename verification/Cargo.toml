[package]
name = "turbolift"
version = "0.1.0"
edition = "2021"
publish = false

[dependencies]
tar = "=0.4.46"
uuid = { version = "=1.29.0", features = ["v4"] }
url = "=2.5.8"
serde_json = "=1.0.154"
anyhow = "=1.0.104"
async-trait = "=0.1.92"
tokio = { version = "=1.54.1", features = ["time", "sync", "rt", "process"] }
tokio-compat-02 = "=0.2.0"
reqwest = { version = "=0.13.5", default-features = false }
kube = { version = "=3.1.0", default-features = false, features = ["client"] }
k8s-openapi = { version = "=0.27.1", features = ["latest"] }
cargo-toml2 = "=1.3.2"
syn = { version = "=1.0.109", features = ["full", "extra-traits"] }
quote = "=1.0.47"
proc-macro2 = { version = "=1.0.107", features = ["span-locations"] }
fs_extra = "=1.3.0"
tracing = "=0.1.44"
regex = "=1.13.1"
lazy_static = "=1.5.1"
derivative = "=2.2.0"
actix-web = { version = "=4.18.1", default-features = false }
chrono = { version = "=0.4.45", default-features = false }
