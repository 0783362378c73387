[package]
name = "pulsar-cli"
version = "0.1.0"
edition = "2021"
publish = false

[dependencies]
anyhow = "=1.0.104"
chrono = { version = "=0.4.45", features = ["serde"] }
colored_json = "=5.0.0"
env_logger = "=0.11.11"
futures = "=0.3.34"
humantime = "=2.4.0"
log = "=0.4.34"
pulsar = { version = "=4.1.1", default-features = false, features = ["tokio-runtime"] }
serde_json = "=1.0.154"
structopt = "=0.3.26"
termion = "=4.0.6"
tokio = { version = "=1.54.1", features = ["macros", "rt-multi-thread", "time"] }
url = "=2.5.8"
