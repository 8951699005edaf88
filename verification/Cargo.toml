[package]
name = "pop-system-updater"
version = "0.1.0"
edition = "2021"
publish = false

[dependencies]
cron = "=0.17.0"
chrono = "=0.4.45"
whitespace-conf = "=1.0.0"
tokio = { version = "=1.53.2", features = ["macros", "rt-multi-thread", "process", "time", "sync", "io-util", "signal", "fs"] }
zbus = "=5.19.0"
flume = "=0.12.0"
futures = "=0.3.34"
serde = { version = "=1.0.229", features = ["derive"] }
serde_repr = "=0.1.21"
ron = "=0.12.2"
zvariant = "=5.15.0"
users = "=0.11.0"
os-release = "=0.1.0"
apt-cmd = "=0.6.0"
notify-rust = "=4.18.2"
anyhow = "=1.0.104"
