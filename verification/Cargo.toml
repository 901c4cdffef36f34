[package]
name = "marcontroller"
version = "0.1.0"
edition = "2021"
publish = false

[dependencies]
hidapi = { version = "=2.6.7", default-features = false, features = ["linux-native-basic-udev"] }
service-manager = "=0.11.0"
anyhow = "=1.0.104"
serde = { version = "=1.0.229", features = ["derive"] }
serde_json = "=1.0.154"
toml = "=1.1.8"
directories-next = "=2.0.0"
clap = { version = "=4.6.7", features = ["derive"] }
tokio = { version = "=1.54.1", features = ["rt-multi-thread", "macros", "sync", "time", "signal"] }
rumqttc = { version = "=0.25.1", default-features = false }
tracing = "=0.1.44"
tracing-subscriber = { version = "=0.3.23", features = ["env-filter"] }
tracing-appender = "=0.2.5"
sys-locale = "=0.3.2"
eframe = { version = "=0.37.0", default-features = false, features = ["glow", "x11", "default_fonts"] }
image = { version = "=0.25.10", default-features = false, features = ["png"] }
windows-service = "*"
