[package]
name = "dcamctl"
version = "0.4.3"
edition = "2021"
publish = false

[dependencies]
anyhow = "=1.0.104"
async-stream = "=0.3.6"
clap = { version = "=3.2.25", features = ["derive"] }
config = { version = "=0.13.4", default-features = false, features = ["yaml"] }
directories-next = "=2.0.0"
env_logger = "=0.9.3"
futures = "=0.3.34"
gstreamer = "=0.17.4"
gstreamer-video = { version = "=0.17.2", features = ["v1_10"] }
lenient_semver = "=0.4.2"
log = "=0.4.34"
regex = "=1.13.1"
reqwest = { version = "=0.11.27", default-features = false, features = ["json"] }
serde = { version = "=1.0.229", features = ["derive"] }
serde-aux = "=4.7.0"
termion = "=1.5.6"
tokio = { version = "=1.54.1", features = ["rt-multi-thread", "macros", "signal", "sync"] }
