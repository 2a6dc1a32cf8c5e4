[package]
name = "helmule"
version = "0.1.0"
edition = "2021"
publish = false

[dependencies]
base64 = "0.21"
chrono = "0.4"
clap = { version = "4", features = ["derive"] }
dircpy = "0.3"
env_logger = "0.10"
handlebars = "4"
log = "0.4"
regex = "1"
serde = { version = "1", features = ["derive"] }
serde_json = "1"
serde_yaml = "0.9"
tempfile = "3"
