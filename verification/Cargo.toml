[package]
name = "gadgetdeck"
version = "0.1.0"
edition = "2021"
publish = false

[dependencies]
usb-gadget = "*"
bytes = "1"
log = "0.4"
env_logger = "*"
clap = { version = "4", features = ["derive"] }
ctrlc = "3"
axum = { version = "0.8", features = ["ws"] }
tokio = { version = "1", features = ["full"] }
tower-http = { version = "0.6", features = ["cors"] }
futures-util = { version = "0.3", features = ["sink"] }
serde = { version = "1", features = ["derive"] }
serde_json = "1"
base64 = "0.22"
parking_lot = "0.12"
raylib = "*"
