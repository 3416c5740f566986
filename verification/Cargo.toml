[package]
name = "printer_service"
version = "0.1.0"
edition = "2021"
publish = false

[dependencies]
axum = "0.7"
clap = { version = "4", features = ["derive"] }
clap-verbosity-flag = "2"
display-interface-spi = "0.4"
embedded-graphics = "0.8"
embedded-graphics-framebuf = "0.5"
env_logger = "0.11"
futures = "0.3"
gethostname = "0.4"
image = { version = "0.24", default-features = false, features = ["png"] }
local-ip-address = "0.6"
log = "0.4"
mdns-sd = "0.10"
mipidsi = "0.7"
rppal = { version = "0.17", features = ["hal"] }
serde = { version = "1", features = ["derive"] }
thiserror = "1"
tinyqoi = "0.2"
tokio = { version = "1", features = ["full"] }
zbus = { version = "4", default-features = false, features = ["tokio"] }
