[package]
name = "neotron_desktop_bios"
version = "0.1.0"
edition = "2021"
publish = false

[dependencies]
clap = { version = "*", features = ["derive"] }
env_logger = "*"
libloading = "*"
log = "*"
neotron-common-bios = "*"
pix-engine = "*"
