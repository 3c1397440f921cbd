[package]
name = "desk_switch"
version = "0.1.0"
edition = "2021"
publish = false

[dependencies]
anyhow = "1"
bincode = "1"
clap = { version = "4", features = ["derive"] }
crossbeam-channel = "0.5"
ctrlc = "3"
dirs = "*"
env_logger = "*"
hex = "0.4"
hostname = "*"
image = { version = "0.25", default-features = false, features = ["jpeg"] }
log = "0.4"
minifb = "*"
rand = "0.8"
rdev = "*"
scrap = "*"
serde = { version = "1", features = ["derive"] }
serde_json = "1"
sha2 = "0.10"
socket2 = { version = "0.5", features = ["all"] }
tokio = { version = "1", features = ["rt-multi-thread", "net", "time"] }
