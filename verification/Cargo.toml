[package]
name = "provola"
version = "0.1.0"
edition = "2021"
publish = false

[dependencies]
clap = { version = "3.0.0", features = ["derive"] }
clap_generate = "3.0.0"
crossbeam-channel = "0.5"
eframe = "0.15.0"
env_logger = "0.9"
log = "0.4"
notify = "4.0.17"
subprocess = "0.2"
thiserror = "1"
