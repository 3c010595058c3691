[package]
name = "shell_scene"
version = "0.1.0"
edition = "2021"
publish = false

[dependencies]
chrono = { version = "0.4", default-features = false, features = ["clock"] }
clap = { version = "4", features = ["env"] }
clap_complete = "4"
ctrlc = "3"
env_logger = "*"
libc = "0.2"
log = "0.4"
which = "*"
