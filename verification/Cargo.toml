[package]
name = "horn_client"
version = "0.1.0"
edition = "2021"
publish = false

[dependencies]
clap = { version = "*", default-features = false, features = ["std", "derive", "env"] }
env_logger = { version = "*", default-features = false }
log = "*"
tokio = { version = "*", features = ["macros", "rt-multi-thread", "time"] }
up-rust = "*"
zenoh = { version = "*", default-features = false }
