[package]
name = "pow_relay"
version = "0.1.0"
edition = "2021"
publish = false

[dependencies]
sha2 = "*"
rand = "*"
tokio = { version = "*", features = ["rt-multi-thread", "macros", "net", "io-util", "process", "time", "signal"] }
anyhow = "*"
command-group = { version = "*", features = ["with-tokio"] }
clap = { version = "*", features = ["derive", "env"] }
clap-verbosity-flag = "*"
env_logger = "*"
log = "*"
