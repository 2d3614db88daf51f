[package]
name = "cellar_sandbox"
version = "0.1.0"
edition = "2021"
publish = false

[dependencies]
clap = "3.2"
flexi_logger = "*"
log = "0.4"
serde = { version = "1", features = ["derive"] }
serde_json = "1"
thiserror = "1"
which = "4"

[dev-dependencies]
bincode = "1.3"
