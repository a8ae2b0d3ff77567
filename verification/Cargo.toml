[package]
name = "lcu_cli"
version = "0.1.0"
edition = "2021"
publish = false

[dependencies]
serde = "1"
serde_json = "1"
data-encoding = "2"
owo-colors = "*"
colored_json = "*"
chrono = "0.4"
irelia = "*"
clap = { version = "4", features = ["derive"] }
miette = "*"
tokio = { version = "1", features = ["macros", "rt-multi-thread"] }
futures-util = "0.3"
