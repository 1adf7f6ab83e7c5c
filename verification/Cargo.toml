[package]
name = "savepoint"
version = "0.1.0"
edition = "2021"
publish = false

[dependencies]
clap = { version = "4", features = ["derive"] }
color-eyre = "0.6"
colored = "*"
command-run = "1"
ctrlc = "3"
notify = "*"
spinners = "4"
uuid = { version = "1", features = ["v4"] }
