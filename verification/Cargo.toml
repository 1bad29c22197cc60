[package]
name = "yasb"
version = "0.1.0"
edition = "2021"
publish = false

[dependencies]
Inflector = "0.11"
rsass = "0.28"
serde = { version = "1", features = ["derive"] }
serde_json = "1"
serde_yaml = "0.9"
uuid = { version = "1", features = ["v4"] }
hotwatch = "0.4"
ctrlc = "3"
log = "0.4"
simplelog = "0.12"
home = "0.5"
shellexpand = "3"
sysinfo = "0.29"
wait-timeout = "0.2"
