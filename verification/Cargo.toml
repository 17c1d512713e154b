[package]
name = "synheart_sensor_agent"
version = "0.1.0"
edition = "2021"
publish = false

[dependencies]
chrono = "*"
uuid = { version = "*", features = ["v4"] }
serde = { version = "*", features = ["derive"] }
serde_json = "*"
clap = { version = "*", features = ["derive"] }
dirs = "*"
crossbeam-channel = "*"
ctrlc = "*"
hostname = "*"
reqwest = { version = "*", default-features = false, features = ["blocking", "json"] }
synheart-flux = "*"
