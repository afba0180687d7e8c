[package]
name = "remu"
version = "0.1.0"
edition = "2021"
publish = false

[dependencies]
clap = { version = "4", features = ["derive"] }
crossbeam-channel = "0.5"
minifb = "*"
rustyline = "*"
serde = { version = "1", features = ["derive"] }
serde_json = "1"
serialport = { version = "4", default-features = false }
single_value_channel = "*"
termion = "*"
thiserror = "1"
tinyhttp = "*"
url_encoded_data = "*"
