[package]
name = "pc_monitor"
version = "0.1.0"
edition = "2021"
publish = false

[dependencies]
xmltojson = "*"
serialport = { version = "4", default-features = false }
sysinfo = "0.30"

[dev-dependencies]
bincode = "1"
