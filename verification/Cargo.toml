[package]
name = "bongoknob"
version = "0.1.0"
edition = "2021"
publish = false

[dependencies]
serde_json = "1"
crossbeam = "0.8"
log = "0.4"
thiserror = "1"
serialport = { version = "4", default-features = false }
