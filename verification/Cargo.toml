[package]
name = "duels_server"
version = "0.1.0"
edition = "2021"
publish = false

[dependencies]
byteorder = "1"
rustrict = "0.7"
serde = { version = "1", features = ["derive"] }
serde_json = "1"
log = "0.4"
simple_logger = "4"
