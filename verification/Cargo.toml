[package]
name = "hfw_save_converter"
version = "0.1.0"
edition = "2021"
publish = false

[dependencies]
anyhow = "1"
byteorder = "1"
clap = { version = "4", features = ["derive"] }
color-eyre = "0.6"
image = { version = "0.25", default-features = false, features = ["png"] }
lazy_static = "1"
path-absolutize = "*"
serde = { version = "1", features = ["derive"] }
tiny-gradient = "*"
tracing = "0.1"
tracing-error = "0.2"
tracing-subscriber = "0.3"
