[package]
name = "cs2_dumper"
version = "0.1.0"
edition = "2021"
publish = false

[dependencies]
anyhow = "1"
clap = { version = "4", features = ["derive"] }
heck = "0.5"
log = "0.4"
memflow = "0.2"
memflow-native = "0.2"
simplelog = "0.12"
