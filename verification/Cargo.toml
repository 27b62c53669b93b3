[package]
name = "edwloef_plugins"
version = "0.1.0"
edition = "2021"
publish = false

[dependencies]
clack-plugin = "=0.2.0"
clack-extensions = { version = "=0.2.0", features = ["clack-plugin", "audio-ports", "params", "state"] }
