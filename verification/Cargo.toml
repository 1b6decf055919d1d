[package]
name = "scope"
version = "0.1.0"
edition = "2021"
publish = false

[dependencies]
egui = { version = "=0.34.3", default-features = false }
nih_plug_egui = "=0.1.2"
