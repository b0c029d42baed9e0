[package]
name = "miso_paste"
version = "0.1.0"
edition = "2021"
publish = false

[dependencies]
egui = { version = "=0.34.3", default-features = false }
image = { version = "=0.24.9", default-features = false, features = ["png"] }
nih_plug_core = "=0.1.2"
nih_plug_egui = "=0.1.2"
