[package]
name = "screen_grabbing"
version = "0.1.0"
edition = "2021"
publish = false

[dependencies]
image = "0.24"
imageproc = { version = "0.23", default-features = false }
eframe = { version = "0.23", default-features = false, features = ["glow", "x11", "default_fonts"] }
egui = "0.23"
egui_extras = "0.23"
egui-notify = "0.10"
global-hotkey = "0.4"
keyboard-types = "0.7"
arboard = { version = "3", default-features = false, features = ["image-data"] }
chrono = { version = "0.4", default-features = false, features = ["clock"] }
rusttype = "0.9"
