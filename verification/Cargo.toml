[package]
name = "folder_encryptor"
version = "0.1.0"
edition = "2021"
publish = false

[dependencies]
eframe = { version = "=0.23.0", default-features = false, features = ["default_fonts", "glow"] }
rfd = "=0.14.1"
