[package]
name = "kms_render"
version = "0.1.0"
edition = "2021"
publish = false

[dependencies]
glutin = { version = "*", default-features = false, features = ["egl"] }
raw-window-handle = "*"
serde = { version = "*", features = ["derive"] }
lsp-types = "0.94"
