[package]
name = "text_editor"
version = "0.1.0"
edition = "2021"
publish = false

[dependencies]
rfd = { version = "=0.14.1", default-features = false, features = ["xdg-portal", "tokio"] }
slint = { version = "=1.18.1", default-features = false, features = ["std", "backend-qt", "compat-1-2"] }
