[package]
name = "xylosip"
version = "0.1.0"
edition = "2021"
publish = false

[dependencies]
atoi = "0.3"
nom = { version = "5", default-features = false, features = ["std"] }
slog = "2"
thiserror = "1"
