[package]
name = "quarkpad"
version = "0.1.0"
edition = "2021"
publish = false

[dependencies]
chrono = { version = "0.4", features = ["serde"] }
strip-ansi-escapes = "0.2"
serde = { version = "1", features = ["derive"] }
toml = "*"
dirs = "*"
smol = "2"
gtk4 = "*"
libadwaita = { version = "*", features = ["v1_6"] }
