[package]
name = "simon"
version = "0.1.0"
edition = "2021"
publish = false

[dependencies]
serde = { version = "1", features = ["derive"] }
config = { version = "*", default-features = false, features = ["toml"] }
directories = "*"
termion = "1"
tui = { version = "0.19", default-features = false, features = ["termion"] }
