[package]
name = "joshuto_core"
version = "0.1.0"
edition = "2021"
publish = false

[dependencies]
regex = "*"
globset = "*"
shellexpand = "*"
toml = "*"
serde = { version = "*", features = ["derive"] }
xdg = "*"
whoami = "*"
tui = "*"
unicode-width = "*"
