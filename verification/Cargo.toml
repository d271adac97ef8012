[package]
name = "dbview"
version = "0.1.0"
edition = "2021"
publish = false

[dependencies]
redis = "*"
clap = { version = "*", features = ["derive"] }
serde = { version = "*", features = ["derive"] }
toml = "*"
ratatui = "*"
tuirealm = "*"
tui-realm-stdlib = "*"
tui-realm-textarea = "*"
