[package]
name = "devenv"
version = "0.1.0"
edition = "2021"
publish = false

[dependencies]
hex = "*"
sha2 = "*"
shell-escape = "*"
serde_json = "*"
nix = { version = "*", features = ["signal"] }
tempfile = "*"
which = "*"
xdg = "*"
