[package]
name = "anybuild"
version = "0.1.0"
edition = "2021"
publish = false

[dependencies]
base64 = "=0.22.1"
clap = { version = "=4.6.7", features = ["derive"] }
globset = "=0.4.21"
indexmap = "=2.14.2"
path-clean = "=1.0.1"
regex = "=1.13.1"
serde = { version = "=1.0.229", features = ["derive"] }
serde_json = "=1.0.154"
serde_yaml = "0.9"
sha2 = "0.10"
shell-words = "=1.1.1"
shlex = "=1.3.0"
syntect = { version = "=5.3.0", default-features = false, features = ["default-fancy"] }
two-face = { version = "=0.4.5", default-features = false, features = ["syntect-fancy"] }
thiserror = "=2.0.21"
toml = "=0.8.23"
toml_edit = "0.22"
unicode-width = "=0.2.3"
ureq = "=2.12.1"
walkdir = "=2.5.0"

[dev-dependencies]
tempfile = "=3.27.0"
