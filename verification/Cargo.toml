[package]
name = "tauri_fuzz"
version = "0.1.0"
edition = "2021"
publish = false

[dependencies]
libc = "=0.2.191"
log = "=0.4.35"
serde = { version = "=1.0.229", features = ["derive"] }
serde_json = "=1.0.154"
toml = "=1.2.1"
thiserror = "=2.0.21"
clap = { version = "=4.6.7", features = ["derive"] }
anyhow = "=1.0.104"
env_logger = "=0.11.11"
ignore = "=0.4.34"
handlebars = "=6.4.4"
include_dir = "=0.7.4"
nt-string = "=0.1.2"
libafl_bolts = { version = "=0.16.1", features = ["cli", "frida_cli"] }
