[package]
name = "error_log"
version = "0.1.0"
edition = "2021"
publish = false

[dependencies]
anyhow = "=1.0.104"
log = "=0.4.34"
native-dialog = "=0.7.0"
time = { version = "=0.3.55", features = ["formatting"] }
