[package]
name = "rin"
version = "0.1.0"
edition = "2021"
publish = false

[dependencies]
vte = "=0.15.0"
anyhow = "=1.0.104"
portable-pty = "=0.9.0"
log = "=0.4.34"
jni = "=0.21.1"
android_logger = "=0.15.1"
serde = { version = "=1.0.229", features = ["derive"] }
