[package]
name = "mfekglif"
version = "0.1.0"
edition = "2021"
publish = false

[dependencies]
MFEKmath = "=0.1.1"
glifparser = "=1.2.8"
kurbo = { version = "=0.9.5", features = ["std"] }
skia-safe = "=0.156.0"
log = "=0.4.35"
dyn-clone = "=1.0.20"
