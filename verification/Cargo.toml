[package]
name = "boxlite"
version = "0.1.0"
edition = "2021"
publish = false

[dependencies]
sha2 = "=0.11.0"
ulid = "=3.0.0"
chrono = "=0.4.45"
serde = { version = "=1.0.229", features = ["derive"] }
serde_json = "=1.0.151"
tar = "=0.4.46"
zstd = "=0.14.0"
tempfile = "=3.27.0"
libc = "=0.2.190"
walkdir = "=2.5.0"
signal-hook = "=0.4.4"
dirs = "=7.0.0"
oci-spec = "*"
