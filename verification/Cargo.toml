[package]
name = "shift"
version = "0.1.0"
edition = "2021"
publish = false

[dependencies]
base64 = "=0.22.1"
uuid = { version = "=1.29.0", features = ["v4"] }
serde = { version = "=1.0.229", features = ["derive"] }
serde_json = "=1.0.154"
nix = { version = "=0.29.0", features = ["socket", "uio", "fs", "poll"] }
tokio = { version = "=1.54.1", features = ["rt", "net", "sync", "macros", "time"] }
futures = "=0.3.34"
thiserror = "=1.0.69"
tracing = "=0.1.44"
tracing-subscriber = { version = "=0.3.23", features = ["env-filter"] }
libc = "=0.2.191"
easydrm = "*"
skia-safe = { version = "*", features = ["gl"] }
khronos-egl = { version = "*", features = ["dynamic"] }
libloading = "*"
gbm = "*"
