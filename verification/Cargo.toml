[package]
name = "pipewire-capture"
version = "0.3.0"
edition = "2021"
publish = false

[dependencies]
ashpd = { version = "0.11", default-features = false, features = ["tokio"] }
gl = "0.14"
khronos-egl = { version = "6", features = ["dynamic"] }
libc = "0.2"
numpy = "0.22"
parking_lot = "0.12"
pipewire = "0.8"
pyo3 = { version = "0.22", features = ["extension-module", "abi3-py39"] }
tokio = { version = "1", features = ["macros", "rt-multi-thread", "sync", "time"] }
tracing = "0.1"
tracing-subscriber = { version = "0.3", features = ["env-filter"] }
zbus = { version = "5", default-features = false, features = ["tokio", "blocking-api"] }
