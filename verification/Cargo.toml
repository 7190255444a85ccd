[package]
name = "sambrs"
version = "0.1.0"
edition = "2021"
publish = false

[dependencies]
thiserror = "*"
tracing = "*"
windows-sys = { version = "*", features = ["Win32_Foundation", "Win32_NetworkManagement_WNet"] }
