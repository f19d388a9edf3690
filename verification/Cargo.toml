[package]
name = "usb_kvm"
version = "0.1.0"
edition = "2021"
publish = false

[dependencies]
anyhow = "1"
clap = { version = "4", default-features = false, features = ["derive", "std", "help", "usage", "error-context"] }
ctrlc = "3"
ipc-channel = "*"
serde = { version = "1", features = ["derive"] }
ssmarshal = "1"
tracing = "0.1"
tracing-subscriber = { version = "0.3", default-features = false, features = ["fmt", "env-filter", "std"] }
usb-gadget = "*"
winit = { version = "0.29", default-features = false, features = ["x11", "rwh_06"] }
