[package]
name = "pigeon"
version = "0.1.0"
edition = "2021"
publish = false

[dependencies]
blake3 = "*"
chacha20 = "0.9"
rand = "0.8"
sha3 = "0.10"
whirlpool = "0.10"
windows-sys = { version = "0.52", features = ["Win32_Foundation", "Win32_UI_WindowsAndMessaging"] }
