[package]
name = "ms_passport"
version = "0.1.0"
edition = "2021"
publish = false

[dependencies]
windows = { version = "=0.48.0", features = ["Foundation", "Security_Credentials", "Security_Credentials_UI", "Security_Cryptography_Core", "Storage_Streams"] }
