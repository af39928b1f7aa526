[package]
name = "hardware_keys"
version = "0.1.0"
edition = "2021"
publish = false

[dependencies]
base64 = "=0.22.1"
napi = "2"
napi-derive = "2"
windows = { version = "0.52", features = ["Foundation", "Security_Credentials_UI", "Win32_Foundation", "Win32_Security_Cryptography", "Win32_System_Com"] }
