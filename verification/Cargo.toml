[package]
name = "react-native-libsignal"
version = "0.1.0"
edition = "2021"
publish = false

[dependencies]
hkdf = "0.12"
sha2 = "0.10"
rand = "0.9"
thiserror = "*"
uniffi = { version = "*", default-features = false }
