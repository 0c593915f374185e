[package]
name = "keyguard"
version = "0.1.0"
edition = "2021"
publish = false

[dependencies]
aes-gcm = "0.10"
pbkdf2 = "0.12"
hmac = "0.12"
sha2 = "0.10"
rand = "0.8"
zeroize = "1"
anyhow = "1"
chrono = "0.4"
console = "0.15"
dialoguer = "0.11"
native-dialog = "0.7"
serde = { version = "1", features = ["derive"] }
serde_json = "1"
sequoia-openpgp = { version = "1", default-features = false, features = ["crypto-rust", "allow-experimental-crypto", "allow-variable-time-crypto"] }
