//! Password-protected containers for secret key material.
//!
//! A secret byte string is sealed under a password: a fresh salt feeds a
//! PBKDF2 key derivation, the derived key encrypts the secret with
//! AES-256-GCM under a fresh nonce, and the salt, nonce and ciphertext are
//! framed into a single opaque blob. The same password recovers the secret;
//! a wrong password, a truncated blob or a tampered ciphertext is rejected.

pub mod aead;
pub mod codec;
pub mod config;
pub mod errors;
pub mod kdf;
pub mod rng;
pub mod service;
pub mod ui;
