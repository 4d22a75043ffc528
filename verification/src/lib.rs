//! Self-signed TLS identity toolkit: generates a 2048-bit RSA key pair with a
//! self-signed X.509 certificate carrying the requested hostnames as Subject
//! Alternative Names, and renews such an identity by re-issuing the
//! certificate with a fresh validity window while keeping the key.

pub mod engine;
pub mod errors;
pub mod ssl;
pub mod store;
