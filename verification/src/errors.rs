//! Error taxonomy of the certificate engine and store.

use vstd::prelude::*;

verus! {

/// Every failure of the engine or the store, as a typed value.
#[derive(Clone, Copy, Debug, PartialEq, Eq, Structural)]
pub enum CertError {
    /// The RSA key pair could not be produced.
    KeyGeneration,
    /// Building or signing the X.509 structure failed.
    Encoding,
    /// An existing certificate or private key could not be decoded.
    Parse,
    /// A persisted identity lacks one of its two files.
    NotFound,
    /// Reading or writing the persisted identity failed some other way.
    Io,
}

impl CertError {
    /// A short human-readable description, for the calling shell to print.
    pub fn describe(&self) -> (r: &'static str)
        ensures
            self is KeyGeneration ==> r@ == "key generation failed"@,
            self is Encoding ==> r@ == "certificate encoding failed"@,
            self is Parse ==> r@ == "certificate or key could not be parsed"@,
            self is NotFound ==> r@ == "cert.pem or key.pem is missing"@,
            self is Io ==> r@ == "reading or writing the certificate files failed"@,
    {
        match self {
            CertError::KeyGeneration => "key generation failed",
            CertError::Encoding => "certificate encoding failed",
            CertError::Parse => "certificate or key could not be parsed",
            CertError::NotFound => "cert.pem or key.pem is missing",
            CertError::Io => "reading or writing the certificate files failed",
        }
    }
}

} // verus!
