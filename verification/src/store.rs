//! The store's fixed layout: a persisted identity is a directory holding
//! exactly `cert.pem` and `key.pem`.  The reading and writing of those files
//! is plain I/O and lives with the calling shell; the paths it must use are
//! computed here.

use vstd::prelude::*;
use vstd::string::StringExecFns;

verus! {

/// The path of the certificate file inside a directory.
pub fn cert_path(folder: &str) -> (r: String)
    ensures
        r@ == folder@ + "/cert.pem"@,
{
    let mut path = String::from_str(folder);
    path.append("/cert.pem");
    path
}

/// The path of the private-key file inside a directory.
pub fn key_path(folder: &str) -> (r: String)
    ensures
        r@ == folder@ + "/key.pem"@,
{
    let mut path = String::from_str(folder);
    path.append("/key.pem");
    path
}

} // verus!
