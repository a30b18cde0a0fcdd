//! Error taxonomy of the upload client.

use vstd::prelude::*;

verus! {

/// Failures of the credential lifecycle.
#[derive(Debug, Clone)]
pub enum AuthError {
    /// No credential is stored at all.
    NoCredential,
    /// A stored credential exists but cannot be parsed.
    CorruptStore,
    /// The token is expired and no refresh token is stored.
    NoRefreshToken,
    /// The vendor's token endpoint answered with an error field.
    VendorRejected { code: String, desc: String },
    /// A transport failure while talking to the vendor.
    Network,
    /// The identity check after an authorization reported a non-zero code.
    VerificationFailed,
}

/// Failures of a single upload transaction.
#[derive(Debug, Clone)]
pub enum UploadError {
    /// The local source file does not exist.
    LocalFileMissing,
    /// The precreate phase answered with a non-zero vendor code.
    PrecreateRejected { errno: i32 },
    /// A chunk transfer was not accepted; the whole upload aborts.
    ChunkFailed { index: usize, status: u16 },
    /// The commit phase answered with a non-zero vendor code.
    CommitRejected { errno: i32 },
    /// A transport failure, or a malformed vendor response.
    Network,
}

} // verus!
