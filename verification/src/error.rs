//! Error taxonomy of the cryptographic core and of the session authority.

use vstd::prelude::*;
use vstd::string::*;

verus! {

/// Failure of a cryptographic operation. Each variant carries a short
/// human-readable reason; a reason never contains key material.
#[derive(Debug)]
pub enum CryptoError {
    /// Sealing was refused. Does not occur under correct usage.
    EncryptionError(String),
    /// The authentication tag did not verify: tampering or a wrong key.
    DecryptionError(String),
    /// The entropy source is unavailable, or key input is malformed.
    KeyGenerationError(String),
    /// Key bytes have the wrong length or do not decode.
    InvalidKeyFormat(String),
    /// An envelope or a signature is not laid out as expected.
    InvalidMessageFormat(String),
}

/// The variant of a [`CryptoError`] without its reason, for use in contracts.
#[derive(Debug, Clone, Copy, PartialEq, Eq, Structural)]
pub enum ErrorKind {
    Encryption,
    Decryption,
    KeyGeneration,
    InvalidKeyFormat,
    InvalidMessageFormat,
}

/// Reason for which a presented session token is rejected.
#[derive(Debug, Clone, Copy, PartialEq, Eq, Structural)]
pub enum AuthError {
    /// The signature over the token body does not verify.
    Invalid,
    /// The current time is at or past the token's expiry.
    Expired,
    /// The token was explicitly revoked.
    Revoked,
}

/// Reason for which no session token is issued.
#[derive(Debug, Clone, Copy, PartialEq, Eq, Structural)]
pub enum IssueError {
    /// The validity window is empty, or it ends after the last second that
    /// can be written down.
    WindowRefused,
    /// The entropy source is unavailable, so no identifier can be drawn.
    EntropyUnavailable,
}

impl ErrorKind {
    /// The fixed text that precedes the reason in a rendered error.
    pub open spec fn prefix(self) -> Seq<char> {
        match self {
            ErrorKind::Encryption => "Encryption failed: "@,
            ErrorKind::Decryption => "Decryption failed: "@,
            ErrorKind::KeyGeneration => "Key generation failed: "@,
            ErrorKind::InvalidKeyFormat => "Invalid key format: "@,
            ErrorKind::InvalidMessageFormat => "Invalid message format: "@,
        }
    }
}

impl CryptoError {
    pub open spec fn spec_kind(&self) -> ErrorKind {
        match self {
            CryptoError::EncryptionError(_) => ErrorKind::Encryption,
            CryptoError::DecryptionError(_) => ErrorKind::Decryption,
            CryptoError::KeyGenerationError(_) => ErrorKind::KeyGeneration,
            CryptoError::InvalidKeyFormat(_) => ErrorKind::InvalidKeyFormat,
            CryptoError::InvalidMessageFormat(_) => ErrorKind::InvalidMessageFormat,
        }
    }

    /// The reason carried by the error, as a sequence of characters.
    pub open spec fn reason(&self) -> Seq<char> {
        match self {
            CryptoError::EncryptionError(r) => r@,
            CryptoError::DecryptionError(r) => r@,
            CryptoError::KeyGenerationError(r) => r@,
            CryptoError::InvalidKeyFormat(r) => r@,
            CryptoError::InvalidMessageFormat(r) => r@,
        }
    }

    /// Which of the five failures this is.
    #[verifier::when_used_as_spec(spec_kind)]
    pub fn kind(&self) -> (k: ErrorKind)
        ensures
            k == self.spec_kind(),
    {
        match self {
            CryptoError::EncryptionError(_) => ErrorKind::Encryption,
            CryptoError::DecryptionError(_) => ErrorKind::Decryption,
            CryptoError::KeyGenerationError(_) => ErrorKind::KeyGeneration,
            CryptoError::InvalidKeyFormat(_) => ErrorKind::InvalidKeyFormat,
            CryptoError::InvalidMessageFormat(_) => ErrorKind::InvalidMessageFormat,
        }
    }

    /// Builds the error of the given kind with the given reason.
    pub fn new(kind: ErrorKind, reason: &str) -> (e: CryptoError)
        ensures
            e.spec_kind() == kind,
            e.reason() == reason@,
    {
        let text = String::from_str(reason);
        match kind {
            ErrorKind::Encryption => CryptoError::EncryptionError(text),
            ErrorKind::Decryption => CryptoError::DecryptionError(text),
            ErrorKind::KeyGeneration => CryptoError::KeyGenerationError(text),
            ErrorKind::InvalidKeyFormat => CryptoError::InvalidKeyFormat(text),
            ErrorKind::InvalidMessageFormat => CryptoError::InvalidMessageFormat(text),
        }
    }

    /// Renders the error as one line: the kind's fixed prefix, then the reason.
    pub fn describe(&self) -> (s: String)
        ensures
            s@ == self.spec_kind().prefix() + self.reason(),
    {
        match self {
            CryptoError::EncryptionError(r) => {
                String::from_str("Encryption failed: ").concat(r.as_str())
            },
            CryptoError::DecryptionError(r) => {
                String::from_str("Decryption failed: ").concat(r.as_str())
            },
            CryptoError::KeyGenerationError(r) => {
                String::from_str("Key generation failed: ").concat(r.as_str())
            },
            CryptoError::InvalidKeyFormat(r) => {
                String::from_str("Invalid key format: ").concat(r.as_str())
            },
            CryptoError::InvalidMessageFormat(r) => {
                String::from_str("Invalid message format: ").concat(r.as_str())
            },
        }
    }
}

impl AuthError {
    /// Renders the rejection. The boundary layer should answer a caller with
    /// one generic message whatever the reason; this text is for logs.
    pub fn describe(&self) -> (s: String)
        ensures
            s@ == match *self {
                AuthError::Invalid => "session token is invalid"@,
                AuthError::Expired => "session token has expired"@,
                AuthError::Revoked => "session token was revoked"@,
            },
    {
        match self {
            AuthError::Invalid => String::from_str("session token is invalid"),
            AuthError::Expired => String::from_str("session token has expired"),
            AuthError::Revoked => String::from_str("session token was revoked"),
        }
    }
}

impl IssueError {
    /// Renders the refusal as text.
    pub fn describe(&self) -> (s: String)
        ensures
            s@ == match *self {
                IssueError::WindowRefused => "the validity window cannot be issued"@,
                IssueError::EntropyUnavailable => "the entropy source is unavailable"@,
            },
    {
        match self {
            IssueError::WindowRefused => String::from_str("the validity window cannot be issued"),
            IssueError::EntropyUnavailable => String::from_str("the entropy source is unavailable"),
        }
    }
}

} // verus!
