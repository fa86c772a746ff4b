use vstd::prelude::*;

use crate::status::status_of_code;
use crate::status::CredentialStatus;

verus! {

/// The closed error taxonomy of the library: one variant per way an
/// operation can fail, with the raw platform code kept wherever the
/// platform reported something this taxonomy does not name.
#[derive(Clone, Copy, Debug, PartialEq, Eq, Structural)]
pub enum PassportError {
    /// The user canceled the operation.
    UserCancelled,
    /// The user needs to create a PIN or biometric gesture first.
    NotFound,
    /// The user prefers a password.
    UserPrefersPassword,
    /// The credential already exists.
    CredentialAlreadyExists,
    /// The security device is locked.
    SecurityDeviceLocked,
    /// The platform reported a status outside the named set; the raw
    /// code is kept for diagnostics.
    Unknown(i32),
    /// A local precondition failed: the cached existence flag says the
    /// account does not exist, so no platform call was made.
    AccountNotFound,
    /// The consent ceremony reported an outcome code outside the closed
    /// set of verification results; the raw code is kept.
    UnrecognizedVerificationResult(i32),
    /// Converting bytes to or from the platform's buffer type failed.
    BufferConversion,
    /// A platform call itself failed, reporting an error rather than a
    /// status code.
    PlatformCall,
}

/// The translation table from a platform status to a domain error.
/// `Success` is not an error: the engine never hands it to the
/// translator, and the translator renders that caller mistake as the
/// defensive `PlatformCall` kind rather than inventing a status.
pub open spec fn translated(status: CredentialStatus) -> PassportError {
    match status {
        CredentialStatus::Success => PassportError::PlatformCall,
        CredentialStatus::UserCanceled => PassportError::UserCancelled,
        CredentialStatus::NotFound => PassportError::NotFound,
        CredentialStatus::UserPrefersPassword => PassportError::UserPrefersPassword,
        CredentialStatus::CredentialAlreadyExists => PassportError::CredentialAlreadyExists,
        CredentialStatus::SecurityDeviceLocked => PassportError::SecurityDeviceLocked,
        CredentialStatus::Other(code) => PassportError::Unknown(code),
    }
}

/// A raw platform code outside the named set survives classification
/// and translation verbatim: it ends up in the unknown-error kind,
/// never dropped or genericized away.
pub proof fn lemma_unrecognized_code_kept(code: i32)
    requires
        status_of_code(code) is Other,
    ensures
        translated(status_of_code(code)) == PassportError::Unknown(code),
{
}

impl PassportError {
    /// Translate a non-success platform status into its domain error,
    /// exactly as [`translated`] lays the table out.
    pub fn from_credential_status(status: CredentialStatus) -> (err: PassportError)
        ensures
            err == translated(status),
    {
        match status {
            CredentialStatus::Success => PassportError::PlatformCall,
            CredentialStatus::UserCanceled => PassportError::UserCancelled,
            CredentialStatus::NotFound => PassportError::NotFound,
            CredentialStatus::UserPrefersPassword => PassportError::UserPrefersPassword,
            CredentialStatus::CredentialAlreadyExists => PassportError::CredentialAlreadyExists,
            CredentialStatus::SecurityDeviceLocked => PassportError::SecurityDeviceLocked,
            CredentialStatus::Other(code) => PassportError::Unknown(code),
        }
    }

    /// A human-readable account of the error. Variants that carry a raw
    /// platform code keep it in their payload; this text names the kind.
    pub fn message(&self) -> (msg: &'static str)
        ensures
            self is UserCancelled ==> msg@ == "The user canceled the operation"@,
            self is NotFound ==> msg@
                == "The user needs to create a PIN or biometric gesture before creating a Passport key"@,
            self is UserPrefersPassword ==> msg@ == "The user prefers a password"@,
            self is CredentialAlreadyExists ==> msg@ == "The credential already exists"@,
            self is SecurityDeviceLocked ==> msg@ == "The security device is locked"@,
            self is Unknown ==> msg@ == "An unknown error occurred"@,
            self is AccountNotFound ==> msg@ == "The passport account does not exist"@,
            self is UnrecognizedVerificationResult ==> msg@ == "Unknown verification result"@,
            self is BufferConversion ==> msg@ == "The buffer could not be converted"@,
            self is PlatformCall ==> msg@ == "No error occurred although an error was expected"@,
    {
        match self {
            PassportError::UserCancelled => "The user canceled the operation",
            PassportError::NotFound => {
                "The user needs to create a PIN or biometric gesture before creating a Passport key"
            },
            PassportError::UserPrefersPassword => "The user prefers a password",
            PassportError::CredentialAlreadyExists => "The credential already exists",
            PassportError::SecurityDeviceLocked => "The security device is locked",
            PassportError::Unknown(_) => "An unknown error occurred",
            PassportError::AccountNotFound => "The passport account does not exist",
            PassportError::UnrecognizedVerificationResult(_) => "Unknown verification result",
            PassportError::BufferConversion => "The buffer could not be converted",
            PassportError::PlatformCall => "No error occurred although an error was expected",
        }
    }
}

} // verus!
