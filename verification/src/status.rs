use vstd::prelude::*;

verus! {

/// Outcome reported by the platform credential store for a create, open
/// or sign request. The named variants are the store's documented codes;
/// `Other` carries any further numeric code (the store reserves more,
/// such as a generic "unknown error" code), so no report is ever dropped.
///
/// The engine consumes these values; it never produces them. A host
/// embedding turns the store's raw code into this type with
/// [`CredentialStatus::from_code`].
#[derive(Clone, Copy, Debug, PartialEq, Eq, Structural)]
pub enum CredentialStatus {
    /// The request completed and a credential is available.
    Success,
    /// The user dismissed the gesture prompt.
    UserCanceled,
    /// No credential exists under the requested account identifier, or
    /// the user has not set up a PIN or biometric gesture yet.
    NotFound,
    /// The user chose password authentication over a gesture.
    UserPrefersPassword,
    /// A credential already exists and the request asked not to replace it.
    CredentialAlreadyExists,
    /// The security device holding the keys is locked.
    SecurityDeviceLocked,
    /// Any other code the platform reported.
    Other(i32),
}

/// The status that a raw platform code stands for. The named codes are
/// the ones the platform credential store defines; everything else is
/// kept verbatim in `Other`.
pub open spec fn status_of_code(code: i32) -> CredentialStatus {
    if code == 0 {
        CredentialStatus::Success
    } else if code == 2 {
        CredentialStatus::NotFound
    } else if code == 3 {
        CredentialStatus::UserCanceled
    } else if code == 4 {
        CredentialStatus::UserPrefersPassword
    } else if code == 5 {
        CredentialStatus::CredentialAlreadyExists
    } else if code == 6 {
        CredentialStatus::SecurityDeviceLocked
    } else {
        CredentialStatus::Other(code)
    }
}

impl CredentialStatus {
    /// The raw platform code behind this status.
    pub open spec fn code_spec(self) -> i32 {
        match self {
            CredentialStatus::Success => 0,
            CredentialStatus::NotFound => 2,
            CredentialStatus::UserCanceled => 3,
            CredentialStatus::UserPrefersPassword => 4,
            CredentialStatus::CredentialAlreadyExists => 5,
            CredentialStatus::SecurityDeviceLocked => 6,
            CredentialStatus::Other(code) => code,
        }
    }

    /// A status is canonical when an `Other` payload is none of the named
    /// codes; [`CredentialStatus::from_code`] only builds such values.
    pub open spec fn canonical(self) -> bool {
        self matches CredentialStatus::Other(code) ==> status_of_code(code) == self
    }

    /// Classify a raw platform status code.
    pub fn from_code(code: i32) -> (status: CredentialStatus)
        ensures
            status == status_of_code(code),
            status.canonical(),
    {
        match code {
            0 => CredentialStatus::Success,
            2 => CredentialStatus::NotFound,
            3 => CredentialStatus::UserCanceled,
            4 => CredentialStatus::UserPrefersPassword,
            5 => CredentialStatus::CredentialAlreadyExists,
            6 => CredentialStatus::SecurityDeviceLocked,
            _ => CredentialStatus::Other(code),
        }
    }

    /// The raw platform code behind this status.
    pub fn code(&self) -> (code: i32)
        ensures
            code == self.code_spec(),
    {
        match self {
            CredentialStatus::Success => 0,
            CredentialStatus::NotFound => 2,
            CredentialStatus::UserCanceled => 3,
            CredentialStatus::UserPrefersPassword => 4,
            CredentialStatus::CredentialAlreadyExists => 5,
            CredentialStatus::SecurityDeviceLocked => 6,
            CredentialStatus::Other(code) => *code,
        }
    }
}

/// Classifying a code and reading it back yields the code unchanged:
/// the classification loses nothing.
pub proof fn lemma_code_of_status_of_code(code: i32)
    ensures
        status_of_code(code).code_spec() == code,
{
}

/// On canonical statuses the two directions are inverse: reading the
/// code back and classifying it restores the status.
pub proof fn lemma_status_of_code_of_status(status: CredentialStatus)
    requires
        status.canonical(),
    ensures
        status_of_code(status.code_spec()) == status,
{
}

} // verus!
