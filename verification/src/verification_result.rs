use vstd::prelude::*;

use crate::errors::PassportError;

verus! {

/// Outcome of a standalone user-consent ceremony, mirroring the
/// platform's closed set of verification results.
#[derive(Clone, Copy, Debug, PartialEq, Eq, Structural)]
pub enum VerificationResult {
    /// The user verified their identity.
    Verified,
    /// No verification device is present.
    DeviceNotPresent,
    /// The user has not configured a gesture for verification.
    NotConfiguredForUser,
    /// Verification is disabled by policy.
    DisabledByPolicy,
    /// The verification device is busy.
    DeviceBusy,
    /// The maximum number of attempts was exceeded.
    RetriesExhausted,
    /// The user canceled the ceremony.
    Canceled,
}

/// The verification result that a raw platform outcome code stands for.
/// Any code outside the closed set is a translation failure carrying the
/// code, never a silently guessed member.
pub open spec fn verification_of_code(code: i32) -> Result<VerificationResult, PassportError> {
    if code == 0 {
        Ok(VerificationResult::Verified)
    } else if code == 1 {
        Ok(VerificationResult::DeviceNotPresent)
    } else if code == 2 {
        Ok(VerificationResult::NotConfiguredForUser)
    } else if code == 3 {
        Ok(VerificationResult::DisabledByPolicy)
    } else if code == 4 {
        Ok(VerificationResult::DeviceBusy)
    } else if code == 5 {
        Ok(VerificationResult::RetriesExhausted)
    } else if code == 6 {
        Ok(VerificationResult::Canceled)
    } else {
        Err(PassportError::UnrecognizedVerificationResult(code))
    }
}

impl VerificationResult {
    /// The numeric value of the platform's matching outcome.
    pub open spec fn platform_code_spec(self) -> i32 {
        match self {
            VerificationResult::Verified => 0,
            VerificationResult::DeviceNotPresent => 1,
            VerificationResult::NotConfiguredForUser => 2,
            VerificationResult::DisabledByPolicy => 3,
            VerificationResult::DeviceBusy => 4,
            VerificationResult::RetriesExhausted => 5,
            VerificationResult::Canceled => 6,
        }
    }

    /// The numeric value of the platform's matching outcome.
    pub fn platform_code(&self) -> (code: i32)
        ensures
            code == self.platform_code_spec(),
    {
        match self {
            VerificationResult::Verified => 0,
            VerificationResult::DeviceNotPresent => 1,
            VerificationResult::NotConfiguredForUser => 2,
            VerificationResult::DisabledByPolicy => 3,
            VerificationResult::DeviceBusy => 4,
            VerificationResult::RetriesExhausted => 5,
            VerificationResult::Canceled => 6,
        }
    }

    /// Map a raw platform outcome code into the closed result set,
    /// exactly as [`verification_of_code`] lays it out.
    pub fn try_from(code: i32) -> (result: Result<VerificationResult, PassportError>)
        ensures
            result == verification_of_code(code),
    {
        match code {
            0 => Ok(VerificationResult::Verified),
            1 => Ok(VerificationResult::DeviceNotPresent),
            2 => Ok(VerificationResult::NotConfiguredForUser),
            3 => Ok(VerificationResult::DisabledByPolicy),
            4 => Ok(VerificationResult::DeviceBusy),
            5 => Ok(VerificationResult::RetriesExhausted),
            6 => Ok(VerificationResult::Canceled),
            _ => Err(PassportError::UnrecognizedVerificationResult(code)),
        }
    }
}

/// The mapping to the platform's outcomes is bijective on the closed
/// set: every result comes back unchanged from its own platform code.
pub proof fn lemma_verification_roundtrip(result: VerificationResult)
    ensures
        verification_of_code(result.platform_code_spec()) == Ok::<VerificationResult, PassportError>(
            result,
        ),
{
}

} // verus!
