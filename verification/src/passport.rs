use vstd::prelude::*;

use crate::errors::{translated, PassportError};
use crate::public_key_encoding::PublicKeyEncoding;
use crate::status::CredentialStatus;
use crate::verification_result::{verification_of_code, VerificationResult};

verus! {

/// The account lifecycle engine: one instance per account identifier.
///
/// The engine owns the cached existence flag and makes every decision of
/// the lifecycle — which requests are allowed, how each platform report
/// changes the cache, and which error each failure becomes. The platform
/// round trips themselves (asynchronous, possibly user-facing) are the
/// host embedding's work; the host hands each observed outcome to the
/// engine as a plain value. A host flow for, say, signing is:
///
/// 1. [`Passport::require_account`] — stop locally, with no platform
///    call, when the cached flag is false;
/// 2. open the account in the platform store and check the reported
///    status with [`Passport::open_account`];
/// 3. request the signature and hand both statuses and the returned
///    bytes to [`Passport::sign`] for the final decision.
///
/// Methods that write the cache take `&mut self`, so within one instance
/// reads and writes are serialized by Rust's exclusive borrows; a host
/// that shares one instance across threads wraps it in a lock, holding
/// the lock only around the flag update, not across a platform round
/// trip. Instances bound to the same account identifier stay independent:
/// the cache reflects the last locally observed platform truth and is
/// never re-synchronized behind the engine's back.
pub struct Passport {
    /// The account identifier this engine is bound to; immutable for the
    /// lifetime of the instance.
    pub account_id: String,
    /// The cached existence flag: set true only by a create that the
    /// platform confirmed, false only by a confirmed delete.
    pub account_exists: bool,
}

impl Passport {
    /// Construct an engine bound to `account_id`, given the status the
    /// platform reported for the synchronous existence probe of that
    /// account: success means the account exists, not-found means it
    /// does not, and any other status fails construction with the
    /// translated error.
    pub fn new(account_id: String, probe: CredentialStatus) -> (result: Result<
        Passport,
        PassportError,
    >)
        ensures
            probe is Success ==> (result matches Ok(p) && p.account_id@ == account_id@
                && p.account_exists),
            probe is NotFound ==> (result matches Ok(p) && p.account_id@ == account_id@
                && !p.account_exists),
            !(probe is Success) && !(probe is NotFound) ==> result == Err::<
                Passport,
                PassportError,
            >(translated(probe)),
    {
        match Self::account_with_id_exists(probe) {
            Ok(exists) => Ok(Passport { account_id, account_exists: exists }),
            Err(e) => Err(e),
        }
    }

    /// Classify the platform's report for "does an account with this
    /// identifier exist": success means yes, not-found means no, and any
    /// other status is the translated error.
    pub fn account_with_id_exists(status: CredentialStatus) -> (result: Result<
        bool,
        PassportError,
    >)
        ensures
            status is Success ==> result == Ok::<bool, PassportError>(true),
            status is NotFound ==> result == Ok::<bool, PassportError>(false),
            !(status is Success) && !(status is NotFound) ==> result == Err::<
                bool,
                PassportError,
            >(translated(status)),
    {
        match status {
            CredentialStatus::Success => Ok(true),
            CredentialStatus::NotFound => Ok(false),
            s => Err(PassportError::from_credential_status(s)),
        }
    }

    /// The cached existence flag. Never performs a platform call, and is
    /// only moved by a confirmed create or delete; an account created or
    /// deleted outside this instance is not noticed.
    pub fn account_exists(&self) -> (exists: bool)
        ensures
            exists == self.account_exists,
    {
        self.account_exists
    }

    /// The shared local precondition of `sign`, `get_public_key` and
    /// `delete_account`: when the cached flag is false the operation
    /// fails here, before any platform round trip, so the user never
    /// faces a consent prompt for an operation bound to fail.
    pub fn require_account(&self) -> (result: Result<(), PassportError>)
        ensures
            self.account_exists ==> result == Ok::<(), PassportError>(()),
            !self.account_exists ==> result == Err::<(), PassportError>(
                PassportError::AccountNotFound,
            ),
    {
        if self.account_exists {
            Ok(())
        } else {
            Err(PassportError::AccountNotFound)
        }
    }

    /// Complete a create request. The host sent the platform a create
    /// request — with [`crate::key_creation_option::KeyCreationOption::effective`]
    /// of the caller's option — and reports the status here; the cache is
    /// not consulted first, since "already exists" semantics belong to
    /// the platform. On success the cache records existence; on any other
    /// status the cache keeps its pre-call value and the status is
    /// translated.
    pub fn create_account(&mut self, reported: CredentialStatus) -> (result: Result<
        (),
        PassportError,
    >)
        ensures
            final(self).account_id@ == old(self).account_id@,
            reported is Success ==> (result == Ok::<(), PassportError>(())
                && final(self).account_exists),
            !(reported is Success) ==> (result == Err::<(), PassportError>(translated(reported))
                && final(self).account_exists == old(self).account_exists),
    {
        match reported {
            CredentialStatus::Success => {
                self.account_exists = true;
                Ok(())
            },
            s => Err(PassportError::from_credential_status(s)),
        }
    }

    /// Check the status of the platform "open" call that `sign` and
    /// `get_public_key` make after the local existence check: anything
    /// but success is the translated error.
    pub fn open_account(&self, status: CredentialStatus) -> (result: Result<(), PassportError>)
        ensures
            status is Success ==> result == Ok::<(), PassportError>(()),
            !(status is Success) ==> result == Err::<(), PassportError>(translated(status)),
    {
        match status {
            CredentialStatus::Success => Ok(()),
            s => Err(PassportError::from_credential_status(s)),
        }
    }

    /// Decide the outcome of a sign operation. `opened` and `signed` are
    /// the statuses of the two platform calls — opening the account and
    /// requesting the signature over the challenge — checked
    /// independently because either call can fail on its own;
    /// `signature` is the byte sequence the platform returned. The
    /// returned signature is exactly the platform's, untouched.
    pub fn sign(
        &self,
        opened: CredentialStatus,
        signed: CredentialStatus,
        signature: Vec<u8>,
    ) -> (result: Result<Vec<u8>, PassportError>)
        ensures
            !self.account_exists ==> result == Err::<Vec<u8>, PassportError>(
                PassportError::AccountNotFound,
            ),
            self.account_exists && !(opened is Success) ==> result == Err::<Vec<u8>, PassportError>(
                translated(opened),
            ),
            self.account_exists && opened is Success && !(signed is Success) ==> result == Err::<
                Vec<u8>,
                PassportError,
            >(translated(signed)),
            self.account_exists && opened is Success && signed is Success ==> (result matches Ok(s)
                && s@ == signature@),
    {
        let check = self.require_account();
        match check {
            Ok(_) => {},
            Err(e) => {
                return Err(e);
            },
        }
        match self.open_account(opened) {
            Ok(_) => {},
            Err(e) => {
                return Err(e);
            },
        }
        match signed {
            CredentialStatus::Success => Ok(signature),
            s => Err(PassportError::from_credential_status(s)),
        }
    }

    /// Decide a get-public-key operation up to the platform retrieval
    /// call: check the cached existence flag, check the status of the
    /// open call, and pick the blob type to request — the caller's
    /// encoding, defaulted to the PKCS#1 RSA public key. The retrieval
    /// primitive itself reports no status code: it returns the key bytes
    /// or propagates a platform error directly, so unlike `sign` there
    /// is no second status to check and no completion step here.
    pub fn get_public_key(
        &self,
        encoding: Option<PublicKeyEncoding>,
        opened: CredentialStatus,
    ) -> (result: Result<PublicKeyEncoding, PassportError>)
        ensures
            !self.account_exists ==> result == Err::<PublicKeyEncoding, PassportError>(
                PassportError::AccountNotFound,
            ),
            self.account_exists && !(opened is Success) ==> result == Err::<
                PublicKeyEncoding,
                PassportError,
            >(translated(opened)),
            self.account_exists && opened is Success ==> (encoding matches Some(e) ==> result
                == Ok::<PublicKeyEncoding, PassportError>(e)),
            self.account_exists && opened is Success ==> (encoding is None ==> result == Ok::<
                PublicKeyEncoding,
                PassportError,
            >(PublicKeyEncoding::Pkcs1RsaPublicKey)),
    {
        let check = self.require_account();
        match check {
            Ok(_) => {},
            Err(e) => {
                return Err(e);
            },
        }
        match self.open_account(opened) {
            Ok(_) => {},
            Err(e) => {
                return Err(e);
            },
        }
        Ok(PublicKeyEncoding::effective(encoding))
    }

    /// Complete a delete. The host checked `require_account`, asked the
    /// platform to delete the account, and saw the call complete without
    /// error — the delete primitive signals failure by a propagated
    /// error, not a status code, so completion is success. The engine
    /// re-checks the flag and clears it; on a false flag it fails
    /// locally and changes nothing.
    pub fn delete_account(&mut self) -> (result: Result<(), PassportError>)
        ensures
            final(self).account_id@ == old(self).account_id@,
            old(self).account_exists ==> (result == Ok::<(), PassportError>(())
                && !final(self).account_exists),
            !old(self).account_exists ==> (result == Err::<(), PassportError>(
                PassportError::AccountNotFound,
            ) && final(self).account_exists == old(self).account_exists),
    {
        let check = self.require_account();
        match check {
            Ok(_) => {},
            Err(e) => {
                return Err(e);
            },
        }
        self.account_exists = false;
        Ok(())
    }

    /// Map the raw outcome code of the platform consent ceremony into
    /// the closed verification-result set; a code outside the set fails
    /// with the unrecognized-verification-result error, never a guessed
    /// member. The ceremony itself — displaying the host's message and
    /// waiting on the user — is the host's platform call.
    pub fn request_verification(outcome: i32) -> (result: Result<
        VerificationResult,
        PassportError,
    >)
        ensures
            result == verification_of_code(outcome),
    {
        VerificationResult::try_from(outcome)
    }
}

} // verus!
