use ms_passport::errors::PassportError;
use ms_passport::key_creation_option::KeyCreationOption;
use ms_passport::public_key_encoding::PublicKeyEncoding;
use ms_passport::status::CredentialStatus;
use ms_passport::Passport;

/// A scripted stand-in for the platform credential store. It records how
/// often each primitive was invoked, so tests can check that locally
/// rejected operations never reach the platform.
struct StubStore {
    open_status: CredentialStatus,
    sign_status: CredentialStatus,
    signature: Vec<u8>,
    create_status: CredentialStatus,
    open_calls: usize,
    sign_calls: usize,
    create_calls: usize,
    delete_calls: usize,
    retrieve_calls: usize,
}

impl StubStore {
    fn new() -> StubStore {
        StubStore {
            open_status: CredentialStatus::Success,
            sign_status: CredentialStatus::Success,
            signature: Vec::new(),
            create_status: CredentialStatus::Success,
            open_calls: 0,
            sign_calls: 0,
            create_calls: 0,
            delete_calls: 0,
            retrieve_calls: 0,
        }
    }

    fn open(&mut self) -> CredentialStatus {
        self.open_calls += 1;
        self.open_status
    }

    fn request_create(&mut self, _option: KeyCreationOption) -> CredentialStatus {
        self.create_calls += 1;
        self.create_status
    }

    fn request_sign(&mut self, _challenge: &[u8]) -> (CredentialStatus, Vec<u8>) {
        self.sign_calls += 1;
        (self.sign_status, self.signature.clone())
    }

    fn retrieve_public_key(&mut self, _encoding: PublicKeyEncoding) -> Vec<u8> {
        self.retrieve_calls += 1;
        vec![0x30, 0x82]
    }

    fn delete(&mut self) {
        self.delete_calls += 1;
    }

    fn total_calls(&self) -> usize {
        self.open_calls + self.sign_calls + self.create_calls + self.delete_calls
            + self.retrieve_calls
    }
}

/// The host flow for create, as the engine documents it.
fn host_create(
    passport: &mut Passport,
    store: &mut StubStore,
    option: Option<KeyCreationOption>,
) -> Result<(), PassportError> {
    let effective = KeyCreationOption::effective(option);
    let reported = store.request_create(effective);
    passport.create_account(reported)
}

/// The host flow for sign: local guard, open, then the signing call.
fn host_sign(
    passport: &Passport,
    store: &mut StubStore,
    challenge: &[u8],
) -> Result<Vec<u8>, PassportError> {
    passport.require_account()?;
    let opened = store.open();
    passport.open_account(opened)?;
    let (signed, signature) = store.request_sign(challenge);
    passport.sign(opened, signed, signature)
}

/// The host flow for get-public-key: local guard, open, pick the blob
/// type, then the retrieval call (which reports no status).
fn host_get_public_key(
    passport: &Passport,
    store: &mut StubStore,
    encoding: Option<PublicKeyEncoding>,
) -> Result<Vec<u8>, PassportError> {
    passport.require_account()?;
    let opened = store.open();
    let blob_type = passport.get_public_key(encoding, opened)?;
    Ok(store.retrieve_public_key(blob_type))
}

/// The host flow for delete: local guard, the delete call, then the
/// cache update.
fn host_delete(passport: &mut Passport, store: &mut StubStore) -> Result<(), PassportError> {
    passport.require_account()?;
    store.delete();
    passport.delete_account()
}

#[test]
fn construction_reflects_probe_success() {
    let passport = Passport::new("acct".to_string(), CredentialStatus::Success).unwrap();
    assert!(passport.account_exists());
}

#[test]
fn construction_reflects_probe_not_found() {
    let passport = Passport::new("acct".to_string(), CredentialStatus::NotFound).unwrap();
    assert!(!passport.account_exists());
}

#[test]
fn construction_fails_on_other_statuses() {
    let made = Passport::new("acct".to_string(), CredentialStatus::SecurityDeviceLocked);
    assert_eq!(made.err(), Some(PassportError::SecurityDeviceLocked));
    let made = Passport::new("acct".to_string(), CredentialStatus::Other(13));
    assert_eq!(made.err(), Some(PassportError::Unknown(13)));
}

#[test]
fn account_with_id_exists_classifies_statuses() {
    assert_eq!(
        Passport::account_with_id_exists(CredentialStatus::Success),
        Ok(true)
    );
    assert_eq!(
        Passport::account_with_id_exists(CredentialStatus::NotFound),
        Ok(false)
    );
    assert_eq!(
        Passport::account_with_id_exists(CredentialStatus::UserCanceled),
        Err(PassportError::UserCancelled)
    );
}

#[test]
fn create_success_sets_cache_for_every_option() {
    for option in [
        None,
        Some(KeyCreationOption::ReplaceExisting),
        Some(KeyCreationOption::FailIfExists),
    ] {
        let mut passport = Passport::new("acct".to_string(), CredentialStatus::NotFound).unwrap();
        let mut store = StubStore::new();
        assert_eq!(host_create(&mut passport, &mut store, option), Ok(()));
        assert!(passport.account_exists());
        assert_eq!(store.create_calls, 1);
    }
}

#[test]
fn create_failure_keeps_cache_and_translates() {
    let failures = [
        (
            CredentialStatus::UserCanceled,
            PassportError::UserCancelled,
        ),
        (CredentialStatus::NotFound, PassportError::NotFound),
        (
            CredentialStatus::UserPrefersPassword,
            PassportError::UserPrefersPassword,
        ),
        (
            CredentialStatus::CredentialAlreadyExists,
            PassportError::CredentialAlreadyExists,
        ),
        (
            CredentialStatus::SecurityDeviceLocked,
            PassportError::SecurityDeviceLocked,
        ),
        (CredentialStatus::Other(99), PassportError::Unknown(99)),
    ];
    for (status, expected) in failures {
        // From a cache that says "does not exist" ...
        let mut passport = Passport::new("acct".to_string(), CredentialStatus::NotFound).unwrap();
        let mut store = StubStore::new();
        store.create_status = status;
        assert_eq!(
            host_create(&mut passport, &mut store, None),
            Err(expected)
        );
        assert!(!passport.account_exists());

        // ... and from a cache that says "exists": unchanged either way.
        let mut passport = Passport::new("acct".to_string(), CredentialStatus::Success).unwrap();
        let mut store = StubStore::new();
        store.create_status = status;
        assert_eq!(
            host_create(&mut passport, &mut store, None),
            Err(expected)
        );
        assert!(passport.account_exists());
    }
}

#[test]
fn guarded_operations_fail_locally_without_platform_calls() {
    let mut passport = Passport::new("acct".to_string(), CredentialStatus::NotFound).unwrap();
    let mut store = StubStore::new();

    assert_eq!(
        host_sign(&passport, &mut store, b"challenge"),
        Err(PassportError::AccountNotFound)
    );
    assert_eq!(
        host_get_public_key(&passport, &mut store, None),
        Err(PassportError::AccountNotFound)
    );
    assert_eq!(
        host_delete(&mut passport, &mut store),
        Err(PassportError::AccountNotFound)
    );
    assert_eq!(store.total_calls(), 0);
    assert!(!passport.account_exists());
}

#[test]
fn sign_checks_both_statuses_independently() {
    let passport = Passport::new("acct".to_string(), CredentialStatus::Success).unwrap();

    let mut store = StubStore::new();
    store.open_status = CredentialStatus::SecurityDeviceLocked;
    assert_eq!(
        host_sign(&passport, &mut store, b"challenge"),
        Err(PassportError::SecurityDeviceLocked)
    );
    // The open call failed, so signing was never requested.
    assert_eq!(store.sign_calls, 0);

    let mut store = StubStore::new();
    store.sign_status = CredentialStatus::UserCanceled;
    assert_eq!(
        host_sign(&passport, &mut store, b"challenge"),
        Err(PassportError::UserCancelled)
    );
    assert_eq!(store.open_calls, 1);
    assert_eq!(store.sign_calls, 1);
}

#[test]
fn get_public_key_requests_the_chosen_encoding() {
    let passport = Passport::new("acct".to_string(), CredentialStatus::Success).unwrap();
    assert_eq!(
        passport.get_public_key(None, CredentialStatus::Success),
        Ok(PublicKeyEncoding::Pkcs1RsaPublicKey)
    );
    assert_eq!(
        passport.get_public_key(
            Some(PublicKeyEncoding::BCryptEccFullPublicKey),
            CredentialStatus::Success
        ),
        Ok(PublicKeyEncoding::BCryptEccFullPublicKey)
    );
    assert_eq!(
        passport.get_public_key(None, CredentialStatus::UserPrefersPassword),
        Err(PassportError::UserPrefersPassword)
    );
}

#[test]
fn end_to_end_create_then_sign() {
    // Probe: the account does not exist yet.
    let mut passport = Passport::new("acct1".to_string(), CredentialStatus::NotFound).unwrap();
    assert!(!passport.account_exists());

    // Signing is rejected locally, before any platform call.
    let mut store = StubStore::new();
    assert_eq!(
        host_sign(&passport, &mut store, b"challenge"),
        Err(PassportError::AccountNotFound)
    );
    assert_eq!(store.total_calls(), 0);

    // The platform confirms creation.
    assert_eq!(
        host_create(
            &mut passport,
            &mut store,
            Some(KeyCreationOption::FailIfExists)
        ),
        Ok(())
    );
    assert!(passport.account_exists());

    // Signing now succeeds and returns exactly the platform's bytes.
    let signature = vec![0xde, 0xad, 0xbe, 0xef];
    store.signature = signature.clone();
    assert_eq!(
        host_sign(&passport, &mut store, b"challenge"),
        Ok(signature)
    );
}

#[test]
fn end_to_end_delete_then_get_public_key() {
    let mut passport = Passport::new("acct1".to_string(), CredentialStatus::Success).unwrap();
    assert!(passport.account_exists());

    let mut store = StubStore::new();
    assert_eq!(host_delete(&mut passport, &mut store), Ok(()));
    assert_eq!(store.delete_calls, 1);
    assert!(!passport.account_exists());

    let calls_before = store.total_calls();
    assert_eq!(
        host_get_public_key(&passport, &mut store, None),
        Err(PassportError::AccountNotFound)
    );
    assert_eq!(store.total_calls(), calls_before);
}
