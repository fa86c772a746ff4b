//! Per-account asymmetric-key credentials gated by a platform
//! biometric/PIN gesture.
//!
//! The heart of the crate is the account lifecycle engine
//! ([`Passport`](passport::Passport)): it tracks whether the named account
//! exists, decides what each operation must do, and translates every
//! platform status code into a typed error. The platform calls themselves
//! (credential store, consent prompt) are asynchronous, user-facing work
//! that a host embedding performs; the host reports each outcome back to
//! the engine as a plain value.

pub mod errors;
pub mod key_creation_option;
pub mod passport;
pub mod public_key_encoding;
pub mod status;
pub mod verification_result;

pub use errors::PassportError;
pub use key_creation_option::KeyCreationOption;
pub use passport::Passport;
pub use public_key_encoding::PublicKeyEncoding;
pub use status::CredentialStatus;
pub use verification_result::VerificationResult;
