use vstd::prelude::*;

verus! {

/// Export format for the account's public key, mirroring the platform's
/// closed set of public-key blob types.
#[derive(Clone, Copy, Debug, PartialEq, Eq, Structural)]
pub enum PublicKeyEncoding {
    /// Generic subject-public-key-info structure.
    X509SubjectPublicKeyInfo,
    /// PKCS#1 DER-encoded RSA public key. The default, as it is the
    /// most useful for interoperability with standard crypto libraries.
    Pkcs1RsaPublicKey,
    /// Platform-native generic public-key blob.
    BCryptPublicKey,
    /// Platform-native legacy public-key blob.
    Capi1PublicKey,
    /// Elliptic-curve full-public-key blob.
    BCryptEccFullPublicKey,
}

/// The encoding that a raw platform blob-type code stands for, where
/// one does.
pub open spec fn encoding_of_code(code: i32) -> Option<PublicKeyEncoding> {
    if code == 0 {
        Some(PublicKeyEncoding::X509SubjectPublicKeyInfo)
    } else if code == 1 {
        Some(PublicKeyEncoding::Pkcs1RsaPublicKey)
    } else if code == 2 {
        Some(PublicKeyEncoding::BCryptPublicKey)
    } else if code == 3 {
        Some(PublicKeyEncoding::Capi1PublicKey)
    } else if code == 4 {
        Some(PublicKeyEncoding::BCryptEccFullPublicKey)
    } else {
        None
    }
}

impl PublicKeyEncoding {
    /// The numeric value of the platform's matching blob type.
    pub open spec fn platform_code_spec(self) -> i32 {
        match self {
            PublicKeyEncoding::X509SubjectPublicKeyInfo => 0,
            PublicKeyEncoding::Pkcs1RsaPublicKey => 1,
            PublicKeyEncoding::BCryptPublicKey => 2,
            PublicKeyEncoding::Capi1PublicKey => 3,
            PublicKeyEncoding::BCryptEccFullPublicKey => 4,
        }
    }

    /// The numeric value of the platform's matching blob type.
    pub fn platform_code(&self) -> (code: i32)
        ensures
            code == self.platform_code_spec(),
    {
        match self {
            PublicKeyEncoding::X509SubjectPublicKeyInfo => 0,
            PublicKeyEncoding::Pkcs1RsaPublicKey => 1,
            PublicKeyEncoding::BCryptPublicKey => 2,
            PublicKeyEncoding::Capi1PublicKey => 3,
            PublicKeyEncoding::BCryptEccFullPublicKey => 4,
        }
    }

    /// Read an encoding back from a raw platform blob-type code; codes
    /// outside the platform's closed set have no counterpart.
    pub fn from_platform_code(code: i32) -> (encoding: Option<PublicKeyEncoding>)
        ensures
            encoding == encoding_of_code(code),
    {
        match code {
            0 => Some(PublicKeyEncoding::X509SubjectPublicKeyInfo),
            1 => Some(PublicKeyEncoding::Pkcs1RsaPublicKey),
            2 => Some(PublicKeyEncoding::BCryptPublicKey),
            3 => Some(PublicKeyEncoding::Capi1PublicKey),
            4 => Some(PublicKeyEncoding::BCryptEccFullPublicKey),
            _ => None,
        }
    }

    /// The encoding actually requested from the platform: an absent
    /// encoding defaults to the PKCS#1 RSA public key.
    pub fn effective(encoding: Option<PublicKeyEncoding>) -> (effective: PublicKeyEncoding)
        ensures
            encoding matches Some(e) ==> effective == e,
            encoding is None ==> effective == PublicKeyEncoding::Pkcs1RsaPublicKey,
    {
        match encoding {
            Some(e) => e,
            None => PublicKeyEncoding::Pkcs1RsaPublicKey,
        }
    }
}

/// The mapping to the platform's blob types is bijective: every
/// encoding comes back unchanged from its own platform code.
pub proof fn lemma_encoding_roundtrip(encoding: PublicKeyEncoding)
    ensures
        encoding_of_code(encoding.platform_code_spec()) == Some(encoding),
{
}

} // verus!
