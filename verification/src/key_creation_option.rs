use vstd::prelude::*;

verus! {

/// Policy applied when creating a key pair in the platform credential
/// store.
#[derive(Clone, Copy, Debug, PartialEq, Eq, Structural)]
pub enum KeyCreationOption {
    /// Replace an existing key under the same account identifier.
    ReplaceExisting,
    /// Fail if a key under the same account identifier already exists.
    FailIfExists,
}

/// The option that a raw platform code stands for, where one does.
pub open spec fn creation_option_of_code(code: i32) -> Option<KeyCreationOption> {
    if code == 0 {
        Some(KeyCreationOption::ReplaceExisting)
    } else if code == 1 {
        Some(KeyCreationOption::FailIfExists)
    } else {
        None
    }
}

impl KeyCreationOption {
    /// The numeric value of the platform's matching creation option.
    pub open spec fn platform_code_spec(self) -> i32 {
        match self {
            KeyCreationOption::ReplaceExisting => 0,
            KeyCreationOption::FailIfExists => 1,
        }
    }

    /// The numeric value of the platform's matching creation option.
    pub fn platform_code(&self) -> (code: i32)
        ensures
            code == self.platform_code_spec(),
    {
        match self {
            KeyCreationOption::ReplaceExisting => 0,
            KeyCreationOption::FailIfExists => 1,
        }
    }

    /// Read an option back from a raw platform code; codes outside the
    /// platform's closed set have no counterpart.
    pub fn from_platform_code(code: i32) -> (option: Option<KeyCreationOption>)
        ensures
            option == creation_option_of_code(code),
    {
        match code {
            0 => Some(KeyCreationOption::ReplaceExisting),
            1 => Some(KeyCreationOption::FailIfExists),
            _ => None,
        }
    }

    /// The option actually sent to the platform: an absent option
    /// defaults to `ReplaceExisting`.
    pub fn effective(option: Option<KeyCreationOption>) -> (effective: KeyCreationOption)
        ensures
            option matches Some(o) ==> effective == o,
            option is None ==> effective == KeyCreationOption::ReplaceExisting,
    {
        match option {
            Some(o) => o,
            None => KeyCreationOption::ReplaceExisting,
        }
    }
}

/// The mapping to the platform's creation options is bijective: every
/// option comes back unchanged from its own platform code.
pub proof fn lemma_creation_option_roundtrip(option: KeyCreationOption)
    ensures
        creation_option_of_code(option.platform_code_spec()) == Some(option),
{
}

} // verus!
