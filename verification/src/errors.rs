//! The errors of the registry: a kind together with the offending key.

use vstd::prelude::*;

verus! {

/// Why an operation on the registry failed.
///
/// Each variant that concerns a record carries the identifier that was
/// looked for or that collided, so that a caller can report it without
/// parsing a message.
#[derive(Clone, Copy, Debug, PartialEq, Eq)]
pub enum WalletError {
    /// No wallet with this identifier is in the collection.
    NotFound(u64),
    /// A wallet with this identifier is already in the collection, or the
    /// collection holds this identifier and no larger one can be assigned.
    Conflict(u64),
    /// The wallet already has an address with this identifier.
    DuplicateAddress(Option<u64>),
    /// The wallet has no address with this identifier.
    AddressNotFound(Option<u64>),
    /// A record could not be turned into its wire form.
    SerializationFailure,
    /// The service is shutting down, or the store was left half-changed by
    /// an operation that ended abnormally.
    ServiceUnavailable,
}

impl WalletError {
    /// The HTTP status that stands for this error.
    pub open spec fn spec_status_code(self) -> u16 {
        match self {
            WalletError::NotFound(_) => 404,
            WalletError::AddressNotFound(_) => 404,
            WalletError::Conflict(_) => 500,
            WalletError::DuplicateAddress(_) => 500,
            WalletError::SerializationFailure => 500,
            WalletError::ServiceUnavailable => 503,
        }
    }

    /// The identifier that caused the error, where one did.
    pub open spec fn spec_key(self) -> Option<u64> {
        match self {
            WalletError::NotFound(id) => Some(id),
            WalletError::Conflict(id) => Some(id),
            WalletError::DuplicateAddress(id) => id,
            WalletError::AddressNotFound(id) => id,
            WalletError::SerializationFailure => None,
            WalletError::ServiceUnavailable => None,
        }
    }

    /// The HTTP status that stands for this error.
    pub fn status_code(&self) -> (code: u16)
        ensures
            code == self.spec_status_code(),
    {
        match self {
            WalletError::NotFound(_) => 404,
            WalletError::AddressNotFound(_) => 404,
            WalletError::Conflict(_) => 500,
            WalletError::DuplicateAddress(_) => 500,
            WalletError::SerializationFailure => 500,
            WalletError::ServiceUnavailable => 503,
        }
    }

    /// The identifier that caused the error, where one did.
    pub fn key(&self) -> (key: Option<u64>)
        ensures
            key == self.spec_key(),
    {
        match self {
            WalletError::NotFound(id) => Some(*id),
            WalletError::Conflict(id) => Some(*id),
            WalletError::DuplicateAddress(id) => *id,
            WalletError::AddressNotFound(id) => *id,
            WalletError::SerializationFailure => None,
            WalletError::ServiceUnavailable => None,
        }
    }
}

/// The HTTP status of an outcome: 200 for a success, the error's own
/// status otherwise.
pub open spec fn spec_status_of<T>(outcome: Result<T, WalletError>) -> u16 {
    match outcome {
        Ok(_) => 200,
        Err(error) => error.spec_status_code(),
    }
}

/// The HTTP status of an outcome: 200 for a success, the error's own
/// status otherwise.
pub fn status_of<T>(outcome: &Result<T, WalletError>) -> (code: u16)
    ensures
        code == spec_status_of(*outcome),
{
    match outcome {
        Ok(_) => 200,
        Err(error) => error.status_code(),
    }
}

} // verus!
