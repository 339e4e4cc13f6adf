//! The ways in which a federation operation ends without a result.

use vstd::prelude::*;
use vstd::string::StringExecFns;

verus! {

/// Why an operation was abandoned.
#[derive(Clone, Copy, Debug, PartialEq, Eq, Structural)]
pub enum ApubError {
    /// A record that the operation refers to by id is not in storage.
    NotFound,
    /// A federation identity is not a URI.
    InvalidUri,
    /// A received object lacks a field that it must carry.
    MissingField,
    /// A received object lacks the block of flags that every post carries.
    MissingExtension,
    /// A remote actor could not be resolved.
    RemoteFetchFailed,
    /// At least one recipient did not take the activity.
    DeliveryFailed,
    /// A tombstone was asked for an entity that is not deleted.
    NotDeleted,
    /// The id in a request is not a number that fits the id type.
    InvalidId,
}

impl ApubError {
    /// The text shown for each error.
    pub open spec fn spec_message(self) -> Seq<char> {
        match self {
            ApubError::NotFound => "record not found"@,
            ApubError::InvalidUri => "invalid uri"@,
            ApubError::MissingField => "missing field"@,
            ApubError::MissingExtension => "missing extension"@,
            ApubError::RemoteFetchFailed => "remote fetch failed"@,
            ApubError::DeliveryFailed => "delivery failed"@,
            ApubError::NotDeleted => "entity is not deleted"@,
            ApubError::InvalidId => "invalid id"@,
        }
    }

    /// A short description, for logs and responses.
    pub fn message(&self) -> (text: String)
        ensures
            text@ == self.spec_message(),
    {
        match self {
            ApubError::NotFound => String::from_str("record not found"),
            ApubError::InvalidUri => String::from_str("invalid uri"),
            ApubError::MissingField => String::from_str("missing field"),
            ApubError::MissingExtension => String::from_str("missing extension"),
            ApubError::RemoteFetchFailed => String::from_str("remote fetch failed"),
            ApubError::DeliveryFailed => String::from_str("delivery failed"),
            ApubError::NotDeleted => String::from_str("entity is not deleted"),
            ApubError::InvalidId => String::from_str("invalid id"),
        }
    }

    /// The HTTP status under which each error is reported.
    pub open spec fn spec_status(self) -> u16 {
        match self {
            ApubError::NotFound => 404,
            ApubError::InvalidId => 400,
            _ => 500,
        }
    }

    /// The HTTP status under which the error is reported: 404 for what is
    /// not there, 400 for a request that names no id, 500 for the rest.
    pub fn status(&self) -> (status: u16)
        ensures
            status == self.spec_status(),
    {
        match self {
            ApubError::NotFound => 404,
            ApubError::InvalidId => 400,
            _ => 500,
        }
    }
}

/// The view of what an operation returned.
pub open spec fn outcome_view<T: View>(outcome: Result<T, ApubError>) -> Result<T::V, ApubError> {
    match outcome {
        Ok(value) => Ok(value@),
        Err(e) => Err(e),
    }
}

} // verus!
