//! The ways in which a store operation can fail.

use vstd::prelude::*;

verus! {

/// Why a store operation did not complete.
#[derive(Debug, Clone, Copy, PartialEq, Eq, Structural)]
pub enum EventStoreError {
    /// The backend could not complete a read or a write.
    StorageError,
    /// A stored payload is not the text of any event of the expected type.
    DecodeError,
    /// The aggregate was loaded at a sequence that is no longer the head of
    /// its history.
    ConcurrencyError,
}

impl EventStoreError {
    /// A short description of the failure.
    pub fn message(&self) -> (text: String)
        ensures
            text@ == (match *self {
                EventStoreError::StorageError => "storage error"@,
                EventStoreError::DecodeError => "decode error"@,
                EventStoreError::ConcurrencyError => "concurrency error"@,
            }),
    {
        match self {
            EventStoreError::StorageError => "storage error".to_string(),
            EventStoreError::DecodeError => "decode error".to_string(),
            EventStoreError::ConcurrencyError => "concurrency error".to_string(),
        }
    }
}

} // verus!
