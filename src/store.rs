//! What the record store reports, and how adding a work reads its report.

use vstd::prelude::*;

verus! {

/// Why the record store refused an operation.
#[derive(Clone, Debug)]
pub enum StoreError {
    /// A record with that identifier is stored already.
    AlreadyExists,
    /// No record with that identifier is stored.
    NotFound,
    /// The store itself failed, with its message.
    Backend(String),
}

/// How adding a work to the library ended.
#[derive(Clone, Copy, Debug, PartialEq, Eq, Structural)]
pub enum AddOutcome {
    Added,
    /// The work was in the library already; adding it again is no error.
    AlreadyInLibrary,
}

/// Reads the store's answer to inserting a new record: a duplicate is the
/// work being in the library already, any other failure is passed on.
pub fn add_outcome(insert_result: Result<(), StoreError>) -> (r: Result<AddOutcome, StoreError>)
    ensures
        match insert_result {
            Ok(()) => r == Ok::<AddOutcome, StoreError>(AddOutcome::Added),
            Err(StoreError::AlreadyExists) => r == Ok::<AddOutcome, StoreError>(AddOutcome::AlreadyInLibrary),
            Err(e) => r == Err::<AddOutcome, StoreError>(e),
        },
{
    match insert_result {
        Ok(()) => Ok(AddOutcome::Added),
        Err(StoreError::AlreadyExists) => Ok(AddOutcome::AlreadyInLibrary),
        Err(e) => Err(e),
    }
}

} // verus!
