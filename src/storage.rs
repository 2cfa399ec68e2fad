//! What the service makes of the answers of its storage: failures classified,
//! stored rows validated again on their way out, deletions counted.
use vstd::prelude::*;
use crate::domain::{Facility, FacilityError};
use crate::models;

verus! {

/// A failed storage operation.
#[derive(Clone, Copy, Debug, PartialEq, Eq)]
pub enum StorageError {
    /// No record has the requested uid.
    NotFound,
    /// A record with the same uid exists already.
    UniqueConflict,
    /// A stored record does not validate as a facility.
    Inconsistent(FacilityError),
    /// Any other failure of the storage.
    Other,
}

impl StorageError {
    /// The HTTP status that reports this failure to a client.
    pub fn status_code(&self) -> (r: u16)
        ensures
            r == match *self {
                StorageError::NotFound => 404u16,
                StorageError::UniqueConflict => 409u16,
                _ => 500u16,
            },
    {
        match self {
            StorageError::NotFound => 404,
            StorageError::UniqueConflict => 409,
            _ => 500,
        }
    }
}

/// Whether `r` is what validating a fetched row owes.
pub open spec fn read_back(row: models::Facility, r: Result<Facility, StorageError>) -> bool {
    match row.error() {
        Some(e) => r == Err::<Facility, StorageError>(StorageError::Inconsistent(e)),
        None => r matches Ok(f) && row.is_held_by(f),
    }
}

/// Completes a read by uid from what the storage returned: a fetched row is
/// validated, and one that does not validate is reported, not trusted.
pub fn read_facility(fetched: Result<models::Facility, StorageError>) -> (r: Result<
    Facility,
    StorageError,
>)
    ensures
        match fetched {
            Ok(row) => read_back(row, r),
            Err(e) => r == Err::<Facility, StorageError>(e),
        },
{
    match fetched {
        Ok(row) => match row.to_domain() {
            Ok(f) => Ok(f),
            Err(e) => Err(StorageError::Inconsistent(e)),
        },
        Err(e) => Err(e),
    }
}

/// Whether every row of `rows` validates.
pub open spec fn all_valid(rows: Seq<models::Facility>) -> bool {
    forall|i: int| 0 <= i < rows.len() ==> (#[trigger] rows[i]).error() is None
}

/// Completes a listing from what the storage returned: every row is validated
/// in order; the first that does not validate fails the listing.
pub fn list_facilities(fetched: Result<Vec<models::Facility>, StorageError>) -> (r: Result<
    Vec<Facility>,
    StorageError,
>)
    ensures
        match fetched {
            Err(e) => r == Err::<Vec<Facility>, StorageError>(e),
            Ok(rows) => if all_valid(rows@) {
                r matches Ok(v) && v@.len() == rows@.len() && forall|i: int|
                    0 <= i < rows@.len() ==> (#[trigger] rows@[i]).is_held_by(v@[i])
            } else {
                exists|k: int|
                    {
                        &&& 0 <= k < rows@.len()
                        &&& all_valid(rows@.take(k))
                        &&& (#[trigger] rows@[k].error()) is Some
                        &&& r == Err::<Vec<Facility>, StorageError>(
                            StorageError::Inconsistent(rows@[k].error()->0),
                        )
                    }
            },
        },
{
    let rows = match fetched {
        Ok(rows) => rows,
        Err(e) => return Err(e),
    };
    let mut out: Vec<Facility> = Vec::new();
    let mut i: usize = 0;
    while i < rows.len()
        invariant
            fetched == Ok::<Vec<models::Facility>, StorageError>(rows),
            0 <= i <= rows@.len(),
            out@.len() == i,
            all_valid(rows@.take(i as int)),
            forall|j: int| 0 <= j < i ==> (#[trigger] rows@[j]).is_held_by(out@[j]),
        decreases rows@.len() - i,
    {
        match rows[i].to_domain() {
            Ok(f) => {
                out.push(f);
            },
            Err(e) => {
                assert(rows@[i as int].error() == Some(e));
                return Err(StorageError::Inconsistent(e));
            },
        }
        assert(rows@.take(i as int + 1) =~= rows@.take(i as int).push(rows@[i as int]));
        i = i + 1;
    }
    assert(rows@.take(i as int) =~= rows@);
    Ok(out)
}

/// Completes a deletion by uid from the number of records the storage removed:
/// none means the uid was not found, and more than one breaks the uniqueness of
/// uids.
pub fn delete_facility(deleted: Result<usize, StorageError>) -> (r: Result<(), StorageError>)
    ensures
        match deleted {
            Ok(n) => r == if n == 0 {
                Err::<(), StorageError>(StorageError::NotFound)
            } else if n == 1 {
                Ok::<(), StorageError>(())
            } else {
                Err::<(), StorageError>(StorageError::Other)
            },
            Err(e) => r == Err::<(), StorageError>(e),
        },
{
    match deleted {
        Ok(0) => Err(StorageError::NotFound),
        Ok(1) => Ok(()),
        Ok(_) => Err(StorageError::Other),
        Err(e) => Err(e),
    }
}

} // verus!
