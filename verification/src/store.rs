use crate::response::Status;
use vstd::prelude::*;

verus! {

/// Why the list of articles could not be read or extended.
#[derive(Debug, Clone, Copy, PartialEq, Eq)]
pub enum StoreError {
    /// The file of the list is not there.
    NotFound,
    /// The file does not hold a well-formed list of articles.
    ParseError,
    /// The file could not be read, or not be opened or written for an
    /// addition.
    IoError,
    /// The article cannot be put into the form in which the list is kept.
    SerializeError,
}

/// The status that tells a client of a failed addition to the list: an
/// article that cannot be encoded is the client's fault, everything else
/// the server's.
pub open spec fn failure_status(error: StoreError) -> Status {
    match error {
        StoreError::SerializeError => Status::BadRequest,
        _ => Status::InternalServerError,
    }
}

/// Why a file could not be read: because it is not there, or for
/// another reason.
pub open spec fn read_failure_of(file_missing: bool) -> StoreError {
    if file_missing {
        StoreError::NotFound
    } else {
        StoreError::IoError
    }
}

/// Names the failure to read a file, given whether the file system
/// reported the file as missing.
pub fn read_failure(file_missing: bool) -> (error: StoreError)
    ensures
        error == read_failure_of(file_missing),
{
    if file_missing {
        StoreError::NotFound
    } else {
        StoreError::IoError
    }
}

impl StoreError {
    /// The status that tells a client of this failure to add an article.
    pub fn status(&self) -> (status: Status)
        ensures
            status == failure_status(*self),
    {
        match self {
            StoreError::SerializeError => Status::BadRequest,
            _ => Status::InternalServerError,
        }
    }
}

} // verus!
