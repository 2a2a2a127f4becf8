use vstd::prelude::*;

verus! {

/// The failure of a read, as `std::io` reports it.
#[verifier::external_type_specification]
#[verifier::external_body]
pub struct ExIoError(std::io::Error);

/// Everything that can go wrong while a world save is read.
#[derive(Debug)]
pub enum BhError {
    /// The key-value store could not be opened or walked.
    DbError(String),
    /// The world's metadata record does not have the expected shape.
    PlistError(String),
    /// A chunk could not be decompressed.
    GzipError(std::io::Error),
    /// A coordinate lies outside its axis: `input >= limit`.
    CoordError { input: u64, limit: u64 },
    /// A chunk key is not of the form `<x>_<y>`.
    ParseError(String),
    /// No block type has this code.
    InvalidBlockIdError(u8),
    /// No block content has this code.
    InvalidBlockContentIdError(u8),
    /// A table lacks a key that every save has.
    MissingKey(&'static str),
}

pub type BhResult<T> = Result<T, BhError>;

impl From<std::io::Error> for BhError {
    fn from(error: std::io::Error) -> (e: BhError) {
        BhError::GzipError(error)
    }
}

impl vstd::std_specs::convert::FromSpecImpl<std::io::Error> for BhError {
    open spec fn obeys_from_spec() -> bool {
        true
    }

    open spec fn from_spec(error: std::io::Error) -> BhError {
        BhError::GzipError(error)
    }
}

} // verus!
