//! The one error type of the library's operations.
use vstd::prelude::*;

verus! {

/// Why an operation could not be carried out.
#[derive(Clone, Copy, Debug, PartialEq, Eq, Structural)]
pub enum CoreError {
    /// The uploaded bytes are empty or not a recognizable image.
    Decode,
    /// The referenced image is not in the store.
    NotFound,
    /// A random image was needed but the store holds none.
    EmptyCatalog,
    /// Producing the output bytes failed.
    Encode,
    /// A requested canvas has a zero side, or is too large to allocate.
    InvalidSize,
    /// An upload's title is empty once surrounding whitespace is removed.
    MissingTitle,
}

impl CoreError {
    /// HTTP status class of the error: caller mistakes are 4xx, missing data
    /// 404, internal failures 500.
    pub open spec fn status_spec(self) -> u16 {
        match self {
            CoreError::Decode => 400,
            CoreError::InvalidSize => 400,
            CoreError::MissingTitle => 400,
            CoreError::NotFound => 404,
            CoreError::EmptyCatalog => 404,
            CoreError::Encode => 500,
        }
    }

    /// The HTTP status with which the error is reported.
    pub fn status(&self) -> (r: u16)
        ensures
            r == self.status_spec(),
    {
        match self {
            CoreError::Decode => 400,
            CoreError::InvalidSize => 400,
            CoreError::MissingTitle => 400,
            CoreError::NotFound => 404,
            CoreError::EmptyCatalog => 404,
            CoreError::Encode => 500,
        }
    }
}

} // verus!
