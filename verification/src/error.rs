use vstd::prelude::*;
use crate::strutil::str_to_string;

verus! {

/// Everything that can go wrong while reading, combining or reporting on
/// measurement documents. `InvariantViolation` replaces the aborts that
/// earlier tooling used for "cannot happen" lookups, so no operation here
/// terminates the process.
#[derive(Debug, Clone, PartialEq, Eq)]
pub enum Error {
    CannotCompare,
    EmptyFile,
    FileError,
    FormatDataMismatch,
    IncompleteData,
    InvalidID,
    InvariantViolation,
    NoData,
    NoDataFormat,
    UnknownVendor,
    UnknownFormatType,
    WriteError,
    Other(String),
}

impl Error {
    /// A short human-readable account of the error.
    pub fn description(&self) -> String {
        match self {
            Error::CannotCompare => str_to_string("Cannot compare data sets!"),
            Error::EmptyFile => str_to_string("File is empty!"),
            Error::FileError => str_to_string("Problem reading file!"),
            Error::FormatDataMismatch => str_to_string(
                "DATA length does not match DATA_FORMAT length!",
            ),
            Error::IncompleteData => str_to_string("Not enough data for the calculation!"),
            Error::InvalidID => str_to_string("SAMPLE_ID is not an integer!"),
            Error::InvariantViolation => str_to_string("Internal invariant violated!"),
            Error::NoData => str_to_string("DATA not found!"),
            Error::NoDataFormat => str_to_string("DATA_FORMAT tag not found!"),
            Error::UnknownVendor => str_to_string("Cannot determine Vendor!"),
            Error::UnknownFormatType => str_to_string("Unknown Data Field Type!"),
            Error::WriteError => str_to_string("Problem writing to file!"),
            Error::Other(message) => message.clone(),
        }
    }
}

} // verus!
