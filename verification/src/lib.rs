//! Reading the section header table of a COFF/PE object file.
//!
//! All multi-byte fields of the on-disk records are little-endian. Every
//! accessor checks bounds against the borrowed file buffer and reports a
//! failure instead of reading out of range; returned byte ranges borrow
//! directly from the buffer.

use vstd::prelude::*;

pub mod bytes;
pub mod kind;
pub mod name;
pub mod pe;
pub mod reloc;
pub mod strtab;
pub mod table;
pub mod view;

verus! {

/// The reasons an accessor of this crate can fail.
#[derive(Clone, Copy, Debug, PartialEq, Eq, Structural)]
pub enum Error {
    /// A record, array or byte range lies partly outside the file buffer.
    OutOfBounds,
    /// A section index is zero or past the end of the table.
    InvalidIndex,
    /// A long-name field holds a byte that is not a base-64 digit.
    InvalidBase64Name,
    /// A long-name field holds a byte that is neither a decimal digit nor a terminator.
    InvalidBase10Name,
    /// A decoded long-name offset does not resolve inside the string table.
    InvalidStringOffset,
    /// A decoded name is not valid UTF-8 text.
    InvalidText,
}

/// The short description that goes with each failure.
pub open spec fn spec_message(e: Error) -> Seq<char> {
    match e {
        Error::OutOfBounds => "read past the end of the file buffer"@,
        Error::InvalidIndex => "invalid section index"@,
        Error::InvalidBase64Name => "invalid section name base-64 offset"@,
        Error::InvalidBase10Name => "invalid section name base-10 offset"@,
        Error::InvalidStringOffset => "invalid section name offset"@,
        Error::InvalidText => "section name is not valid text"@,
    }
}

impl Error {
    /// A short description of the failure.
    pub fn message(&self) -> (m: &'static str)
        ensures
            m@ == spec_message(*self),
    {
        match *self {
            Error::OutOfBounds => "read past the end of the file buffer",
            Error::InvalidIndex => "invalid section index",
            Error::InvalidBase64Name => "invalid section name base-64 offset",
            Error::InvalidBase10Name => "invalid section name base-10 offset",
            Error::InvalidStringOffset => "invalid section name offset",
            Error::InvalidText => "section name is not valid text",
        }
    }
}

} // verus!
