//! Error types for database loading and capability expansion.

use vstd::prelude::*;

verus! {

/// Declares [`std::io::Error`] so that a value of it can be carried in
/// [`Error::Io`]; the value is opaque to the verifier.
#[verifier::external_type_specification]
#[verifier::external_body]
pub struct ExIoError(std::io::Error);

/// Top-level error of the library.
#[derive(Debug)]
pub enum Error {
    /// An I/O error while reading a database file.
    Io(std::io::Error),
    /// No capability database was found.
    NotFound,
    /// The capability database could not be parsed.
    Parse,
    /// A string capability could not be expanded.
    Expand(Expand),
}

/// An error raised while expanding a string capability.
#[derive(Eq, PartialEq, Copy, Clone, Debug)]
pub enum Expand {
    /// A pop was attempted on an empty stack.
    StackUnderflow,
    /// A number stood where a string was needed, or the other way round.
    TypeMismatch,
    /// An unknown byte followed `%` (the byte is carried for diagnostics).
    UnrecognizedFormatOption(u8),
    /// A variable name outside `A..Z` and `a..z`.
    InvalidVariableName(u8),
    /// A parameter index outside `1..9`.
    InvalidParameterIndex(u8),
    /// A character constant without its closing quote.
    MalformedCharacterConstant,
    /// An integer constant overflowed its 32-bit range.
    IntegerConstantOverflow,
    /// A non-digit inside an integer constant.
    MalformedIntegerConstant,
    /// A format width overflowed its 32-bit range.
    FormatWidthOverflow,
    /// A format precision overflowed its 32-bit range.
    FormatPrecisionOverflow,
}

impl Expand {
    /// The message describing this error.
    pub open spec fn spec_description(&self) -> &'static str {
        match *self {
            Expand::StackUnderflow => "Not enough elements on the stack.",
            Expand::TypeMismatch => "Type mismatch.",
            Expand::UnrecognizedFormatOption(..) => "Unrecognized format option.",
            Expand::InvalidVariableName(..) => "Invalid variable name.",
            Expand::InvalidParameterIndex(..) => "Invalid parameter index.",
            Expand::MalformedCharacterConstant => "Malformed character constant.",
            Expand::IntegerConstantOverflow => "Integer constant computation overflowed.",
            Expand::MalformedIntegerConstant => "Malformed integer constant.",
            Expand::FormatWidthOverflow => "Format width constant computation overflowed.",
            Expand::FormatPrecisionOverflow => "Format precision constant computation overflowed.",
        }
    }

    /// The message describing this error.
    pub fn description(&self) -> (r: &'static str)
        ensures
            r == self.spec_description(),
    {
        match *self {
            Expand::StackUnderflow => "Not enough elements on the stack.",
            Expand::TypeMismatch => "Type mismatch.",
            Expand::UnrecognizedFormatOption(..) => "Unrecognized format option.",
            Expand::InvalidVariableName(..) => "Invalid variable name.",
            Expand::InvalidParameterIndex(..) => "Invalid parameter index.",
            Expand::MalformedCharacterConstant => "Malformed character constant.",
            Expand::IntegerConstantOverflow => "Integer constant computation overflowed.",
            Expand::MalformedIntegerConstant => "Malformed integer constant.",
            Expand::FormatWidthOverflow => "Format width constant computation overflowed.",
            Expand::FormatPrecisionOverflow => "Format precision constant computation overflowed.",
        }
    }
}

impl Error {
    /// The message describing this error.
    pub open spec fn spec_description(&self) -> &'static str {
        match *self {
            Error::Io(_) => "I/O error.",
            Error::NotFound => "Capability database not found.",
            Error::Parse => "Failed to parse capability database.",
            Error::Expand(e) => e.spec_description(),
        }
    }

    /// The message describing this error.
    pub fn description(&self) -> (r: &'static str)
        ensures
            r == self.spec_description(),
    {
        match *self {
            Error::Io(_) => "I/O error.",
            Error::NotFound => "Capability database not found.",
            Error::Parse => "Failed to parse capability database.",
            Error::Expand(ref e) => e.description(),
        }
    }
}

impl From<std::io::Error> for Error {
    /// Wraps an I/O error in the top-level error.
    fn from(value: std::io::Error) -> (r: Error) {
        Error::Io(value)
    }
}

impl vstd::std_specs::convert::FromSpecImpl<std::io::Error> for Error {
    open spec fn obeys_from_spec() -> bool {
        true
    }

    open spec fn from_spec(value: std::io::Error) -> Error {
        Error::Io(value)
    }
}

impl From<Expand> for Error {
    /// Wraps an expansion error in the top-level error.
    fn from(value: Expand) -> (r: Error) {
        Error::Expand(value)
    }
}

impl vstd::std_specs::convert::FromSpecImpl<Expand> for Error {
    open spec fn obeys_from_spec() -> bool {
        true
    }

    open spec fn from_spec(value: Expand) -> Error {
        Error::Expand(value)
    }
}

} // verus!
