//! The failures that parsing a duration string or a unit token can report.

use vstd::prelude::*;
use vstd::string::StringExecFns;

verus! {

/// A failure reported by the duration-string or unit-token parsers.
///
/// Every failure is returned to the immediate caller; none is retried and
/// none aborts the process.
#[derive(Debug, PartialEq, Eq, Clone)]
pub enum Error {
    /// The input does not match the duration grammar (wrong shape, unknown
    /// short unit code, extra characters, empty string, or a digit run too
    /// large for a 64-bit value); carries a descriptive message.
    Syntax(String),
    /// A token reached unit-alias resolution but matched none of the
    /// recognized aliases; carries a message naming the offending token.
    UnitNotSupported(String),
    /// Reserved for stricter grammars that check the unit's presence on its
    /// own; the current grammar never reports it.
    NoUnitProvided,
    /// Reserved for stricter grammars that check the value's presence on its
    /// own; the current grammar never reports it.
    NoValueProvided,
    /// Marker for a captures-extraction failure after a successful grammar
    /// match; unreachable, and treated as an invariant violation.
    StringDoesNotMatchRegex,
}

/// The human-readable message that [`Error::message`] returns.
pub open spec fn spec_message(e: Error) -> Seq<char> {
    match e {
        Error::Syntax(m) => m@,
        Error::UnitNotSupported(m) => m@,
        Error::NoUnitProvided => "No unit provided"@,
        Error::NoValueProvided => "No value provided"@,
        Error::StringDoesNotMatchRegex => "String does not match regex"@,
    }
}

impl Error {
    /// The human-readable message carried by this failure.
    pub fn message(&self) -> (r: String)
        ensures
            r@ == spec_message(*self),
    {
        match self {
            Error::Syntax(m) => m.clone(),
            Error::UnitNotSupported(m) => m.clone(),
            Error::NoUnitProvided => String::from_str("No unit provided"),
            Error::NoValueProvided => String::from_str("No value provided"),
            Error::StringDoesNotMatchRegex => String::from_str("String does not match regex"),
        }
    }
}

} // verus!
