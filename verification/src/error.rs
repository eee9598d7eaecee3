//! The ways in which reading the console's pages can fail.

use vstd::prelude::*;

verus! {

/// Why an operation failed. Transport failures are not among these: they
/// belong to whoever performs the requests.
#[derive(Debug, Clone, Copy, PartialEq, Eq)]
pub enum Error {
    /// An address could not be put together from its parts.
    InvalidUrl,
    /// The login request was answered with something other than a redirect.
    LoginFailed,
    /// A page is longer than the parser is given to read.
    PageTooLong,
    /// A selector was refused by the selector parser.
    InvalidSelector,
    /// The page lacks an element that its structure promises.
    MissingElement,
    /// An element lacks an attribute that its structure promises.
    MissingAttribute,
    /// An element holds no text where its structure promises some.
    MissingText,
    /// A number was expected and something else was found.
    InvalidNumber,
    /// A time to live outside the accepted set.
    InvalidTtl,
    /// A record type outside the fixed vocabulary.
    InvalidRecordType,
    /// A text that should be JSON and is not.
    InvalidJson,
    /// A JSON document lacks a field, or holds it with another type.
    MissingField,
    /// A price in a currency other than the forint.
    UnsupportedCurrency,
    /// A price that is not an amount of money.
    InvalidPrice,
    /// A price for a term that no schedule holds.
    UnsupportedTerm,
    /// A schedule that lacks the price of one of its mandatory terms.
    IncompletePricing,
    /// The console answered a change to a record without confirming it.
    Rejected,
}

/// The classes that callers tell apart when they react to a failure.
#[derive(Debug, Clone, Copy, PartialEq, Eq)]
pub enum ErrorKind {
    /// The credentials were not accepted.
    Authentication,
    /// A page, or a value on it, does not have the expected form.
    Structure,
    /// A change was delivered and turned down.
    Rejection,
}

impl Error {
    /// The class of this failure.
    pub open spec fn spec_kind(self) -> ErrorKind {
        match self {
            Error::LoginFailed => ErrorKind::Authentication,
            Error::Rejected => ErrorKind::Rejection,
            _ => ErrorKind::Structure,
        }
    }

    /// The class of this failure.
    #[verifier::when_used_as_spec(spec_kind)]
    pub fn kind(self) -> (kind: ErrorKind)
        ensures
            kind == self.spec_kind(),
    {
        match self {
            Error::LoginFailed => ErrorKind::Authentication,
            Error::Rejected => ErrorKind::Rejection,
            _ => ErrorKind::Structure,
        }
    }
}

} // verus!
