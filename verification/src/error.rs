//! The error taxonomy of the feed pipeline.
//!
//! Configuration errors (a missing required field, a selector that does not
//! compile, an invalid URL, a malformed number or order word) are reported to
//! the caller before any network activity and are never retried. Per-item
//! anomalies during extraction (a missing or unresolvable link) are not
//! errors: they silently exclude the item.

use vstd::prelude::*;

verus! {

/// A request could not be turned into a valid feed configuration.
#[derive(Debug, Clone, PartialEq, Eq)]
pub enum Error {
    /// A required request parameter was absent; holds the parameter name.
    RequiredParam(String),
    /// The order parameter was neither of the two accepted words; holds the
    /// rejected text.
    InvalidFeedOrder(String),
    /// A selector did not compile; holds the name of the offending field.
    InvalidSelector(String),
    /// The source URL did not parse as an absolute URL.
    InvalidUrl,
    /// The item cap was present but not a number.
    InvalidMaxItems,
}

impl Error {
    pub fn required_param(s: &str) -> (e: Error)
        ensures
            e matches Error::RequiredParam(p) && p@ == s@,
    {
        Error::RequiredParam(String::from_str(s))
    }

    /// A human-readable description of the error, for front ends to show.
    pub fn message(&self) -> (m: String)
        ensures
            self matches Error::RequiredParam(p) ==> m@ == p@ + " is required"@,
            self matches Error::InvalidFeedOrder(o) ==> m@ == o@
                + " is not a valid feed order. Must be 'normal' or 'reversed'"@,
            self matches Error::InvalidSelector(f) ==> m@ == "Could not parse "@ + f@,
            self is InvalidUrl ==> m@ == "invalid url"@,
            self is InvalidMaxItems ==> m@ == "max_items must be a number"@,
    {
        match self {
            Error::RequiredParam(p) => p.clone().concat(" is required"),
            Error::InvalidFeedOrder(o) => o.clone().concat(
                " is not a valid feed order. Must be 'normal' or 'reversed'",
            ),
            Error::InvalidSelector(f) => String::from_str("Could not parse ").concat(f.as_str()),
            Error::InvalidUrl => String::from_str("invalid url"),
            Error::InvalidMaxItems => String::from_str("max_items must be a number"),
        }
    }
}

} // verus!
