//! The two kinds of failure: a keyword that names no value of an
//! enumeration, and a node whose parts do not fit together.

use vstd::prelude::*;
use vstd::string::*;

verus! {

/// A keyword was not one of those an enumeration accepts. The message names
/// the accepted keywords, where they are few, and the offending input.
#[derive(Debug, PartialEq, Eq, Hash)]
pub enum ParserError {
    ParserError(String),
}

impl ParserError {
    /// The text of the message.
    pub open spec fn message(&self) -> Seq<char> {
        match self {
            ParserError::ParserError(msg) => msg@,
        }
    }

    /// The message as a string.
    pub fn to_string(&self) -> (res: String)
        ensures
            res@ == self.message(),
    {
        match self {
            ParserError::ParserError(msg) => msg.clone(),
        }
    }
}

impl Clone for ParserError {
    /// A copy with the same message.
    fn clone(&self) -> (res: Self)
        ensures
            res == *self,
    {
        match self {
            ParserError::ParserError(msg) => ParserError::ParserError(msg.clone()),
        }
    }
}

/// Why a node could not be built.
#[derive(Debug, Clone, Copy, PartialEq, Eq, Hash)]
pub enum ConstructionError {
    /// A `CASE` was given different numbers of `WHEN` conditions and `THEN`
    /// results.
    CaseArityMismatch { conditions: usize, results: usize },
    /// An external table was given no storage format.
    MissingFileFormat,
    /// An external table was given no location.
    MissingLocation,
    /// An object name was given no parts.
    EmptyObjectName,
    /// A window frame was given a `FOLLOWING` bound as its start.
    FollowingStartBound,
}

} // verus!
