//! The frame of a window specification: its unit and its bounds.

use vstd::prelude::*;
use vstd::string::*;
use crate::error::{ConstructionError, ParserError};
use crate::text::{decimal, push_decimal, same_text};

verus! {

/// The unit in which a window frame counts.
#[derive(Debug, Clone, Copy, PartialEq, Eq, Hash)]
pub enum SQLWindowFrameUnits {
    Rows,
    Range,
    Groups,
}

impl SQLWindowFrameUnits {
    /// The keyword of the unit.
    pub open spec fn sql(&self) -> Seq<char> {
        match self {
            SQLWindowFrameUnits::Rows => "ROWS"@,
            SQLWindowFrameUnits::Range => "RANGE"@,
            SQLWindowFrameUnits::Groups => "GROUPS"@,
        }
    }

    /// The unit that a keyword names. The keyword must match exactly, in
    /// upper case.
    pub open spec fn parse(s: Seq<char>) -> Option<SQLWindowFrameUnits> {
        if s == "ROWS"@ {
            Some(SQLWindowFrameUnits::Rows)
        } else if s == "RANGE"@ {
            Some(SQLWindowFrameUnits::Range)
        } else if s == "GROUPS"@ {
            Some(SQLWindowFrameUnits::Groups)
        } else {
            None
        }
    }

    /// The message for a keyword that names no unit.
    pub open spec fn parse_failure(s: Seq<char>) -> Seq<char> {
        "Expected ROWS, RANGE, or GROUPS, found: "@ + s
    }

    /// The keyword of the unit.
    pub fn to_string(&self) -> (res: String)
        ensures
            res@ == self.sql(),
    {
        match self {
            SQLWindowFrameUnits::Rows => String::from_str("ROWS"),
            SQLWindowFrameUnits::Range => String::from_str("RANGE"),
            SQLWindowFrameUnits::Groups => String::from_str("GROUPS"),
        }
    }

    /// Reads a unit from its keyword. Any other text, a keyword in lower
    /// case included, is an error whose message ends with that text.
    pub fn from_str(s: &str) -> (res: Result<SQLWindowFrameUnits, ParserError>)
        ensures
            match res {
                Ok(units) => Self::parse(s@) == Some(units),
                Err(e) => Self::parse(s@) is None && e.message() == Self::parse_failure(s@),
            },
    {
        if same_text(s, "ROWS") {
            Ok(SQLWindowFrameUnits::Rows)
        } else if same_text(s, "RANGE") {
            Ok(SQLWindowFrameUnits::Range)
        } else if same_text(s, "GROUPS") {
            Ok(SQLWindowFrameUnits::Groups)
        } else {
            let mut msg = String::from_str("Expected ROWS, RANGE, or GROUPS, found: ");
            msg.append(s);
            Err(ParserError::ParserError(msg))
        }
    }
}

impl core::str::FromStr for SQLWindowFrameUnits {
    type Err = ParserError;

    /// Reads a unit from its keyword, as `SQLWindowFrameUnits::from_str`
    /// does.
    fn from_str(s: &str) -> (res: Result<SQLWindowFrameUnits, ParserError>)
        ensures
            match res {
                Ok(units) => SQLWindowFrameUnits::parse(s@) == Some(units),
                Err(e) => SQLWindowFrameUnits::parse(s@) is None && e.message()
                    == SQLWindowFrameUnits::parse_failure(s@),
            },
    {
        SQLWindowFrameUnits::from_str(s)
    }
}

/// One edge of a window frame.
#[derive(Debug, Clone, Copy, PartialEq, Eq, Hash)]
pub enum SQLWindowFrameBound {
    /// `CURRENT ROW`
    CurrentRow,
    /// `<N> PRECEDING`, or `UNBOUNDED PRECEDING` without a number
    Preceding(Option<u64>),
    /// `<N> FOLLOWING`, or `UNBOUNDED FOLLOWING` without a number. It has a
    /// meaning only as the end of a frame.
    Following(Option<u64>),
}

impl SQLWindowFrameBound {
    /// The text of the bound.
    pub open spec fn sql(&self) -> Seq<char> {
        match self {
            SQLWindowFrameBound::CurrentRow => "CURRENT ROW"@,
            SQLWindowFrameBound::Preceding(None) => "UNBOUNDED PRECEDING"@,
            SQLWindowFrameBound::Following(None) => "UNBOUNDED FOLLOWING"@,
            SQLWindowFrameBound::Preceding(Some(n)) => decimal(*n as nat) + " PRECEDING"@,
            SQLWindowFrameBound::Following(Some(n)) => decimal(*n as nat) + " FOLLOWING"@,
        }
    }

    /// The text of the bound.
    pub fn to_string(&self) -> (res: String)
        ensures
            res@ == self.sql(),
    {
        match self {
            SQLWindowFrameBound::CurrentRow => String::from_str("CURRENT ROW"),
            SQLWindowFrameBound::Preceding(None) => String::from_str("UNBOUNDED PRECEDING"),
            SQLWindowFrameBound::Following(None) => String::from_str("UNBOUNDED FOLLOWING"),
            SQLWindowFrameBound::Preceding(Some(n)) => {
                let mut out = String::new();
                push_decimal(&mut out, *n);
                out.append(" PRECEDING");
                assert(out@ =~= decimal(*n as nat) + " PRECEDING"@);
                out
            },
            SQLWindowFrameBound::Following(Some(n)) => {
                let mut out = String::new();
                push_decimal(&mut out, *n);
                out.append(" FOLLOWING");
                assert(out@ =~= decimal(*n as nat) + " FOLLOWING"@);
                out
            },
        }
    }
}

/// The rows that a window function sees: `RANGE UNBOUNDED PRECEDING`, or
/// `ROWS BETWEEN 5 PRECEDING AND CURRENT ROW`.
#[derive(Debug, Clone, Copy, PartialEq, Eq, Hash)]
pub struct SQLWindowFrame {
    pub units: SQLWindowFrameUnits,
    pub start_bound: SQLWindowFrameBound,
    /// The right bound of `BETWEEN .. AND`.
    pub end_bound: Option<SQLWindowFrameBound>,
}

impl SQLWindowFrame {
    /// A frame does not start at a `FOLLOWING` bound.
    pub open spec fn well_formed(&self) -> bool {
        !(self.start_bound is Following)
    }

    /// The unit and the start bound; with an end bound, the two bounds
    /// inside `BETWEEN .. AND ..`.
    pub open spec fn sql(&self) -> Seq<char> {
        match self.end_bound {
            Some(end_bound) => self.units.sql() + " BETWEEN "@ + self.start_bound.sql() + " AND "@
                + end_bound.sql(),
            None => self.units.sql() + " "@ + self.start_bound.sql(),
        }
    }

    /// The frame with these parts, unless it would start at a `FOLLOWING`
    /// bound.
    pub fn new(
        units: SQLWindowFrameUnits,
        start_bound: SQLWindowFrameBound,
        end_bound: Option<SQLWindowFrameBound>,
    ) -> (res: Result<SQLWindowFrame, ConstructionError>)
        ensures
            !(start_bound is Following) ==> res == Ok::<SQLWindowFrame, ConstructionError>(
                (SQLWindowFrame { units, start_bound, end_bound }),
            ),
            start_bound is Following ==> res == Err::<SQLWindowFrame, ConstructionError>(
                ConstructionError::FollowingStartBound,
            ),
    {
        match start_bound {
            SQLWindowFrameBound::Following(_) => Err(ConstructionError::FollowingStartBound),
            _ => Ok(SQLWindowFrame { units, start_bound, end_bound }),
        }
    }

    /// Whether the frame starts at a bound other than `FOLLOWING`.
    pub fn is_well_formed(&self) -> (res: bool)
        ensures
            res == self.well_formed(),
    {
        match self.start_bound {
            SQLWindowFrameBound::Following(_) => false,
            _ => true,
        }
    }

    /// The text of the frame.
    pub fn to_string(&self) -> (res: String)
        ensures
            res@ == self.sql(),
    {
        let mut out = self.units.to_string();
        match &self.end_bound {
            Some(end_bound) => {
                out.append(" BETWEEN ");
                out.append(self.start_bound.to_string().as_str());
                out.append(" AND ");
                out.append(end_bound.to_string().as_str());
            },
            None => {
                out.append(" ");
                out.append(self.start_bound.to_string().as_str());
            },
        }
        out
    }
}

/// A keyword names a unit exactly when it is that unit's keyword, letter
/// for letter: no other case, no part of it, nothing around it.
pub proof fn lemma_units_parse_exact(s: Seq<char>, units: SQLWindowFrameUnits)
    ensures
        SQLWindowFrameUnits::parse(s) == Some(units) <==> s == units.sql(),
{
    reveal_strlit("ROWS");
    reveal_strlit("RANGE");
    reveal_strlit("GROUPS");
    assert("ROWS"@.len() == 4);
    assert("RANGE"@.len() == 5);
    assert("GROUPS"@.len() == 6);
}

/// What a unit is written as reads back as that unit.
pub proof fn lemma_units_round_trip(units: SQLWindowFrameUnits)
    ensures
        SQLWindowFrameUnits::parse(units.sql()) == Some(units),
{
    lemma_units_parse_exact(units.sql(), units);
}

/// `ROWS` names the unit of rows; the same word in lower case names none.
pub proof fn lemma_units_case_matters()
    ensures
        SQLWindowFrameUnits::parse("ROWS"@) == Some(SQLWindowFrameUnits::Rows),
        SQLWindowFrameUnits::parse("rows"@) is None,
{
    reveal_strlit("ROWS");
    reveal_strlit("RANGE");
    reveal_strlit("GROUPS");
    reveal_strlit("rows");
    assert("rows"@[0] != "ROWS"@[0]);
}

/// A frame with a start bound alone has no `BETWEEN` and no `AND`: it is the
/// unit, a space and the bound.
pub proof fn lemma_frame_start_only(frame: SQLWindowFrame)
    requires
        frame.end_bound is None,
    ensures
        frame.sql() == frame.units.sql() + " "@ + frame.start_bound.sql(),
{
}

} // verus!
