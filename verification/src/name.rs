//! Identifiers, qualified names, and the fragments of SQL that other
//! grammars own.

use vstd::prelude::*;
use vstd::string::*;
use crate::error::ConstructionError;
use crate::text::{join, join_strings, texts};

verus! {

/// An identifier, kept as it was written, quotes included (`"id"`).
pub type SQLIdent = String;

/// A piece of SQL whose grammar is defined elsewhere, carried as the text
/// that its own renderer gave. The tree places such a piece in its output
/// unchanged.
#[derive(Debug, PartialEq, Eq, Hash)]
pub struct SQLFragment(pub String);

/// A query: `SELECT ...`, with everything that can follow it.
pub type SQLQuery = SQLFragment;

/// A data type (`INT`, `VARCHAR(123)`).
pub type SQLType = SQLFragment;

/// A literal value (`1`, `'abc'`, `NULL`).
pub type Value = SQLFragment;

/// A unary or binary operator (`+`, `AND`, `NOT`).
pub type SQLOperator = SQLFragment;

/// One operation of an `ALTER TABLE` statement.
pub type AlterTableOperation = SQLFragment;

/// A table constraint of a `CREATE TABLE` statement.
pub type TableConstraint = SQLFragment;

/// One item of an `ORDER BY` list, with its direction if it has one.
pub type SQLOrderByExpr = SQLFragment;

impl SQLFragment {
    /// The text of the fragment.
    pub open spec fn sql(&self) -> Seq<char> {
        self.0@
    }

    /// A fragment that holds `text`.
    pub fn new(text: &str) -> (res: SQLFragment)
        ensures
            res.sql() == text@,
    {
        SQLFragment(String::from_str(text))
    }

    /// The text of the fragment, unchanged.
    pub fn to_string(&self) -> (res: String)
        ensures
            res@ == self.sql(),
    {
        self.0.clone()
    }
}

impl Clone for SQLFragment {
    /// A copy with the same text.
    fn clone(&self) -> (res: Self)
        ensures
            res == *self,
    {
        SQLFragment(self.0.clone())
    }
}

/// A copy of each string of `items`.
pub fn clone_strings(items: &Vec<String>) -> (res: Vec<String>)
    ensures
        res@ == items@,
{
    let mut out: Vec<String> = Vec::new();
    let mut i: usize = 0;
    while i < items.len()
        invariant
            i <= items.len(),
            out@ == items@.take(i as int),
        decreases items.len() - i,
    {
        out.push(items[i].clone());
        assert(out@ =~= items@.take(i as int + 1));
        i += 1;
    }
    assert(items@.take(items@.len() as int) =~= items@);
    out
}

/// A copy of each fragment of `items`.
pub fn clone_fragments(items: &Vec<SQLFragment>) -> (res: Vec<SQLFragment>)
    ensures
        res@ == items@,
{
    let mut out: Vec<SQLFragment> = Vec::new();
    let mut i: usize = 0;
    while i < items.len()
        invariant
            i <= items.len(),
            out@ == items@.take(i as int),
        decreases items.len() - i,
    {
        out.push(items[i].clone());
        assert(out@ =~= items@.take(i as int + 1));
        i += 1;
    }
    assert(items@.take(items@.len() as int) =~= items@);
    out
}

/// The texts of a sequence of fragments.
pub open spec fn fragment_texts(items: Seq<SQLFragment>) -> Seq<Seq<char>> {
    items.map_values(|f: SQLFragment| f.sql())
}

/// Renders each fragment of `items`.
pub fn fragment_strings(items: &Vec<SQLFragment>) -> (res: Vec<String>)
    ensures
        texts(res@) == fragment_texts(items@),
{
    let mut out: Vec<String> = Vec::new();
    let mut i: usize = 0;
    while i < items.len()
        invariant
            i <= items.len(),
            out@.len() == i,
            forall|k: int| 0 <= k < i ==> (#[trigger] out@[k])@ == items@[k].sql(),
        decreases items.len() - i,
    {
        out.push(items[i].to_string());
        i += 1;
    }
    assert(texts(out@) =~= fragment_texts(items@));
    out
}

/// The name of a table, view or type, possibly qualified: `db.schema.obj`.
/// A name has at least one part.
#[derive(Debug, PartialEq, Eq, Hash)]
pub struct SQLObjectName(pub Vec<SQLIdent>);

impl SQLObjectName {
    /// A name has at least one part.
    pub open spec fn well_formed(&self) -> bool {
        self.0@.len() > 0
    }

    /// The parts joined by dots.
    pub open spec fn sql(&self) -> Seq<char> {
        join(texts(self.0@), "."@)
    }

    /// The name made of `parts`, unless there are none.
    pub fn new(parts: Vec<SQLIdent>) -> (res: Result<SQLObjectName, ConstructionError>)
        ensures
            parts@.len() > 0 ==> res == Ok::<SQLObjectName, ConstructionError>(
                SQLObjectName(parts),
            ),
            parts@.len() == 0 ==> res == Err::<SQLObjectName, ConstructionError>(
                ConstructionError::EmptyObjectName,
            ),
    {
        if parts.len() == 0 {
            Err(ConstructionError::EmptyObjectName)
        } else {
            Ok(SQLObjectName(parts))
        }
    }

    /// Whether the name has at least one part.
    pub fn is_well_formed(&self) -> (res: bool)
        ensures
            res == self.well_formed(),
    {
        self.0.len() > 0
    }

    /// The parts joined by dots: `db.schema.obj`.
    pub fn to_string(&self) -> (res: String)
        ensures
            res@ == self.sql(),
    {
        join_strings(&self.0, ".")
    }
}

impl Clone for SQLObjectName {
    /// A copy with the same parts.
    fn clone(&self) -> (res: Self)
        ensures
            res.0@ == self.0@,
    {
        SQLObjectName(clone_strings(&self.0))
    }
}

/// A copy of each name of `items`.
pub fn clone_names(items: &Vec<SQLObjectName>) -> (res: Vec<SQLObjectName>)
    ensures
        res@.len() == items@.len(),
        forall|k: int| 0 <= k < items@.len() ==> (#[trigger] res@[k]).0@ == items@[k].0@,
        name_texts(res@) == name_texts(items@),
        names_well_formed(res@) == names_well_formed(items@),
{
    let mut out: Vec<SQLObjectName> = Vec::new();
    let mut i: usize = 0;
    while i < items.len()
        invariant
            i <= items.len(),
            out@.len() == i,
            forall|k: int| 0 <= k < i ==> (#[trigger] out@[k]).0@ == items@[k].0@,
        decreases items.len() - i,
    {
        out.push(items[i].clone());
        i += 1;
    }
    assert(name_texts(out@) =~= name_texts(items@));
    assert(names_well_formed(out@) == names_well_formed(items@)) by {
        if names_well_formed(items@) {
            assert forall|k: int| 0 <= k < out@.len() implies (#[trigger] out@[k]).well_formed() by {
                assert(items@[k].well_formed());
            }
        }
        if names_well_formed(out@) {
            assert forall|k: int| 0 <= k < items@.len() implies (#[trigger] items@[k]).well_formed() by {
                assert(out@[k].well_formed());
            }
        }
    }
    out
}

/// The texts of a sequence of names.
pub open spec fn name_texts(items: Seq<SQLObjectName>) -> Seq<Seq<char>> {
    items.map_values(|n: SQLObjectName| n.sql())
}

/// Whether every name of `items` has at least one part.
pub open spec fn names_well_formed(items: Seq<SQLObjectName>) -> bool {
    forall|i: int| 0 <= i < items.len() ==> (#[trigger] items[i]).well_formed()
}

/// Renders each name of `items`.
pub fn name_strings(items: &Vec<SQLObjectName>) -> (res: Vec<String>)
    ensures
        texts(res@) == name_texts(items@),
{
    let mut out: Vec<String> = Vec::new();
    let mut i: usize = 0;
    while i < items.len()
        invariant
            i <= items.len(),
            out@.len() == i,
            forall|k: int| 0 <= k < i ==> (#[trigger] out@[k])@ == items@[k].sql(),
        decreases items.len() - i,
    {
        out.push(items[i].to_string());
        i += 1;
    }
    assert(texts(out@) =~= name_texts(items@));
    out
}

/// Whether every name of `items` has at least one part.
pub fn all_names_well_formed(items: &Vec<SQLObjectName>) -> (res: bool)
    ensures
        res == names_well_formed(items@),
{
    let mut i: usize = 0;
    while i < items.len()
        invariant
            i <= items.len(),
            forall|k: int| 0 <= k < i ==> (#[trigger] items@[k]).well_formed(),
        decreases items.len() - i,
    {
        if !items[i].is_well_formed() {
            return false;
        }
        i += 1;
    }
    true
}

/// A field of a date or a time that `EXTRACT` can take out.
#[derive(Debug, Clone, Copy, PartialEq, Eq, Hash)]
pub enum SQLDateTimeField {
    Year,
    Month,
    Day,
    Hour,
    Minute,
    Second,
}

impl SQLDateTimeField {
    /// The keyword of the field.
    pub open spec fn sql(&self) -> Seq<char> {
        match self {
            SQLDateTimeField::Year => "YEAR"@,
            SQLDateTimeField::Month => "MONTH"@,
            SQLDateTimeField::Day => "DAY"@,
            SQLDateTimeField::Hour => "HOUR"@,
            SQLDateTimeField::Minute => "MINUTE"@,
            SQLDateTimeField::Second => "SECOND"@,
        }
    }

    /// The keyword of the field.
    pub fn to_string(&self) -> (res: String)
        ensures
            res@ == self.sql(),
    {
        match self {
            SQLDateTimeField::Year => String::from_str("YEAR"),
            SQLDateTimeField::Month => String::from_str("MONTH"),
            SQLDateTimeField::Day => String::from_str("DAY"),
            SQLDateTimeField::Hour => String::from_str("HOUR"),
            SQLDateTimeField::Minute => String::from_str("MINUTE"),
            SQLDateTimeField::Second => String::from_str("SECOND"),
        }
    }
}

} // verus!
