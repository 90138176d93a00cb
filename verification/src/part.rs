//! The parts that only statements have: options, assignments, column
//! definitions and the rows of a `COPY`.

use vstd::prelude::*;
use vstd::string::*;
use crate::expr::ASTNode;
use crate::name::{SQLIdent, SQLType, Value};
use crate::text::{join, join_strings, keyword_if, optional_clause, texts};

verus! {

/// A named option with its value, as in `WITH (name = value)`.
#[derive(Debug, PartialEq, Eq, Hash)]
pub struct SQLOption {
    pub name: SQLIdent,
    pub value: Value,
}

impl SQLOption {
    /// `<name> = <value>`
    pub open spec fn sql(&self) -> Seq<char> {
        self.name@ + " = "@ + self.value.sql()
    }

    /// Renders the option as SQL text.
    pub fn to_string(&self) -> (res: String)
        ensures
            res@ == self.sql(),
    {
        let mut out = self.name.clone();
        out.append(" = ");
        out.append(self.value.to_string().as_str());
        out
    }
}

impl Clone for SQLOption {
    /// A copy with the same name and value.
    fn clone(&self) -> (res: Self)
        ensures
            res == *self,
    {
        SQLOption { name: self.name.clone(), value: self.value.clone() }
    }
}

/// A copy of each option of `items`.
pub fn clone_options(items: &Vec<SQLOption>) -> (res: Vec<SQLOption>)
    ensures
        res@ == items@,
{
    let mut out: Vec<SQLOption> = Vec::new();
    let mut i: usize = 0;
    while i < items.len()
        invariant
            i <= items.len(),
            out@ == items@.take(i as int),
        decreases items.len() - i,
    {
        out.push(items[i].clone());
        assert(out@ =~= items@.take(i as int + 1));
        i += 1;
    }
    assert(items@.take(items@.len() as int) =~= items@);
    out
}

/// The texts of a sequence of options.
pub open spec fn option_texts(items: Seq<SQLOption>) -> Seq<Seq<char>> {
    items.map_values(|o: SQLOption| o.sql())
}

/// Renders each option of `items`.
pub fn option_strings(items: &Vec<SQLOption>) -> (res: Vec<String>)
    ensures
        texts(res@) == option_texts(items@),
{
    let mut out: Vec<String> = Vec::new();
    let mut i: usize = 0;
    while i < items.len()
        invariant
            i <= items.len(),
            out@.len() == i,
            forall|k: int| 0 <= k < i ==> (#[trigger] out@[k])@ == items@[k].sql(),
        decreases items.len() - i,
    {
        out.push(items[i].to_string());
        i += 1;
    }
    assert(texts(out@) =~= option_texts(items@));
    out
}

/// An assignment `foo = <expr>` of an `UPDATE` statement.
#[derive(Debug, PartialEq, Eq, Hash)]
pub struct SQLAssignment {
    pub id: SQLIdent,
    pub value: ASTNode,
}

impl SQLAssignment {
    /// The assigned expression is well formed.
    pub open spec fn well_formed(&self) -> bool {
        self.value.well_formed()
    }

    /// `<id> = <value>`
    pub open spec fn sql(&self) -> Seq<char> {
        self.id@ + " = "@ + self.value.sql()
    }

    /// Whether the assignment is well formed.
    pub fn is_well_formed(&self) -> (res: bool)
        ensures
            res == self.well_formed(),
    {
        self.value.is_well_formed()
    }

    /// Renders the assignment as SQL text.
    pub fn to_string(&self) -> (res: String)
        requires
            self.well_formed(),
        ensures
            res@ == self.sql(),
    {
        let mut out = self.id.clone();
        out.append(" = ");
        out.append(self.value.to_string().as_str());
        out
    }
}

impl Clone for SQLAssignment {
    /// A copy of the assignment: it has the same text, and is well formed
    /// if the assignment is.
    fn clone(&self) -> (res: Self)
        ensures
            res.sql() == self.sql(),
            res.well_formed() == self.well_formed(),
    {
        SQLAssignment { id: self.id.clone(), value: self.value.clone() }
    }
}

/// A copy of each assignment of `items`.
pub fn clone_assignments(items: &Vec<SQLAssignment>) -> (res: Vec<SQLAssignment>)
    ensures
        res@.len() == items@.len(),
        assignment_texts(res@) == assignment_texts(items@),
        assignments_well_formed(res@) == assignments_well_formed(items@),
{
    let mut out: Vec<SQLAssignment> = Vec::new();
    let mut i: usize = 0;
    while i < items.len()
        invariant
            i <= items.len(),
            out@.len() == i,
            forall|k: int|
                0 <= k < i ==> (#[trigger] out@[k]).sql() == items@[k].sql() && out@[k].well_formed()
                    == items@[k].well_formed(),
        decreases items.len() - i,
    {
        out.push(items[i].clone());
        i += 1;
    }
    assert(assignment_texts(out@) =~= assignment_texts(items@));
    assert(assignments_well_formed(out@) == assignments_well_formed(items@)) by {
        if assignments_well_formed(items@) {
            assert forall|k: int| 0 <= k < out@.len() implies (#[trigger] out@[k]).well_formed() by {
                assert(items@[k].well_formed());
            }
        }
        if assignments_well_formed(out@) {
            assert forall|k: int| 0 <= k < items@.len() implies (#[trigger] items@[k]).well_formed() by {
                assert(out@[k].well_formed());
            }
        }
    }
    out
}

/// The texts of a sequence of assignments.
pub open spec fn assignment_texts(items: Seq<SQLAssignment>) -> Seq<Seq<char>> {
    items.map_values(|a: SQLAssignment| a.sql())
}

/// Whether every assignment of a sequence is well formed.
pub open spec fn assignments_well_formed(items: Seq<SQLAssignment>) -> bool {
    forall|i: int| 0 <= i < items.len() ==> (#[trigger] items[i]).well_formed()
}

/// Renders each assignment of `items`.
pub fn assignment_strings(items: &Vec<SQLAssignment>) -> (res: Vec<String>)
    requires
        assignments_well_formed(items@),
    ensures
        texts(res@) == assignment_texts(items@),
{
    let mut out: Vec<String> = Vec::new();
    let mut i: usize = 0;
    while i < items.len()
        invariant
            i <= items.len(),
            assignments_well_formed(items@),
            out@.len() == i,
            forall|k: int| 0 <= k < i ==> (#[trigger] out@[k])@ == items@[k].sql(),
        decreases items.len() - i,
    {
        out.push(items[i].to_string());
        i += 1;
    }
    assert(texts(out@) =~= assignment_texts(items@));
    out
}

/// Whether every assignment of `items` is well formed.
pub fn all_assignments_well_formed(items: &Vec<SQLAssignment>) -> (res: bool)
    ensures
        res == assignments_well_formed(items@),
{
    let mut i: usize = 0;
    while i < items.len()
        invariant
            i <= items.len(),
            forall|k: int| 0 <= k < i ==> (#[trigger] items@[k]).well_formed(),
        decreases items.len() - i,
    {
        if !items[i].is_well_formed() {
            return false;
        }
        i += 1;
    }
    true
}

/// The definition of a column in `CREATE TABLE`.
#[derive(Debug, PartialEq, Eq, Hash)]
pub struct SQLColumnDef {
    pub name: SQLIdent,
    pub data_type: SQLType,
    pub is_primary: bool,
    pub is_unique: bool,
    pub default: Option<ASTNode>,
    pub allow_null: bool,
}

impl SQLColumnDef {
    /// The default, if there is one, is well formed.
    pub open spec fn well_formed(&self) -> bool {
        match self.default {
            Some(expr) => expr.well_formed(),
            None => true,
        }
    }

    /// `<name> <type>[ PRIMARY KEY][ UNIQUE][ DEFAULT <expr>][ NOT NULL]`
    pub open spec fn sql(&self) -> Seq<char> {
        self.name@ + " "@ + self.data_type.sql() + keyword_if(self.is_primary, " PRIMARY KEY"@)
            + keyword_if(self.is_unique, " UNIQUE"@) + optional_clause(
            " DEFAULT "@,
            match self.default {
                Some(expr) => Some(expr.sql()),
                None => None,
            },
        ) + keyword_if(!self.allow_null, " NOT NULL"@)
    }

    /// Whether the definition is well formed.
    pub fn is_well_formed(&self) -> (res: bool)
        ensures
            res == self.well_formed(),
    {
        match &self.default {
            Some(expr) => expr.is_well_formed(),
            None => true,
        }
    }

    /// Renders the definition as SQL text.
    pub fn to_string(&self) -> (res: String)
        requires
            self.well_formed(),
        ensures
            res@ == self.sql(),
    {
        let mut out = self.name.clone();
        out.append(" ");
        out.append(self.data_type.to_string().as_str());
        if self.is_primary {
            out.append(" PRIMARY KEY");
        }
        if self.is_unique {
            out.append(" UNIQUE");
        }
        if let Some(expr) = &self.default {
            out.append(" DEFAULT ");
            out.append(expr.to_string().as_str());
        }
        if !self.allow_null {
            out.append(" NOT NULL");
        }
        out
    }
}

impl Clone for SQLColumnDef {
    /// A copy of the definition: it has the same text, and is well formed
    /// if the definition is.
    fn clone(&self) -> (res: Self)
        ensures
            res.sql() == self.sql(),
            res.well_formed() == self.well_formed(),
    {
        SQLColumnDef {
            name: self.name.clone(),
            data_type: self.data_type.clone(),
            is_primary: self.is_primary,
            is_unique: self.is_unique,
            default: match &self.default {
                Some(expr) => Some(expr.clone()),
                None => None,
            },
            allow_null: self.allow_null,
        }
    }
}

/// A copy of each column definition of `items`.
pub fn clone_columns(items: &Vec<SQLColumnDef>) -> (res: Vec<SQLColumnDef>)
    ensures
        res@.len() == items@.len(),
        column_texts(res@) == column_texts(items@),
        columns_well_formed(res@) == columns_well_formed(items@),
{
    let mut out: Vec<SQLColumnDef> = Vec::new();
    let mut i: usize = 0;
    while i < items.len()
        invariant
            i <= items.len(),
            out@.len() == i,
            forall|k: int|
                0 <= k < i ==> (#[trigger] out@[k]).sql() == items@[k].sql() && out@[k].well_formed()
                    == items@[k].well_formed(),
        decreases items.len() - i,
    {
        out.push(items[i].clone());
        i += 1;
    }
    assert(column_texts(out@) =~= column_texts(items@));
    assert(columns_well_formed(out@) == columns_well_formed(items@)) by {
        if columns_well_formed(items@) {
            assert forall|k: int| 0 <= k < out@.len() implies (#[trigger] out@[k]).well_formed() by {
                assert(items@[k].well_formed());
            }
        }
        if columns_well_formed(out@) {
            assert forall|k: int| 0 <= k < items@.len() implies (#[trigger] items@[k]).well_formed() by {
                assert(out@[k].well_formed());
            }
        }
    }
    out
}

/// The texts of a sequence of column definitions.
pub open spec fn column_texts(items: Seq<SQLColumnDef>) -> Seq<Seq<char>> {
    items.map_values(|c: SQLColumnDef| c.sql())
}

/// Whether every column definition of a sequence is well formed.
pub open spec fn columns_well_formed(items: Seq<SQLColumnDef>) -> bool {
    forall|i: int| 0 <= i < items.len() ==> (#[trigger] items[i]).well_formed()
}

/// Renders each column definition of `items`.
pub fn column_strings(items: &Vec<SQLColumnDef>) -> (res: Vec<String>)
    requires
        columns_well_formed(items@),
    ensures
        texts(res@) == column_texts(items@),
{
    let mut out: Vec<String> = Vec::new();
    let mut i: usize = 0;
    while i < items.len()
        invariant
            i <= items.len(),
            columns_well_formed(items@),
            out@.len() == i,
            forall|k: int| 0 <= k < i ==> (#[trigger] out@[k])@ == items@[k].sql(),
        decreases items.len() - i,
    {
        out.push(items[i].to_string());
        i += 1;
    }
    assert(texts(out@) =~= column_texts(items@));
    out
}

/// Whether every column definition of `items` is well formed.
pub fn all_columns_well_formed(items: &Vec<SQLColumnDef>) -> (res: bool)
    ensures
        res == columns_well_formed(items@),
{
    let mut i: usize = 0;
    while i < items.len()
        invariant
            i <= items.len(),
            forall|k: int| 0 <= k < i ==> (#[trigger] items@[k]).well_formed(),
        decreases items.len() - i,
    {
        if !items[i].is_well_formed() {
            return false;
        }
        i += 1;
    }
    true
}

/// The fields of one row of a `COPY`, as they are sent: a value as it
/// stands, an absent value as `\N`.
pub open spec fn copy_texts(row: Seq<Option<String>>) -> Seq<Seq<char>> {
    row.map_values(
        |v: Option<String>|
            match v {
                Some(s) => s@,
                None => "\\N"@,
            },
    )
}

/// One row of a `COPY`: its fields with a tab between neighbours.
pub open spec fn copy_row(row: Seq<Option<String>>) -> Seq<char> {
    join(copy_texts(row), "\t"@)
}

/// The rows of a `COPY`, each rendered on its own.
pub open spec fn copy_rows(rows: Seq<Vec<Option<String>>>) -> Seq<Seq<char>> {
    rows.map_values(|row: Vec<Option<String>>| copy_row(row@))
}

/// Renders each field of one row of a `COPY`.
pub fn copy_strings(row: &Vec<Option<String>>) -> (res: Vec<String>)
    ensures
        texts(res@) == copy_texts(row@),
{
    let mut out: Vec<String> = Vec::new();
    let mut i: usize = 0;
    while i < row.len()
        invariant
            i <= row.len(),
            out@.len() == i,
            forall|k: int| 0 <= k < i ==> (#[trigger] out@[k])@ == copy_texts(row@)[k],
        decreases row.len() - i,
    {
        let field = match &row[i] {
            Some(s) => s.clone(),
            None => String::from_str("\\N"),
        };
        out.push(field);
        i += 1;
    }
    assert(texts(out@) =~= copy_texts(row@));
    out
}

/// Renders one row of a `COPY`.
pub fn copy_row_string(row: &Vec<Option<String>>) -> (res: String)
    ensures
        res@ == copy_row(row@),
{
    let fields = copy_strings(row);
    join_strings(&fields, "\t")
}

/// Renders each row of a `COPY`.
pub fn copy_row_strings(rows: &Vec<Vec<Option<String>>>) -> (res: Vec<String>)
    ensures
        texts(res@) == copy_rows(rows@),
{
    let mut out: Vec<String> = Vec::new();
    let mut i: usize = 0;
    while i < rows.len()
        invariant
            i <= rows.len(),
            out@.len() == i,
            forall|k: int| 0 <= k < i ==> (#[trigger] out@[k])@ == copy_row(rows@[k]@),
        decreases rows.len() - i,
    {
        out.push(copy_row_string(&rows[i]));
        i += 1;
    }
    assert(texts(out@) =~= copy_rows(rows@));
    out
}

/// A copy of each field of one row of a `COPY`.
pub fn clone_copy_row(row: &Vec<Option<String>>) -> (res: Vec<Option<String>>)
    ensures
        res@ == row@,
{
    let mut out: Vec<Option<String>> = Vec::new();
    let mut i: usize = 0;
    while i < row.len()
        invariant
            i <= row.len(),
            out@ == row@.take(i as int),
        decreases row.len() - i,
    {
        let field = match &row[i] {
            Some(s) => Some(s.clone()),
            None => None,
        };
        out.push(field);
        assert(out@ =~= row@.take(i as int + 1));
        i += 1;
    }
    assert(row@.take(row@.len() as int) =~= row@);
    out
}

/// A copy of each row of a `COPY`: as many rows, each with the fields of
/// the one it was made from.
pub fn clone_copy_rows(rows: &Vec<Vec<Option<String>>>) -> (res: Vec<Vec<Option<String>>>)
    ensures
        res@.len() == rows@.len(),
        forall|k: int| 0 <= k < rows@.len() ==> (#[trigger] res@[k])@ == rows@[k]@,
        copy_rows(res@) == copy_rows(rows@),
{
    let mut out: Vec<Vec<Option<String>>> = Vec::new();
    let mut i: usize = 0;
    while i < rows.len()
        invariant
            i <= rows.len(),
            out@.len() == i,
            forall|k: int| 0 <= k < i ==> (#[trigger] out@[k])@ == rows@[k]@,
        decreases rows.len() - i,
    {
        out.push(clone_copy_row(&rows[i]));
        i += 1;
    }
    assert(copy_rows(out@) =~= copy_rows(rows@));
    out
}

/// Each field of a `COPY` is sent as it stands, and an absent one as the
/// two characters `\N`.
pub proof fn lemma_copy_fields(row: Seq<Option<String>>, i: int)
    requires
        0 <= i < row.len(),
    ensures
        copy_texts(row).len() == row.len(),
        row[i] is Some ==> copy_texts(row)[i] == row[i].unwrap()@,
        row[i] is None ==> copy_texts(row)[i] == seq!['\\', 'N'],
{
    reveal_strlit("\\N");
    assert("\\N"@ =~= seq!['\\', 'N']);
}

/// A row of a `COPY` holds a tab between its fields and none before the
/// first or after the last: a row of one field is that field, a row of two
/// is the two with one tab between them.
pub proof fn lemma_copy_row(row: Seq<Option<String>>)
    ensures
        row.len() == 0 ==> copy_row(row) == Seq::<char>::empty(),
        row.len() == 1 ==> copy_row(row) == copy_texts(row)[0],
        row.len() == 2 ==> copy_row(row) == copy_texts(row)[0] + "\t"@ + copy_texts(row)[1],
{
    let fields = copy_texts(row);
    if row.len() == 2 {
        assert(fields.drop_last() =~= seq![fields[0]]);
        assert(join(fields.drop_last(), "\t"@) == fields[0]);
    }
}

/// Every row of a `COPY` is rendered on its own, in order.
pub proof fn lemma_copy_rows(rows: Seq<Vec<Option<String>>>, i: int)
    requires
        0 <= i < rows.len(),
    ensures
        copy_rows(rows).len() == rows.len(),
        copy_rows(rows)[i] == copy_row(rows[i]@),
{
}

} // verus!
