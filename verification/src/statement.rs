//! Top-level statements.

use vstd::prelude::*;
use vstd::string::*;
use crate::assemble::{
    alter_table_sql, alter_table_string, copy_sql, copy_string, create_table_sql,
    create_table_string, create_view_sql, create_view_string, delete_sql, delete_string, drop_sql,
    drop_string, insert_sql, insert_string, storage_strings, storage_texts, transaction_sql,
    transaction_string, update_sql, update_string,
};
use crate::error::ConstructionError;
use crate::expr::ASTNode;
use crate::file_format::FileFormat;
use crate::name::{
    all_names_well_formed, clone_fragments, clone_names, clone_strings, fragment_strings,
    fragment_texts, name_strings, name_texts, names_well_formed, AlterTableOperation, SQLIdent,
    SQLObjectName, SQLQuery, TableConstraint,
};
use crate::part::{
    all_assignments_well_formed, all_columns_well_formed, assignment_strings, assignment_texts,
    assignments_well_formed, clone_assignments, clone_columns, clone_copy_rows, clone_options,
    column_strings, column_texts, columns_well_formed, copy_row_strings, copy_rows,
    option_strings, option_texts, SQLAssignment, SQLColumnDef, SQLOption,
};
use crate::text::texts;

verus! {

/// What a `DROP` statement drops.
#[derive(Debug, Clone, Copy, PartialEq, Eq, Hash)]
pub enum SQLObjectType {
    Table,
    View,
}

impl SQLObjectType {
    /// The keyword of the kind.
    pub open spec fn sql(&self) -> Seq<char> {
        match self {
            SQLObjectType::Table => "TABLE"@,
            SQLObjectType::View => "VIEW"@,
        }
    }

    /// The keyword of the kind.
    pub fn to_string(&self) -> (res: String)
        ensures
            res@ == self.sql(),
    {
        match self {
            SQLObjectType::Table => String::from_str("TABLE"),
            SQLObjectType::View => String::from_str("VIEW"),
        }
    }
}

/// A top-level statement.
#[derive(Debug, PartialEq, Eq, Hash)]
pub enum SQLStatement {
    /// `SELECT`
    SQLQuery(Box<SQLQuery>),
    /// `INSERT`
    SQLInsert {
        table_name: SQLObjectName,
        columns: Vec<SQLIdent>,
        /// The query that gives the rows to insert
        source: Box<SQLQuery>,
    },
    /// `COPY .. FROM stdin`, with the rows that follow it
    SQLCopy {
        table_name: SQLObjectName,
        columns: Vec<SQLIdent>,
        /// The rows to be copied, each with its fields in order; an absent
        /// field is a null
        values: Vec<Vec<Option<String>>>,
    },
    /// `UPDATE`
    SQLUpdate {
        table_name: SQLObjectName,
        assignments: Vec<SQLAssignment>,
        /// `WHERE`
        selection: Option<ASTNode>,
    },
    /// `DELETE`
    SQLDelete {
        table_name: SQLObjectName,
        /// `WHERE`
        selection: Option<ASTNode>,
    },
    /// `CREATE VIEW`
    SQLCreateView {
        name: SQLObjectName,
        columns: Vec<SQLIdent>,
        query: Box<SQLQuery>,
        materialized: bool,
        with_options: Vec<SQLOption>,
    },
    /// `CREATE TABLE`. An external table has a file format and a location.
    SQLCreateTable {
        name: SQLObjectName,
        columns: Vec<SQLColumnDef>,
        constraints: Vec<TableConstraint>,
        with_options: Vec<SQLOption>,
        external: bool,
        file_format: Option<FileFormat>,
        location: Option<String>,
    },
    /// `ALTER TABLE`
    SQLAlterTable { name: SQLObjectName, operation: AlterTableOperation },
    /// `DROP`
    SQLDrop { object_type: SQLObjectType, if_exists: bool, names: Vec<SQLObjectName>, cascade: bool },
    /// The statements of one transaction, in order
    SQLTransaction(Vec<Box<SQLStatement>>),
}

/// The texts of a sequence of statements, each rendered on its own.
pub open spec fn statement_texts(statements: Seq<Box<SQLStatement>>) -> Seq<Seq<char>>
    decreases statements,
{
    Seq::new(
        statements.len(),
        |i: int|
            if 0 <= i < statements.len() {
                statements[i].sql()
            } else {
                Seq::empty()
            },
    )
}

/// Whether every statement of a sequence is well formed.
pub open spec fn statements_well_formed(statements: Seq<Box<SQLStatement>>) -> bool
    decreases statements,
{
    forall|i: int| 0 <= i < statements.len() ==> (#[trigger] statements[i]).well_formed()
}

/// Renders each statement of `statements`.
pub fn statement_strings(statements: &Vec<Box<SQLStatement>>) -> (res: Vec<String>)
    requires
        statements_well_formed(statements@),
    ensures
        texts(res@) == statement_texts(statements@),
    decreases statements,
{
    let mut out: Vec<String> = Vec::new();
    let mut i: usize = 0;
    while i < statements.len()
        invariant
            i <= statements.len(),
            statements_well_formed(statements@),
            out@.len() == i,
            forall|k: int| 0 <= k < i ==> (#[trigger] out@[k])@ == statements@[k].sql(),
        decreases statements.len() - i,
    {
        out.push(statements[i].to_string());
        i += 1;
    }
    assert(texts(out@) =~= statement_texts(statements@));
    out
}

/// Whether every statement of `statements` is well formed.
pub fn all_statements_well_formed(statements: &Vec<Box<SQLStatement>>) -> (res: bool)
    ensures
        res == statements_well_formed(statements@),
    decreases statements,
{
    let mut i: usize = 0;
    while i < statements.len()
        invariant
            i <= statements.len(),
            forall|k: int| 0 <= k < i ==> (#[trigger] statements@[k]).well_formed(),
        decreases statements.len() - i,
    {
        if !statements[i].is_well_formed() {
            return false;
        }
        i += 1;
    }
    true
}

/// A copy of each statement of `statements`: as many, each with the text
/// of the one it was made from, and well formed if that one is.
pub fn clone_statements(statements: &Vec<Box<SQLStatement>>) -> (res: Vec<Box<SQLStatement>>)
    ensures
        res@.len() == statements@.len(),
        statement_texts(res@) == statement_texts(statements@),
        statements_well_formed(res@) == statements_well_formed(statements@),
    decreases statements,
{
    let mut out: Vec<Box<SQLStatement>> = Vec::new();
    let mut i: usize = 0;
    while i < statements.len()
        invariant
            i <= statements.len(),
            out@.len() == i,
            forall|k: int|
                0 <= k < i ==> (#[trigger] out@[k]).sql() == statements@[k].sql()
                    && out@[k].well_formed() == statements@[k].well_formed(),
        decreases statements.len() - i,
    {
        out.push(Box::new(SQLStatement::clone(&statements[i])));
        i += 1;
    }
    assert(statement_texts(out@) =~= statement_texts(statements@));
    assert(statements_well_formed(out@) == statements_well_formed(statements@)) by {
        if statements_well_formed(statements@) {
            assert forall|k: int| 0 <= k < out@.len() implies (#[trigger] out@[k]).well_formed() by {
                assert(statements@[k].well_formed());
            }
        }
        if statements_well_formed(out@) {
            assert forall|k: int| 0 <= k < statements@.len() implies (
            #[trigger] statements@[k]).well_formed() by {
                assert(out@[k].well_formed());
            }
        }
    }
    out
}

impl Clone for SQLStatement {
    /// A copy of the tree: it has the same text, and is well formed if the
    /// tree is.
    fn clone(&self) -> (res: Self)
        ensures
            res.sql() == self.sql(),
            res.well_formed() == self.well_formed(),
        decreases self,
    {
        match self {
            SQLStatement::SQLQuery(query) => SQLStatement::SQLQuery(
                Box::new(SQLQuery::clone(query)),
            ),
            SQLStatement::SQLInsert { table_name, columns, source } => SQLStatement::SQLInsert {
                table_name: table_name.clone(),
                columns: clone_strings(columns),
                source: Box::new(SQLQuery::clone(source)),
            },
            SQLStatement::SQLCopy { table_name, columns, values } => SQLStatement::SQLCopy {
                table_name: table_name.clone(),
                columns: clone_strings(columns),
                values: clone_copy_rows(values),
            },
            SQLStatement::SQLUpdate { table_name, assignments, selection } => {
                SQLStatement::SQLUpdate {
                    table_name: table_name.clone(),
                    assignments: clone_assignments(assignments),
                    selection: match selection {
                        Some(expr) => Some(expr.clone()),
                        None => None,
                    },
                }
            },
            SQLStatement::SQLDelete { table_name, selection } => SQLStatement::SQLDelete {
                table_name: table_name.clone(),
                selection: match selection {
                    Some(expr) => Some(expr.clone()),
                    None => None,
                },
            },
            SQLStatement::SQLCreateView { name, columns, query, materialized, with_options } => {
                SQLStatement::SQLCreateView {
                    name: name.clone(),
                    columns: clone_strings(columns),
                    query: Box::new(SQLQuery::clone(query)),
                    materialized: *materialized,
                    with_options: clone_options(with_options),
                }
            },
            SQLStatement::SQLCreateTable {
                name,
                columns,
                constraints,
                with_options,
                external,
                file_format,
                location,
            } => SQLStatement::SQLCreateTable {
                name: name.clone(),
                columns: clone_columns(columns),
                constraints: clone_fragments(constraints),
                with_options: clone_options(with_options),
                external: *external,
                file_format: *file_format,
                location: match location {
                    Some(path) => Some(path.clone()),
                    None => None,
                },
            },
            SQLStatement::SQLAlterTable { name, operation } => SQLStatement::SQLAlterTable {
                name: name.clone(),
                operation: operation.clone(),
            },
            SQLStatement::SQLDrop { object_type, if_exists, names, cascade } => {
                let copies = clone_names(names);
                SQLStatement::SQLDrop {
                    object_type: *object_type,
                    if_exists: *if_exists,
                    names: copies,
                    cascade: *cascade,
                }
            },
            SQLStatement::SQLTransaction(statements) => SQLStatement::SQLTransaction(
                clone_statements(statements),
            ),
        }
    }
}

impl SQLStatement {
    /// What the tree must satisfy beyond its shape: every object name has a
    /// part, every expression is well formed, an external table has a file
    /// format and a location; and so for every statement of a transaction.
    pub open spec fn well_formed(&self) -> bool
        decreases self,
    {
        match self {
            SQLStatement::SQLQuery(_) => true,
            SQLStatement::SQLInsert { table_name, columns, source } => table_name.well_formed(),
            SQLStatement::SQLCopy { table_name, columns, values } => table_name.well_formed(),
            SQLStatement::SQLUpdate { table_name, assignments, selection } => {
                &&& table_name.well_formed()
                &&& assignments_well_formed(assignments@)
                &&& match selection {
                    Some(expr) => expr.well_formed(),
                    None => true,
                }
            },
            SQLStatement::SQLDelete { table_name, selection } => {
                &&& table_name.well_formed()
                &&& match selection {
                    Some(expr) => expr.well_formed(),
                    None => true,
                }
            },
            SQLStatement::SQLCreateView { name, columns, query, materialized, with_options } =>
                name.well_formed(),
            SQLStatement::SQLCreateTable {
                name,
                columns,
                constraints,
                with_options,
                external,
                file_format,
                location,
            } => {
                &&& name.well_formed()
                &&& columns_well_formed(columns@)
                &&& (*external ==> file_format is Some && location is Some)
            },
            SQLStatement::SQLAlterTable { name, operation } => name.well_formed(),
            SQLStatement::SQLDrop { object_type, if_exists, names, cascade } => names_well_formed(
                names@,
            ),
            SQLStatement::SQLTransaction(statements) => statements_well_formed(statements@),
        }
    }

    /// The SQL text of the statement: each part rendered, and the texts put
    /// together as the kind of statement says.
    pub open spec fn sql(&self) -> Seq<char>
        decreases self,
    {
        match self {
            SQLStatement::SQLQuery(query) => query.sql(),
            SQLStatement::SQLInsert { table_name, columns, source } => insert_sql(
                table_name.sql(),
                texts(columns@),
                source.sql(),
            ),
            SQLStatement::SQLCopy { table_name, columns, values } => copy_sql(
                table_name.sql(),
                texts(columns@),
                copy_rows(values@),
            ),
            SQLStatement::SQLUpdate { table_name, assignments, selection } => update_sql(
                table_name.sql(),
                assignment_texts(assignments@),
                match selection {
                    Some(expr) => Some(expr.sql()),
                    None => None,
                },
            ),
            SQLStatement::SQLDelete { table_name, selection } => delete_sql(
                table_name.sql(),
                match selection {
                    Some(expr) => Some(expr.sql()),
                    None => None,
                },
            ),
            SQLStatement::SQLCreateView { name, columns, query, materialized, with_options } =>
                create_view_sql(
                    *materialized,
                    name.sql(),
                    option_texts(with_options@),
                    texts(columns@),
                    query.sql(),
                ),
            SQLStatement::SQLCreateTable {
                name,
                columns,
                constraints,
                with_options,
                external,
                file_format,
                location,
            } => create_table_sql(
                name.sql(),
                column_texts(columns@),
                fragment_texts(constraints@),
                storage_texts(*external, *file_format, *location),
                option_texts(with_options@),
            ),
            SQLStatement::SQLAlterTable { name, operation } => alter_table_sql(
                name.sql(),
                operation.sql(),
            ),
            SQLStatement::SQLDrop { object_type, if_exists, names, cascade } => drop_sql(
                object_type.sql(),
                *if_exists,
                name_texts(names@),
                *cascade,
            ),
            SQLStatement::SQLTransaction(statements) => transaction_sql(
                statement_texts(statements@),
            ),
        }
    }

    /// A `CREATE TABLE` statement of these parts, unless the table is
    /// external and lacks its file format or its location.
    pub fn new_create_table(
        name: SQLObjectName,
        columns: Vec<SQLColumnDef>,
        constraints: Vec<TableConstraint>,
        with_options: Vec<SQLOption>,
        external: bool,
        file_format: Option<FileFormat>,
        location: Option<String>,
    ) -> (res: Result<SQLStatement, ConstructionError>)
        ensures
            external && file_format is None ==> res == Err::<SQLStatement, ConstructionError>(
                ConstructionError::MissingFileFormat,
            ),
            external && file_format is Some && location is None ==> res == Err::<
                SQLStatement,
                ConstructionError,
            >(ConstructionError::MissingLocation),
            !external || (file_format is Some && location is Some) ==> res == Ok::<
                SQLStatement,
                ConstructionError,
            >(
                (SQLStatement::SQLCreateTable {
                    name,
                    columns,
                    constraints,
                    with_options,
                    external,
                    file_format,
                    location,
                }),
            ),
    {
        if external && file_format.is_none() {
            Err(ConstructionError::MissingFileFormat)
        } else if external && location.is_none() {
            Err(ConstructionError::MissingLocation)
        } else {
            Ok(
                SQLStatement::SQLCreateTable {
                    name,
                    columns,
                    constraints,
                    with_options,
                    external,
                    file_format,
                    location,
                },
            )
        }
    }

    /// Whether the tree is well formed.
    pub fn is_well_formed(&self) -> (res: bool)
        ensures
            res == self.well_formed(),
        decreases self,
    {
        match self {
            SQLStatement::SQLQuery(_) => true,
            SQLStatement::SQLInsert { table_name, columns, source } => table_name.is_well_formed(),
            SQLStatement::SQLCopy { table_name, columns, values } => table_name.is_well_formed(),
            SQLStatement::SQLUpdate { table_name, assignments, selection } => {
                table_name.is_well_formed() && all_assignments_well_formed(assignments)
                    && match selection {
                    Some(expr) => expr.is_well_formed(),
                    None => true,
                }
            },
            SQLStatement::SQLDelete { table_name, selection } => {
                table_name.is_well_formed() && match selection {
                    Some(expr) => expr.is_well_formed(),
                    None => true,
                }
            },
            SQLStatement::SQLCreateView { name, columns, query, materialized, with_options } =>
                name.is_well_formed(),
            SQLStatement::SQLCreateTable {
                name,
                columns,
                constraints,
                with_options,
                external,
                file_format,
                location,
            } => {
                name.is_well_formed() && all_columns_well_formed(columns) && (!*external || (
                file_format.is_some() && location.is_some()))
            },
            SQLStatement::SQLAlterTable { name, operation } => name.is_well_formed(),
            SQLStatement::SQLDrop { object_type, if_exists, names, cascade } =>
                all_names_well_formed(names),
            SQLStatement::SQLTransaction(statements) => all_statements_well_formed(statements),
        }
    }

    /// Renders the statement if it is well formed, and says so if it is
    /// not. This is the way in for a tree of unknown making.
    pub fn try_to_string(&self) -> (res: Option<String>)
        ensures
            res is Some <==> self.well_formed(),
            res is Some ==> res.unwrap()@ == self.sql(),
    {
        if self.is_well_formed() {
            Some(self.to_string())
        } else {
            None
        }
    }

    /// Renders the statement as SQL text. A call is nested for each
    /// transaction that stands inside a transaction, and for nothing else.
    pub fn to_string(&self) -> (res: String)
        requires
            self.well_formed(),
        ensures
            res@ == self.sql(),
        decreases self,
    {
        match self {
            SQLStatement::SQLQuery(query) => query.to_string(),
            SQLStatement::SQLInsert { table_name, columns, source } => insert_string(
                table_name.to_string().as_str(),
                columns,
                source.to_string().as_str(),
            ),
            SQLStatement::SQLCopy { table_name, columns, values } => {
                let rows = copy_row_strings(values);
                copy_string(table_name.to_string().as_str(), columns, &rows)
            },
            SQLStatement::SQLUpdate { table_name, assignments, selection } => {
                let items = assignment_strings(assignments);
                let filter = match selection {
                    Some(expr) => Some(expr.to_string()),
                    None => None,
                };
                update_string(table_name.to_string().as_str(), &items, &filter)
            },
            SQLStatement::SQLDelete { table_name, selection } => {
                let filter = match selection {
                    Some(expr) => Some(expr.to_string()),
                    None => None,
                };
                delete_string(table_name.to_string().as_str(), &filter)
            },
            SQLStatement::SQLCreateView { name, columns, query, materialized, with_options } => {
                let options = option_strings(with_options);
                create_view_string(
                    *materialized,
                    name.to_string().as_str(),
                    &options,
                    columns,
                    query.to_string().as_str(),
                )
            },
            SQLStatement::SQLCreateTable {
                name,
                columns,
                constraints,
                with_options,
                external,
                file_format,
                location,
            } => {
                let defs = column_strings(columns);
                let rules = fragment_strings(constraints);
                let options = option_strings(with_options);
                let storage = storage_strings(*external, file_format, location);
                create_table_string(name.to_string().as_str(), &defs, &rules, &storage, &options)
            },
            SQLStatement::SQLAlterTable { name, operation } => alter_table_string(
                name.to_string().as_str(),
                operation.to_string().as_str(),
            ),
            SQLStatement::SQLDrop { object_type, if_exists, names, cascade } => {
                let items = name_strings(names);
                drop_string(object_type.to_string().as_str(), *if_exists, &items, *cascade)
            },
            SQLStatement::SQLTransaction(statements) => {
                let lines = statement_strings(statements);
                transaction_string(&lines)
            },
        }
    }
}

} // verus!
