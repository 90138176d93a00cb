//! A SQL abstract syntax tree and its canonical rendering as SQL text.
//!
//! Every node type has a specification function `sql` that defines the text
//! it stands for, and an executable `to_string` that is proved to produce
//! exactly that text. A tree is rendered as it stands: nothing is
//! parenthesized, reordered or normalized on the way.
//!
//! Four things are asked of a tree beyond its shape, and `well_formed` says
//! them: a `CASE` has as many conditions as results, an external table has a
//! file format and a location, an object name has at least one part, and a
//! window frame does not start at a `FOLLOWING` bound. The constructors that
//! return a `Result` refuse a node that would break one of them,
//! `is_well_formed` decides it for a whole tree, and `try_to_string` renders
//! a tree only if it is well formed.
//!
//! Expressions are rendered and examined with an explicit stack, not with
//! calls that nest as the tree does, so an expression may be nested to any
//! depth. Statements nest only where a transaction holds a transaction, and
//! there a call is made for each level.
//!
//! The modules, from the leaves up: `text` joins rendered items; `name` has
//! identifiers, object names and the fragments whose grammar is defined
//! elsewhere (queries, data types, literal values, operators); `window` and
//! `file_format` have the small enumerations and their keywords; `expr` has
//! expressions, function calls and window specifications; `part` has
//! options, assignments and column definitions; `assemble` says what each
//! kind of statement looks like; `statement` has the statements.

pub mod assemble;
pub mod error;
pub mod expr;
pub mod file_format;
pub mod name;
pub mod part;
mod render;
mod size;
pub mod statement;
pub mod text;
mod validate;
pub mod window;

pub use crate::error::{ConstructionError, ParserError};
pub use crate::expr::{ASTNode, SQLFunction, SQLWindowSpec};
pub use crate::name::{
    AlterTableOperation, SQLDateTimeField, SQLFragment, SQLIdent, SQLObjectName, SQLOperator,
    SQLOrderByExpr, SQLQuery, SQLType, TableConstraint, Value,
};
pub use crate::file_format::FileFormat;
pub use crate::part::{SQLAssignment, SQLColumnDef, SQLOption};
pub use crate::statement::{SQLObjectType, SQLStatement};
pub use crate::text::comma_separated_string;
pub use crate::window::{SQLWindowFrame, SQLWindowFrameBound, SQLWindowFrameUnits};
