//! Expressions, function calls and window specifications: the types that
//! contain one another, and their rendering.

use vstd::prelude::*;
use vstd::string::*;
use crate::error::ConstructionError;
use crate::name::{
    clone_fragments, clone_strings, fragment_texts, SQLDateTimeField, SQLIdent, SQLObjectName,
    SQLOperator, SQLOrderByExpr, SQLQuery, SQLType, Value,
};
use crate::render::{render_function, render_node, render_window};
use crate::text::{comma_separated, join, keyword_if, optional_clause, texts};
use crate::validate::{function_is_well_formed, node_is_well_formed, window_is_well_formed};
use crate::window::SQLWindowFrame;

verus! {

/// An SQL expression of any type. Expressions of different types (boolean,
/// string) share this one representation, so a tree may hold an expression
/// where its type makes no sense, like `WHERE 1`; callers see to that.
#[derive(Debug, PartialEq, Eq, Hash)]
pub enum ASTNode {
    /// An identifier, such as the name of a table or a column
    SQLIdentifier(SQLIdent),
    /// The unqualified wildcard `*`
    SQLWildcard,
    /// A qualified wildcard: `alias.*`, `schema.table.*`
    SQLQualifiedWildcard(Vec<SQLIdent>),
    /// An identifier of several parts: `table_alias.column`
    SQLCompoundIdentifier(Vec<SQLIdent>),
    /// `<expr> IS NULL`
    SQLIsNull(Box<ASTNode>),
    /// `<expr> IS NOT NULL`
    SQLIsNotNull(Box<ASTNode>),
    /// `<expr> [ NOT ] IN (val1, val2, ...)`
    SQLInList { expr: Box<ASTNode>, list: Vec<ASTNode>, negated: bool },
    /// `<expr> [ NOT ] IN (SELECT ...)`
    SQLInSubquery { expr: Box<ASTNode>, subquery: Box<SQLQuery>, negated: bool },
    /// `<expr> [ NOT ] BETWEEN <low> AND <high>`
    SQLBetween { expr: Box<ASTNode>, negated: bool, low: Box<ASTNode>, high: Box<ASTNode> },
    /// A binary operation: `1 + 1`, `foo > bar`
    SQLBinaryExpr { left: Box<ASTNode>, op: SQLOperator, right: Box<ASTNode> },
    /// `CAST(<expr> AS <type>)`
    SQLCast { expr: Box<ASTNode>, data_type: SQLType },
    /// `EXTRACT(<field> FROM <expr>)`
    SQLExtract { field: SQLDateTimeField, expr: Box<ASTNode> },
    /// `<expr> COLLATE <collation>`
    SQLCollate { expr: Box<ASTNode>, collation: SQLObjectName },
    /// An expression in parentheses: `(foo > bar)`, `(1)`
    SQLNested(Box<ASTNode>),
    /// A unary operation
    SQLUnary { operator: SQLOperator, expr: Box<ASTNode> },
    /// A literal value
    SQLValue(Value),
    /// A function call: `LEFT(foo, 5)`
    SQLFunction(SQLFunction),
    /// `CASE [<operand>] WHEN <condition> THEN <result> ... [ELSE <result>] END`,
    /// with as many conditions as results
    SQLCase {
        operand: Option<Box<ASTNode>>,
        conditions: Vec<ASTNode>,
        results: Vec<ASTNode>,
        else_result: Option<Box<ASTNode>>,
    },
    /// `EXISTS (SELECT ...)`
    SQLExists(Box<SQLQuery>),
    /// A subquery in parentheses: `(SELECT ...)`
    SQLSubquery(Box<SQLQuery>),
}

/// A function call, with its window if it has one.
#[derive(Debug, PartialEq, Eq, Hash)]
pub struct SQLFunction {
    pub name: SQLObjectName,
    pub args: Vec<ASTNode>,
    pub over: Option<SQLWindowSpec>,
    /// An aggregate function may take `DISTINCT`: `COUNT(DISTINCT x)`.
    pub distinct: bool,
}

/// A window specification: `OVER (PARTITION BY .. ORDER BY .. <frame>)`
#[derive(Debug, PartialEq, Eq, Hash)]
pub struct SQLWindowSpec {
    pub partition_by: Vec<ASTNode>,
    pub order_by: Vec<SQLOrderByExpr>,
    pub window_frame: Option<SQLWindowFrame>,
}

/// The texts of a sequence of expressions, each rendered on its own.
pub open spec fn node_texts(nodes: Seq<ASTNode>) -> Seq<Seq<char>>
    decreases nodes,
{
    Seq::new(
        nodes.len(),
        |i: int|
            if 0 <= i < nodes.len() {
                nodes[i].sql()
            } else {
                Seq::empty()
            },
    )
}

/// Whether every expression of a sequence is well formed.
pub open spec fn nodes_well_formed(nodes: Seq<ASTNode>) -> bool
    decreases nodes,
{
    forall|i: int| 0 <= i < nodes.len() ==> (#[trigger] nodes[i]).well_formed()
}

/// The arms of a `CASE`: for each condition and its result, in order,
/// ` WHEN <condition> THEN <result>`.
pub open spec fn when_clauses(conditions: Seq<Seq<char>>, results: Seq<Seq<char>>) -> Seq<char>
    recommends
        conditions.len() == results.len(),
    decreases conditions.len(),
{
    if conditions.len() == 0 || results.len() == 0 {
        Seq::empty()
    } else {
        when_clauses(conditions.drop_last(), results.drop_last()) + " WHEN "@ + conditions.last()
            + " THEN "@ + results.last()
    }
}

/// `<expr> [NOT ]IN (<items>)`: the items separated by `", "`
pub open spec fn in_list_sql(expr: Seq<char>, negated: bool, items: Seq<Seq<char>>) -> Seq<char> {
    expr + " "@ + keyword_if(negated, "NOT "@) + "IN ("@ + comma_separated(items) + ")"@
}

/// `<expr> [NOT ]IN (<subquery>)`
pub open spec fn in_subquery_sql(expr: Seq<char>, negated: bool, subquery: Seq<char>) -> Seq<
    char,
> {
    expr + " "@ + keyword_if(negated, "NOT "@) + "IN ("@ + subquery + ")"@
}

/// `<expr> [NOT ]BETWEEN <low> AND <high>`
pub open spec fn between_sql(expr: Seq<char>, negated: bool, low: Seq<char>, high: Seq<char>) -> Seq<
    char,
> {
    expr + " "@ + keyword_if(negated, "NOT "@) + "BETWEEN "@ + low + " AND "@ + high
}

/// `<left> <op> <right>`, with single spaces and without parentheses
pub open spec fn binary_sql(left: Seq<char>, op: Seq<char>, right: Seq<char>) -> Seq<char> {
    left + " "@ + op + " "@ + right
}

/// `CAST(<expr> AS <type>)`
pub open spec fn cast_sql(expr: Seq<char>, data_type: Seq<char>) -> Seq<char> {
    "CAST("@ + expr + " AS "@ + data_type + ")"@
}

/// `EXTRACT(<field> FROM <expr>)`
pub open spec fn extract_sql(field: Seq<char>, expr: Seq<char>) -> Seq<char> {
    "EXTRACT("@ + field + " FROM "@ + expr + ")"@
}

/// `<expr> COLLATE <name>`
pub open spec fn collate_sql(expr: Seq<char>, collation: Seq<char>) -> Seq<char> {
    expr + " COLLATE "@ + collation
}

/// `(<expr>)`
pub open spec fn nested_sql(expr: Seq<char>) -> Seq<char> {
    "("@ + expr + ")"@
}

/// `<op> <expr>`: a space follows the operator, whatever the operator is
pub open spec fn unary_sql(operator: Seq<char>, expr: Seq<char>) -> Seq<char> {
    operator + " "@ + expr
}

/// `<name>([DISTINCT ]<args>)[ OVER (<window>)]`
pub open spec fn function_sql(
    name: Seq<char>,
    distinct: bool,
    args: Seq<Seq<char>>,
    over: Option<Seq<char>>,
) -> Seq<char> {
    name + "("@ + keyword_if(distinct, "DISTINCT "@) + comma_separated(args) + ")"@ + match over {
        Some(window) => " OVER ("@ + window + ")"@,
        None => Seq::empty(),
    }
}

/// `CASE[ <operand>]`, the arms, `[ ELSE <result>]` and ` END`
pub open spec fn case_sql(
    operand: Option<Seq<char>>,
    conditions: Seq<Seq<char>>,
    results: Seq<Seq<char>>,
    else_result: Option<Seq<char>>,
) -> Seq<char>
    recommends
        conditions.len() == results.len(),
{
    "CASE"@ + optional_clause(" "@, operand) + when_clauses(conditions, results) + optional_clause(
        " ELSE "@,
        else_result,
    ) + " END"@
}

/// The clauses of a window specification that are present, in this order:
/// `PARTITION BY` with its list, `ORDER BY` with its list, the frame.
pub open spec fn window_clauses(
    partition_by: Seq<Seq<char>>,
    order_by: Seq<Seq<char>>,
    frame: Option<Seq<char>>,
) -> Seq<Seq<char>> {
    (if partition_by.len() > 0 {
        seq!["PARTITION BY "@ + comma_separated(partition_by)]
    } else {
        Seq::empty()
    }) + (if order_by.len() > 0 {
        seq!["ORDER BY "@ + comma_separated(order_by)]
    } else {
        Seq::empty()
    }) + (match frame {
        Some(text) => seq![text],
        None => Seq::empty(),
    })
}

/// The clauses of a window specification that are present, with one space
/// between neighbours.
pub open spec fn window_sql(
    partition_by: Seq<Seq<char>>,
    order_by: Seq<Seq<char>>,
    frame: Option<Seq<char>>,
) -> Seq<char> {
    join(window_clauses(partition_by, order_by, frame), " "@)
}

/// Adding one arm to a `CASE` appends its ` WHEN .. THEN ..` to the arms
/// before it.
pub proof fn lemma_when_clauses_push(
    conditions: Seq<Seq<char>>,
    results: Seq<Seq<char>>,
    condition: Seq<char>,
    result: Seq<char>,
)
    ensures
        when_clauses(conditions.push(condition), results.push(result)) == when_clauses(
            conditions,
            results,
        ) + " WHEN "@ + condition + " THEN "@ + result,
{
    assert(conditions.push(condition).drop_last() =~= conditions);
    assert(results.push(result).drop_last() =~= results);
}

impl ASTNode {
    /// What the tree must satisfy beyond its shape: a `CASE` has as many
    /// conditions as results, every object name has a part, no window frame
    /// starts at a `FOLLOWING` bound; and so for every expression inside.
    pub open spec fn well_formed(&self) -> bool
        decreases self,
    {
        match self {
            ASTNode::SQLIdentifier(_) => true,
            ASTNode::SQLWildcard => true,
            ASTNode::SQLQualifiedWildcard(_) => true,
            ASTNode::SQLCompoundIdentifier(_) => true,
            ASTNode::SQLIsNull(expr) => expr.well_formed(),
            ASTNode::SQLIsNotNull(expr) => expr.well_formed(),
            ASTNode::SQLInList { expr, list, negated } => expr.well_formed() && nodes_well_formed(
                list@,
            ),
            ASTNode::SQLInSubquery { expr, subquery, negated } => expr.well_formed(),
            ASTNode::SQLBetween { expr, negated, low, high } => expr.well_formed()
                && low.well_formed() && high.well_formed(),
            ASTNode::SQLBinaryExpr { left, op, right } => left.well_formed() && right.well_formed(),
            ASTNode::SQLCast { expr, data_type } => expr.well_formed(),
            ASTNode::SQLExtract { field, expr } => expr.well_formed(),
            ASTNode::SQLCollate { expr, collation } => expr.well_formed()
                && collation.well_formed(),
            ASTNode::SQLNested(expr) => expr.well_formed(),
            ASTNode::SQLUnary { operator, expr } => expr.well_formed(),
            ASTNode::SQLValue(_) => true,
            ASTNode::SQLFunction(f) => f.well_formed(),
            ASTNode::SQLCase { operand, conditions, results, else_result } => {
                &&& conditions@.len() == results@.len()
                &&& nodes_well_formed(conditions@)
                &&& nodes_well_formed(results@)
                &&& match operand {
                    Some(expr) => expr.well_formed(),
                    None => true,
                }
                &&& match else_result {
                    Some(expr) => expr.well_formed(),
                    None => true,
                }
            },
            ASTNode::SQLExists(_) => true,
            ASTNode::SQLSubquery(_) => true,
        }
    }

    /// The SQL text of the expression. Nothing is parenthesized but what the
    /// tree says: an operand that needs parentheses is a `SQLNested`.
    pub open spec fn sql(&self) -> Seq<char>
        decreases self,
    {
        match self {
            ASTNode::SQLIdentifier(s) => s@,
            ASTNode::SQLWildcard => "*"@,
            ASTNode::SQLQualifiedWildcard(q) => join(texts(q@), "."@) + ".*"@,
            ASTNode::SQLCompoundIdentifier(s) => join(texts(s@), "."@),
            ASTNode::SQLIsNull(expr) => expr.sql() + " IS NULL"@,
            ASTNode::SQLIsNotNull(expr) => expr.sql() + " IS NOT NULL"@,
            ASTNode::SQLInList { expr, list, negated } => in_list_sql(
                expr.sql(),
                *negated,
                node_texts(list@),
            ),
            ASTNode::SQLInSubquery { expr, subquery, negated } => in_subquery_sql(
                expr.sql(),
                *negated,
                subquery.sql(),
            ),
            ASTNode::SQLBetween { expr, negated, low, high } => between_sql(
                expr.sql(),
                *negated,
                low.sql(),
                high.sql(),
            ),
            ASTNode::SQLBinaryExpr { left, op, right } => binary_sql(
                left.sql(),
                op.sql(),
                right.sql(),
            ),
            ASTNode::SQLCast { expr, data_type } => cast_sql(expr.sql(), data_type.sql()),
            ASTNode::SQLExtract { field, expr } => extract_sql(field.sql(), expr.sql()),
            ASTNode::SQLCollate { expr, collation } => collate_sql(expr.sql(), collation.sql()),
            ASTNode::SQLNested(expr) => nested_sql(expr.sql()),
            ASTNode::SQLUnary { operator, expr } => unary_sql(operator.sql(), expr.sql()),
            ASTNode::SQLValue(v) => v.sql(),
            ASTNode::SQLFunction(f) => f.sql(),
            ASTNode::SQLCase { operand, conditions, results, else_result } => case_sql(
                match operand {
                    Some(expr) => Some(expr.sql()),
                    None => None,
                },
                node_texts(conditions@),
                node_texts(results@),
                match else_result {
                    Some(expr) => Some(expr.sql()),
                    None => None,
                },
            ),
            ASTNode::SQLExists(q) => "EXISTS ("@ + q.sql() + ")"@,
            ASTNode::SQLSubquery(q) => "("@ + q.sql() + ")"@,
        }
    }
    /// A `CASE` expression of these parts, unless the conditions and the
    /// results differ in number.
    pub fn new_case(
        operand: Option<Box<ASTNode>>,
        conditions: Vec<ASTNode>,
        results: Vec<ASTNode>,
        else_result: Option<Box<ASTNode>>,
    ) -> (res: Result<ASTNode, ConstructionError>)
        ensures
            conditions@.len() == results@.len() ==> res == Ok::<ASTNode, ConstructionError>(
                (ASTNode::SQLCase { operand, conditions, results, else_result }),
            ),
            conditions@.len() != results@.len() ==> res == Err::<ASTNode, ConstructionError>(
                (ConstructionError::CaseArityMismatch {
                    conditions: conditions@.len() as usize,
                    results: results@.len() as usize,
                }),
            ),
    {
        if conditions.len() == results.len() {
            Ok(ASTNode::SQLCase { operand, conditions, results, else_result })
        } else {
            Err(
                ConstructionError::CaseArityMismatch {
                    conditions: conditions.len(),
                    results: results.len(),
                },
            )
        }
    }

    /// Whether the tree is well formed. The tree is walked with a stack of
    /// what is still to be looked at, so a deeply nested expression takes no
    /// deeper calls than a flat one.
    pub fn is_well_formed(&self) -> (res: bool)
        ensures
            res == self.well_formed(),
    {
        node_is_well_formed(self)
    }

    /// Renders the expression if it is well formed, and says so if it is
    /// not. This is the way in for a tree of unknown making.
    pub fn try_to_string(&self) -> (res: Option<String>)
        ensures
            res is Some <==> self.well_formed(),
            res is Some ==> res.unwrap()@ == self.sql(),
    {
        if self.is_well_formed() {
            Some(self.to_string())
        } else {
            None
        }
    }

    /// Renders the expression as SQL text. The work is done with a stack of
    /// what is still to be written, so a deeply nested expression takes no
    /// deeper calls than a flat one.
    pub fn to_string(&self) -> (res: String)
        requires
            self.well_formed(),
        ensures
            res@ == self.sql(),
    {
        render_node(self)
    }
}

impl SQLFunction {
    /// The name has a part, and the arguments and the window are well formed.
    pub open spec fn well_formed(&self) -> bool
        decreases self,
    {
        &&& self.name.well_formed()
        &&& nodes_well_formed(self.args@)
        &&& match self.over {
            Some(spec) => spec.well_formed(),
            None => true,
        }
    }

    /// `<name>([DISTINCT ]<args>)[ OVER (<window>)]`
    pub open spec fn sql(&self) -> Seq<char>
        decreases self,
    {
        function_sql(
            self.name.sql(),
            self.distinct,
            node_texts(self.args@),
            match self.over {
                Some(spec) => Some(spec.sql()),
                None => None,
            },
        )
    }

    /// Whether the call is well formed.
    pub fn is_well_formed(&self) -> (res: bool)
        ensures
            res == self.well_formed(),
    {
        function_is_well_formed(self)
    }

    /// Renders the call as SQL text.
    pub fn to_string(&self) -> (res: String)
        requires
            self.well_formed(),
        ensures
            res@ == self.sql(),
    {
        render_function(self)
    }
}

impl SQLWindowSpec {
    /// The partitioning expressions and the frame are well formed.
    pub open spec fn well_formed(&self) -> bool
        decreases self,
    {
        &&& nodes_well_formed(self.partition_by@)
        &&& match self.window_frame {
            Some(frame) => frame.well_formed(),
            None => true,
        }
    }

    /// The clauses that are present, with one space between neighbours.
    pub open spec fn sql(&self) -> Seq<char>
        decreases self,
    {
        window_sql(
            node_texts(self.partition_by@),
            fragment_texts(self.order_by@),
            match self.window_frame {
                Some(frame) => Some(frame.sql()),
                None => None,
            },
        )
    }

    /// Whether the specification is well formed.
    pub fn is_well_formed(&self) -> (res: bool)
        ensures
            res == self.well_formed(),
    {
        window_is_well_formed(self)
    }

    /// Renders the specification as SQL text: what stands inside
    /// `OVER (..)`.
    pub fn to_string(&self) -> (res: String)
        requires
            self.well_formed(),
        ensures
            res@ == self.sql(),
    {
        render_window(self)
    }
}

/// A copy of each expression of `nodes`: as many, each with the text of the
/// one it was made from, and well formed if that one is.
pub fn clone_nodes(nodes: &Vec<ASTNode>) -> (res: Vec<ASTNode>)
    ensures
        res@.len() == nodes@.len(),
        node_texts(res@) == node_texts(nodes@),
        nodes_well_formed(res@) == nodes_well_formed(nodes@),
    decreases nodes,
{
    let mut out: Vec<ASTNode> = Vec::new();
    let mut i: usize = 0;
    while i < nodes.len()
        invariant
            i <= nodes.len(),
            out@.len() == i,
            forall|k: int|
                0 <= k < i ==> (#[trigger] out@[k]).sql() == nodes@[k].sql() && out@[k].well_formed()
                    == nodes@[k].well_formed(),
        decreases nodes.len() - i,
    {
        out.push(ASTNode::clone(&nodes[i]));
        i += 1;
    }
    assert(node_texts(out@) =~= node_texts(nodes@));
    assert(nodes_well_formed(out@) == nodes_well_formed(nodes@)) by {
        if nodes_well_formed(nodes@) {
            assert forall|k: int| 0 <= k < out@.len() implies (#[trigger] out@[k]).well_formed() by {
                assert(nodes@[k].well_formed());
            }
        }
        if nodes_well_formed(out@) {
            assert forall|k: int| 0 <= k < nodes@.len() implies (#[trigger] nodes@[k]).well_formed() by {
                assert(out@[k].well_formed());
            }
        }
    }
    out
}

/// A copy of an optional expression in a box.
pub fn clone_boxed_option(node: &Option<Box<ASTNode>>) -> (res: Option<Box<ASTNode>>)
    ensures
        res is Some <==> *node is Some,
        res is Some ==> res.unwrap().sql() == node.unwrap().sql() && res.unwrap().well_formed()
            == node.unwrap().well_formed(),
    decreases node,
{
    match node {
        Some(expr) => Some(Box::new(ASTNode::clone(expr))),
        None => None,
    }
}

impl Clone for ASTNode {
    /// A copy of the tree: it has the same text, and is well formed if the
    /// tree is.
    fn clone(&self) -> (res: Self)
        ensures
            res.sql() == self.sql(),
            res.well_formed() == self.well_formed(),
        decreases self,
    {
        match self {
            ASTNode::SQLIdentifier(s) => ASTNode::SQLIdentifier(s.clone()),
            ASTNode::SQLWildcard => ASTNode::SQLWildcard,
            ASTNode::SQLQualifiedWildcard(q) => ASTNode::SQLQualifiedWildcard(clone_strings(q)),
            ASTNode::SQLCompoundIdentifier(s) => ASTNode::SQLCompoundIdentifier(clone_strings(s)),
            ASTNode::SQLIsNull(expr) => ASTNode::SQLIsNull(Box::new(ASTNode::clone(expr))),
            ASTNode::SQLIsNotNull(expr) => ASTNode::SQLIsNotNull(Box::new(ASTNode::clone(expr))),
            ASTNode::SQLInList { expr, list, negated } => ASTNode::SQLInList {
                expr: Box::new(ASTNode::clone(expr)),
                list: clone_nodes(list),
                negated: *negated,
            },
            ASTNode::SQLInSubquery { expr, subquery, negated } => ASTNode::SQLInSubquery {
                expr: Box::new(ASTNode::clone(expr)),
                subquery: Box::new(SQLQuery::clone(subquery)),
                negated: *negated,
            },
            ASTNode::SQLBetween { expr, negated, low, high } => ASTNode::SQLBetween {
                expr: Box::new(ASTNode::clone(expr)),
                negated: *negated,
                low: Box::new(ASTNode::clone(low)),
                high: Box::new(ASTNode::clone(high)),
            },
            ASTNode::SQLBinaryExpr { left, op, right } => ASTNode::SQLBinaryExpr {
                left: Box::new(ASTNode::clone(left)),
                op: op.clone(),
                right: Box::new(ASTNode::clone(right)),
            },
            ASTNode::SQLCast { expr, data_type } => ASTNode::SQLCast {
                expr: Box::new(ASTNode::clone(expr)),
                data_type: data_type.clone(),
            },
            ASTNode::SQLExtract { field, expr } => ASTNode::SQLExtract {
                field: *field,
                expr: Box::new(ASTNode::clone(expr)),
            },
            ASTNode::SQLCollate { expr, collation } => ASTNode::SQLCollate {
                expr: Box::new(ASTNode::clone(expr)),
                collation: collation.clone(),
            },
            ASTNode::SQLNested(expr) => ASTNode::SQLNested(Box::new(ASTNode::clone(expr))),
            ASTNode::SQLUnary { operator, expr } => ASTNode::SQLUnary {
                operator: operator.clone(),
                expr: Box::new(ASTNode::clone(expr)),
            },
            ASTNode::SQLValue(v) => ASTNode::SQLValue(v.clone()),
            ASTNode::SQLFunction(f) => ASTNode::SQLFunction(SQLFunction::clone(f)),
            ASTNode::SQLCase { operand, conditions, results, else_result } => ASTNode::SQLCase {
                operand: clone_boxed_option(operand),
                conditions: clone_nodes(conditions),
                results: clone_nodes(results),
                else_result: clone_boxed_option(else_result),
            },
            ASTNode::SQLExists(q) => ASTNode::SQLExists(Box::new(SQLQuery::clone(q))),
            ASTNode::SQLSubquery(q) => ASTNode::SQLSubquery(Box::new(SQLQuery::clone(q))),
        }
    }
}

impl Clone for SQLFunction {
    /// A copy of the call: it has the same text, and is well formed if the
    /// call is.
    fn clone(&self) -> (res: Self)
        ensures
            res.sql() == self.sql(),
            res.well_formed() == self.well_formed(),
        decreases self,
    {
        SQLFunction {
            name: self.name.clone(),
            args: clone_nodes(&self.args),
            over: match &self.over {
                Some(spec) => Some(SQLWindowSpec::clone(spec)),
                None => None,
            },
            distinct: self.distinct,
        }
    }
}

impl Clone for SQLWindowSpec {
    /// A copy of the specification: it has the same text, and is well formed
    /// if the specification is.
    fn clone(&self) -> (res: Self)
        ensures
            res.sql() == self.sql(),
            res.well_formed() == self.well_formed(),
        decreases self,
    {
        SQLWindowSpec {
            partition_by: clone_nodes(&self.partition_by),
            order_by: clone_fragments(&self.order_by),
            window_frame: self.window_frame,
        }
    }
}

/// A `CASE` with two arms, an operand and an `ELSE` reads
/// `CASE o WHEN c1 THEN r1 WHEN c2 THEN r2 ELSE e END`; without the operand
/// or without the `ELSE`, exactly ` o` or ` ELSE e` is gone.
#[verifier::rlimit(30)]
pub proof fn lemma_case_two_arms(
    o: Seq<char>,
    c1: Seq<char>,
    r1: Seq<char>,
    c2: Seq<char>,
    r2: Seq<char>,
    e: Seq<char>,
)
    ensures
        case_sql(Some(o), seq![c1, c2], seq![r1, r2], Some(e)) == "CASE "@ + o + " WHEN "@ + c1
            + " THEN "@ + r1 + " WHEN "@ + c2 + " THEN "@ + r2 + " ELSE "@ + e + " END"@,
        case_sql(None, seq![c1, c2], seq![r1, r2], Some(e)) == "CASE"@ + " WHEN "@ + c1
            + " THEN "@ + r1 + " WHEN "@ + c2 + " THEN "@ + r2 + " ELSE "@ + e + " END"@,
        case_sql(Some(o), seq![c1, c2], seq![r1, r2], None) == "CASE "@ + o + " WHEN "@ + c1
            + " THEN "@ + r1 + " WHEN "@ + c2 + " THEN "@ + r2 + " END"@,
        case_sql(None, seq![c1, c2], seq![r1, r2], None) == "CASE"@ + " WHEN "@ + c1 + " THEN "@
            + r1 + " WHEN "@ + c2 + " THEN "@ + r2 + " END"@,
{
    reveal_strlit("CASE");
    reveal_strlit("CASE ");
    reveal_strlit(" ");
    let none = Seq::<Seq<char>>::empty();
    assert(when_clauses(none, none) =~= Seq::<char>::empty());
    lemma_when_clauses_push(none, none, c1, r1);
    lemma_when_clauses_push(seq![c1], seq![r1], c2, r2);
    assert(none.push(c1) =~= seq![c1]);
    assert(none.push(r1) =~= seq![r1]);
    assert(seq![c1].push(c2) =~= seq![c1, c2]);
    assert(seq![r1].push(r2) =~= seq![r1, r2]);
    let arms = when_clauses(seq![c1, c2], seq![r1, r2]);
    assert(arms =~= " WHEN "@ + c1 + " THEN "@ + r1 + " WHEN "@ + c2 + " THEN "@ + r2);
    assert("CASE "@ =~= "CASE"@ + " "@);
    assert(case_sql(Some(o), seq![c1, c2], seq![r1, r2], Some(e)) =~= "CASE "@ + o + " WHEN "@
        + c1 + " THEN "@ + r1 + " WHEN "@ + c2 + " THEN "@ + r2 + " ELSE "@ + e + " END"@);
    assert(case_sql(None, seq![c1, c2], seq![r1, r2], Some(e)) =~= "CASE"@ + " WHEN "@ + c1
        + " THEN "@ + r1 + " WHEN "@ + c2 + " THEN "@ + r2 + " ELSE "@ + e + " END"@);
    assert(case_sql(Some(o), seq![c1, c2], seq![r1, r2], None) =~= "CASE "@ + o + " WHEN "@ + c1
        + " THEN "@ + r1 + " WHEN "@ + c2 + " THEN "@ + r2 + " END"@);
    assert(case_sql(None, seq![c1, c2], seq![r1, r2], None) =~= "CASE"@ + " WHEN "@ + c1
        + " THEN "@ + r1 + " WHEN "@ + c2 + " THEN "@ + r2 + " END"@);
}

/// A window specification holds a clause for each list that is not empty
/// and for the frame if there is one, and nothing for the others: no
/// keyword and no space.
pub proof fn lemma_window_clauses(
    partition_by: Seq<Seq<char>>,
    order_by: Seq<Seq<char>>,
    frame: Option<Seq<char>>,
)
    ensures
        partition_by.len() == 0 && order_by.len() == 0 && frame is None ==> window_sql(
            partition_by,
            order_by,
            frame,
        ) == Seq::<char>::empty(),
        partition_by.len() > 0 && order_by.len() == 0 && frame is None ==> window_sql(
            partition_by,
            order_by,
            frame,
        ) == "PARTITION BY "@ + join(partition_by, ", "@),
        partition_by.len() == 0 && order_by.len() > 0 && frame is None ==> window_sql(
            partition_by,
            order_by,
            frame,
        ) == "ORDER BY "@ + join(order_by, ", "@),
        partition_by.len() == 0 && order_by.len() == 0 && frame is Some ==> window_sql(
            partition_by,
            order_by,
            frame,
        ) == frame.unwrap(),
        partition_by.len() > 0 && order_by.len() > 0 && frame is None ==> window_sql(
            partition_by,
            order_by,
            frame,
        ) == "PARTITION BY "@ + join(partition_by, ", "@) + " "@ + ("ORDER BY "@ + join(
            order_by,
            ", "@,
        )),
        partition_by.len() > 0 && order_by.len() == 0 && frame is Some ==> window_sql(
            partition_by,
            order_by,
            frame,
        ) == "PARTITION BY "@ + join(partition_by, ", "@) + " "@ + frame.unwrap(),
        partition_by.len() == 0 && order_by.len() > 0 && frame is Some ==> window_sql(
            partition_by,
            order_by,
            frame,
        ) == "ORDER BY "@ + join(order_by, ", "@) + " "@ + frame.unwrap(),
        partition_by.len() > 0 && order_by.len() > 0 && frame is Some ==> window_sql(
            partition_by,
            order_by,
            frame,
        ) == "PARTITION BY "@ + join(partition_by, ", "@) + " "@ + ("ORDER BY "@ + join(
            order_by,
            ", "@,
        )) + " "@ + frame.unwrap(),
{
    let p = "PARTITION BY "@ + join(partition_by, ", "@);
    let o = "ORDER BY "@ + join(order_by, ", "@);
    let sp = " "@;
    let clauses = window_clauses(partition_by, order_by, frame);
    if partition_by.len() > 0 {
        if order_by.len() > 0 {
            match frame {
                Some(f) => {
                    assert(clauses =~= seq![p, o, f]);
                    assert(seq![p, o, f].drop_last() =~= seq![p, o]);
                    assert(seq![p, o].drop_last() =~= seq![p]);
                    assert(join(seq![p], sp) == p);
                    assert(join(seq![p, o], sp) == p + sp + o);
                    assert(join(seq![p, o, f], sp) == p + sp + o + sp + f);
                },
                None => {
                    assert(clauses =~= seq![p, o]);
                    assert(seq![p, o].drop_last() =~= seq![p]);
                    assert(join(seq![p], sp) == p);
                    assert(join(seq![p, o], sp) == p + sp + o);
                },
            }
        } else {
            match frame {
                Some(f) => {
                    assert(clauses =~= seq![p, f]);
                    assert(seq![p, f].drop_last() =~= seq![p]);
                    assert(join(seq![p], sp) == p);
                    assert(join(seq![p, f], sp) == p + sp + f);
                },
                None => {
                    assert(clauses =~= seq![p]);
                    assert(join(seq![p], sp) == p);
                },
            }
        }
    } else {
        if order_by.len() > 0 {
            match frame {
                Some(f) => {
                    assert(clauses =~= seq![o, f]);
                    assert(seq![o, f].drop_last() =~= seq![o]);
                    assert(join(seq![o], sp) == o);
                    assert(join(seq![o, f], sp) == o + sp + f);
                },
                None => {
                    assert(clauses =~= seq![o]);
                    assert(join(seq![o], sp) == o);
                },
            }
        } else {
            match frame {
                Some(f) => {
                    assert(clauses =~= seq![f]);
                    assert(join(seq![f], sp) == f);
                },
                None => {
                    assert(clauses =~= Seq::<Seq<char>>::empty());
                },
            }
        }
    }
}

} // verus!
