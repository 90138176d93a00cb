//! How much work a tree is: bounds on the number of steps that a walk with
//! an explicit stack takes, by which such a walk is shown to end.

use vstd::prelude::*;
use crate::expr::{ASTNode, SQLFunction, SQLWindowSpec};

verus! {

/// A bound on the steps that going through the expressions of a list takes,
/// from index `from` on.
pub open spec fn nodes_size(nodes: Seq<ASTNode>, from: int) -> nat
    decreases nodes, nodes.len() - from,
{
    if 0 <= from < nodes.len() {
        3 + node_size(nodes[from]) + nodes_size(nodes, from + 1)
    } else {
        1
    }
}

/// A bound on the steps that going through an optional expression takes.
pub open spec fn optional_size(node: Option<Box<ASTNode>>) -> nat
    decreases node,
{
    match node {
        Some(expr) => node_size(*expr) + 1,
        None => 0,
    }
}

/// A bound on the steps that going through an expression takes: one for
/// the expression, one for each text around its parts, and what its parts
/// take.
pub open spec fn node_size(node: ASTNode) -> nat
    decreases node,
{
    match node {
        ASTNode::SQLIdentifier(_) => 1,
        ASTNode::SQLWildcard => 1,
        ASTNode::SQLQualifiedWildcard(_) => 1,
        ASTNode::SQLCompoundIdentifier(_) => 1,
        ASTNode::SQLIsNull(expr) => node_size(*expr) + 2,
        ASTNode::SQLIsNotNull(expr) => node_size(*expr) + 2,
        ASTNode::SQLInList { expr, list, negated } => node_size(*expr) + nodes_size(list@, 0) + 5,
        ASTNode::SQLInSubquery { expr, subquery, negated } => node_size(*expr) + 6,
        ASTNode::SQLBetween { expr, negated, low, high } => node_size(*expr) + node_size(*low)
            + node_size(*high) + 5,
        ASTNode::SQLBinaryExpr { left, op, right } => node_size(*left) + node_size(*right) + 4,
        ASTNode::SQLCast { expr, data_type } => node_size(*expr) + 5,
        ASTNode::SQLExtract { field, expr } => node_size(*expr) + 5,
        ASTNode::SQLCollate { expr, collation } => node_size(*expr) + 3,
        ASTNode::SQLNested(expr) => node_size(*expr) + 3,
        ASTNode::SQLUnary { operator, expr } => node_size(*expr) + 3,
        ASTNode::SQLValue(_) => 1,
        ASTNode::SQLFunction(f) => function_size(f) + 1,
        ASTNode::SQLCase { operand, conditions, results, else_result } => optional_size(operand)
            + nodes_size(conditions@, 0) + nodes_size(results@, 0) + optional_size(else_result)
            + 3,
        ASTNode::SQLExists(_) => 1,
        ASTNode::SQLSubquery(_) => 1,
    }
}

/// A bound on the steps that going through a function call takes.
pub open spec fn function_size(f: SQLFunction) -> nat
    decreases f,
{
    nodes_size(f.args@, 0) + (match f.over {
        Some(spec) => window_size(spec) + 2,
        None => 0,
    }) + 5
}

/// A bound on the steps that going through a window specification takes.
pub open spec fn window_size(spec: SQLWindowSpec) -> nat
    decreases spec,
{
    nodes_size(spec.partition_by@, 0) + 7
}

} // verus!
