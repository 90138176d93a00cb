//! Deciding whether a tree is well formed, with an explicit stack of what
//! is still to be looked at, so that the depth of a tree does not bound what
//! can be decided.

use vstd::prelude::*;
use crate::expr::{nodes_well_formed, ASTNode, SQLFunction, SQLWindowSpec};
use crate::size::{function_size, node_size, nodes_size, optional_size, window_size};

verus! {

/// One thing still to be looked at.
pub enum Probe<'a> {
    /// An expression
    Node(&'a ASTNode),
    /// The expressions of a list from an index on
    Nodes(&'a Vec<ASTNode>, usize),
}

/// Whether every expression of a sequence from index `from` on is well
/// formed.
pub open spec fn nodes_well_formed_from(nodes: Seq<ASTNode>, from: int) -> bool {
    forall|k: int| from <= k < nodes.len() ==> (#[trigger] nodes[k]).well_formed()
}

impl<'a> Probe<'a> {
    /// Every expression that the probe stands for is well formed.
    pub open spec fn holds(&self) -> bool {
        match self {
            Probe::Node(node) => node.well_formed(),
            Probe::Nodes(nodes, from) => nodes_well_formed_from(nodes@, *from as int),
        }
    }

    /// A bound on the steps that the probe takes; at least one.
    pub open spec fn size(&self) -> nat {
        match self {
            Probe::Node(node) => node_size(**node),
            Probe::Nodes(nodes, from) => nodes_size(nodes@, *from as int),
        }
    }
}

/// Whether every probe of a stack holds.
#[verifier::opaque]
pub open spec fn pending_holds(stack: Seq<Probe>) -> bool {
    forall|i: int| 0 <= i < stack.len() ==> (#[trigger] stack[i]).holds()
}

/// A bound on the steps that a stack of probes takes.
#[verifier::opaque]
pub open spec fn pending_steps(stack: Seq<Probe>) -> nat
    decreases stack.len(),
{
    if stack.len() == 0 {
        0
    } else {
        stack.last().size() + pending_steps(stack.drop_last())
    }
}

/// A stack with nothing on it.
pub fn no_probes<'a>() -> (res: Vec<Probe<'a>>)
    ensures
        pending_holds(res@),
        pending_steps(res@) == 0,
{
    reveal(pending_holds);
    reveal(pending_steps);
    Vec::new()
}

/// Puts a probe on the stack.
pub fn push_probe<'a>(stack: &mut Vec<Probe<'a>>, probe: Probe<'a>)
    ensures
        pending_holds(final(stack)@) == (probe.holds() && pending_holds(old(stack)@)),
        pending_steps(final(stack)@) == pending_steps(old(stack)@) + probe.size(),
{
    reveal(pending_holds);
    reveal(pending_steps);
    stack.push(probe);
    assert(stack@.drop_last() =~= old(stack)@);
    assert(stack@.last() == probe);
    proof {
        if probe.holds() && pending_holds(old(stack)@) {
            assert forall|i: int| 0 <= i < stack@.len() implies (#[trigger] stack@[i]).holds() by {
                if i < old(stack)@.len() {
                    assert(stack@[i] == old(stack)@[i]);
                }
            }
        }
        if pending_holds(stack@) {
            assert(stack@[stack@.len() - 1].holds());
            assert forall|i: int| 0 <= i < old(stack)@.len() implies (
            #[trigger] old(stack)@[i]).holds() by {
                assert(stack@[i] == old(stack)@[i]);
            }
        }
    }
}

/// Puts an optional expression on the stack.
pub fn push_optional_probe<'a>(stack: &mut Vec<Probe<'a>>, node: &'a Option<Box<ASTNode>>)
    ensures
        pending_holds(final(stack)@) == ((*node matches Some(expr) ==> expr.well_formed())
            && pending_holds(old(stack)@)),
        pending_steps(final(stack)@) <= pending_steps(old(stack)@) + optional_size(*node),
{
    match node {
        Some(expr) => {
            push_probe(stack, Probe::Node(expr));
        },
        None => {},
    }
}

/// A list of expressions is well formed if all of it from the start is.
pub proof fn lemma_nodes_from_start(nodes: Seq<ASTNode>)
    ensures
        nodes_well_formed(nodes) == nodes_well_formed_from(nodes, 0),
{
}

/// Looks at a window specification: decides what can be decided at once and
/// puts the rest on the stack. Says `false` only if the specification is not
/// well formed.
pub fn examine_window<'a>(spec: &'a SQLWindowSpec, stack: &mut Vec<Probe<'a>>) -> (ok: bool)
    ensures
        !ok ==> !spec.well_formed(),
        ok ==> pending_holds(final(stack)@) == (spec.well_formed() && pending_holds(old(stack)@)),
        ok ==> pending_steps(final(stack)@) < pending_steps(old(stack)@) + window_size(*spec),
{
    let frame_ok = match &spec.window_frame {
        Some(frame) => frame.is_well_formed(),
        None => true,
    };
    if !frame_ok {
        return false;
    }
    push_probe(stack, Probe::Nodes(&spec.partition_by, 0));
    proof {
        lemma_nodes_from_start(spec.partition_by@);
    }
    true
}

/// Looks at a function call: decides what can be decided at once and puts
/// the rest on the stack. Says `false` only if the call is not well formed.
pub fn examine_function<'a>(f: &'a SQLFunction, stack: &mut Vec<Probe<'a>>) -> (ok: bool)
    ensures
        !ok ==> !f.well_formed(),
        ok ==> pending_holds(final(stack)@) == (f.well_formed() && pending_holds(old(stack)@)),
        ok ==> pending_steps(final(stack)@) < pending_steps(old(stack)@) + function_size(*f),
{
    if !f.name.is_well_formed() {
        return false;
    }
    push_probe(stack, Probe::Nodes(&f.args, 0));
    proof {
        lemma_nodes_from_start(f.args@);
    }
    match &f.over {
        Some(spec) => examine_window(spec, stack),
        None => true,
    }
}

/// Looks at an expression: decides what can be decided at once and puts the
/// parts on the stack. Says `false` only if the expression is not well
/// formed.
pub fn examine_node<'a>(node: &'a ASTNode, stack: &mut Vec<Probe<'a>>) -> (ok: bool)
    ensures
        !ok ==> !node.well_formed(),
        ok ==> pending_holds(final(stack)@) == (node.well_formed() && pending_holds(old(stack)@)),
        ok ==> pending_steps(final(stack)@) < pending_steps(old(stack)@) + node_size(*node),
{
    match node {
        ASTNode::SQLIsNull(expr) => {
            push_probe(stack, Probe::Node(expr));
            true
        },
        ASTNode::SQLIsNotNull(expr) => {
            push_probe(stack, Probe::Node(expr));
            true
        },
        ASTNode::SQLInList { expr, list, negated } => {
            push_probe(stack, Probe::Nodes(list, 0));
            push_probe(stack, Probe::Node(expr));
            proof {
                lemma_nodes_from_start(list@);
            }
            true
        },
        ASTNode::SQLInSubquery { expr, subquery, negated } => {
            push_probe(stack, Probe::Node(expr));
            true
        },
        ASTNode::SQLBetween { expr, negated, low, high } => {
            push_probe(stack, Probe::Node(high));
            push_probe(stack, Probe::Node(low));
            push_probe(stack, Probe::Node(expr));
            true
        },
        ASTNode::SQLBinaryExpr { left, op, right } => {
            push_probe(stack, Probe::Node(right));
            push_probe(stack, Probe::Node(left));
            true
        },
        ASTNode::SQLCast { expr, data_type } => {
            push_probe(stack, Probe::Node(expr));
            true
        },
        ASTNode::SQLExtract { field, expr } => {
            push_probe(stack, Probe::Node(expr));
            true
        },
        ASTNode::SQLCollate { expr, collation } => {
            if !collation.is_well_formed() {
                return false;
            }
            push_probe(stack, Probe::Node(expr));
            true
        },
        ASTNode::SQLNested(expr) => {
            push_probe(stack, Probe::Node(expr));
            true
        },
        ASTNode::SQLUnary { operator, expr } => {
            push_probe(stack, Probe::Node(expr));
            true
        },
        ASTNode::SQLFunction(f) => examine_function(f, stack),
        ASTNode::SQLCase { operand, conditions, results, else_result } => {
            if conditions.len() != results.len() {
                return false;
            }
            push_optional_probe(stack, else_result);
            push_probe(stack, Probe::Nodes(results, 0));
            push_probe(stack, Probe::Nodes(conditions, 0));
            push_optional_probe(stack, operand);
            proof {
                lemma_nodes_from_start(conditions@);
                lemma_nodes_from_start(results@);
            }
            true
        },
        _ => true,
    }
}

/// Looks at the rest of a list: puts its first expression and what follows
/// on the stack.
pub fn examine_nodes<'a>(nodes: &'a Vec<ASTNode>, from: usize, stack: &mut Vec<Probe<'a>>)
    ensures
        pending_holds(final(stack)@) == (nodes_well_formed_from(nodes@, from as int)
            && pending_holds(old(stack)@)),
        pending_steps(final(stack)@) < pending_steps(old(stack)@) + nodes_size(nodes@, from as int),
{
    if from < nodes.len() {
        push_probe(stack, Probe::Nodes(nodes, from + 1));
        push_probe(stack, Probe::Node(&nodes[from]));
        assert(nodes_well_formed_from(nodes@, from as int) == (nodes@[from as int].well_formed()
            && nodes_well_formed_from(nodes@, from + 1))) by {
            if nodes@[from as int].well_formed() && nodes_well_formed_from(nodes@, from + 1) {
                assert forall|k: int| from <= k < nodes@.len() implies (
                #[trigger] nodes@[k]).well_formed() by {
                    if k > from {
                        assert(nodes_well_formed_from(nodes@, from + 1));
                    }
                }
            }
        }
    }
}

/// Whether every probe of a stack holds. No call is nested deeper for a
/// deeper tree: what is still to be looked at waits on the stack.
pub fn all_hold<'a>(probes: Vec<Probe<'a>>) -> (res: bool)
    ensures
        res == pending_holds(probes@),
{
    let ghost asked = pending_holds(probes@);
    let mut stack = probes;
    while stack.len() > 0
        invariant
            asked == pending_holds(probes@),
            pending_holds(stack@) == asked,
        decreases pending_steps(stack@),
    {
        let ghost before = stack@;
        proof {
            reveal(pending_holds);
            reveal(pending_steps);
        }
        let probe = stack.pop().unwrap();
        assert(stack@ =~= before.drop_last());
        assert(probe == before.last());
        assert(pending_steps(before) == probe.size() + pending_steps(stack@));
        assert(pending_holds(before) == (probe.holds() && pending_holds(stack@))) by {
            if probe.holds() && pending_holds(stack@) {
                assert forall|i: int| 0 <= i < before.len() implies (#[trigger] before[i]).holds() by {
                    if i < stack@.len() {
                        assert(before[i] == stack@[i]);
                    }
                }
            }
            if pending_holds(before) {
                assert(before[before.len() - 1].holds());
                assert forall|i: int| 0 <= i < stack@.len() implies (#[trigger] stack@[i]).holds() by {
                    assert(before[i] == stack@[i]);
                }
            }
        }
        match probe {
            Probe::Node(node) => {
                if !examine_node(node, &mut stack) {
                    return false;
                }
            },
            Probe::Nodes(nodes, from) => {
                examine_nodes(nodes, from, &mut stack);
            },
        }
    }
    proof {
        reveal(pending_holds);
    }
    true
}

/// Whether an expression is well formed.
pub fn node_is_well_formed(node: &ASTNode) -> (res: bool)
    ensures
        res == node.well_formed(),
{
    let mut stack = no_probes();
    push_probe(&mut stack, Probe::Node(node));
    all_hold(stack)
}

/// Whether a function call is well formed.
pub fn function_is_well_formed(f: &SQLFunction) -> (res: bool)
    ensures
        res == f.well_formed(),
{
    let mut stack = no_probes();
    if !examine_function(f, &mut stack) {
        return false;
    }
    all_hold(stack)
}

/// Whether a window specification is well formed.
pub fn window_is_well_formed(spec: &SQLWindowSpec) -> (res: bool)
    ensures
        res == spec.well_formed(),
{
    let mut stack = no_probes();
    if !examine_window(spec, &mut stack) {
        return false;
    }
    all_hold(stack)
}

} // verus!
