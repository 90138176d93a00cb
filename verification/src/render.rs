//! Rendering with an explicit stack of what is still to be written, so that
//! the depth of a tree does not bound what can be rendered.

use vstd::prelude::*;
use vstd::string::*;
use crate::expr::{
    between_sql, binary_sql, case_sql, in_list_sql, in_subquery_sql, lemma_when_clauses_push,
    lemma_window_clauses, node_texts, nodes_well_formed, when_clauses, window_sql, ASTNode,
    SQLFunction, SQLWindowSpec,
};
use crate::name::{fragment_strings, fragment_texts};
use crate::size::{function_size, node_size, nodes_size, optional_size, window_size};
use crate::text::{
    comma_separated, comma_separated_string, join, join_strings, keyword_if, lemma_join_push,
    optional_clause, texts,
};

verus! {

/// The items of `parts` from index `from` on, each but the very first of
/// `parts` preceded by `sep`.
pub open spec fn join_from(parts: Seq<Seq<char>>, sep: Seq<char>, from: int) -> Seq<char>
    decreases parts.len() - from,
{
    if 0 <= from < parts.len() {
        (if from > 0 {
            sep
        } else {
            Seq::empty()
        }) + parts[from] + join_from(parts, sep, from + 1)
    } else {
        Seq::empty()
    }
}

/// A join is its first `k` items joined, and then the rest.
pub proof fn lemma_join_split(parts: Seq<Seq<char>>, sep: Seq<char>, k: int)
    requires
        0 <= k <= parts.len(),
    ensures
        join(parts, sep) == join(parts.take(k), sep) + join_from(parts, sep, k),
    decreases parts.len() - k,
{
    if k == parts.len() {
        assert(parts.take(k) =~= parts);
        assert(join(parts, sep) =~= join(parts, sep) + join_from(parts, sep, k));
    } else {
        lemma_join_split(parts, sep, k + 1);
        assert(parts.take(k + 1) =~= parts.take(k).push(parts[k]));
        lemma_join_push(parts.take(k), parts[k], sep);
        assert(join(parts.take(k + 1), sep) + join_from(parts, sep, k + 1) =~= join(
            parts.take(k),
            sep,
        ) + join_from(parts, sep, k));
    }
}

/// A join is all of its items from the first on.
pub proof fn lemma_join_from_start(parts: Seq<Seq<char>>, sep: Seq<char>)
    ensures
        join(parts, sep) == join_from(parts, sep, 0),
{
    lemma_join_split(parts, sep, 0);
    assert(parts.take(0) =~= Seq::<Seq<char>>::empty());
    assert(join(parts, sep) =~= join_from(parts, sep, 0));
}

/// The arms of a `CASE` from index `from` on.
pub open spec fn arms_from(conditions: Seq<Seq<char>>, results: Seq<Seq<char>>, from: int) -> Seq<
    char,
>
    recommends
        conditions.len() == results.len(),
    decreases conditions.len() - from,
{
    if 0 <= from < conditions.len() {
        " WHEN "@ + conditions[from] + " THEN "@ + results[from] + arms_from(
            conditions,
            results,
            from + 1,
        )
    } else {
        Seq::empty()
    }
}

/// The arms of a `CASE` are its first `k` arms, and then the rest.
pub proof fn lemma_arms_split(conditions: Seq<Seq<char>>, results: Seq<Seq<char>>, k: int)
    requires
        conditions.len() == results.len(),
        0 <= k <= conditions.len(),
    ensures
        when_clauses(conditions, results) == when_clauses(conditions.take(k), results.take(k))
            + arms_from(conditions, results, k),
    decreases conditions.len() - k,
{
    if k == conditions.len() {
        assert(conditions.take(k) =~= conditions);
        assert(results.take(k) =~= results);
        assert(when_clauses(conditions, results) =~= when_clauses(conditions, results) + arms_from(
            conditions,
            results,
            k,
        ));
    } else {
        lemma_arms_split(conditions, results, k + 1);
        assert(conditions.take(k + 1) =~= conditions.take(k).push(conditions[k]));
        assert(results.take(k + 1) =~= results.take(k).push(results[k]));
        lemma_when_clauses_push(conditions.take(k), results.take(k), conditions[k], results[k]);
        assert(when_clauses(conditions.take(k + 1), results.take(k + 1)) + arms_from(
            conditions,
            results,
            k + 1,
        ) =~= when_clauses(conditions.take(k), results.take(k)) + arms_from(
            conditions,
            results,
            k,
        ));
    }
}

/// The arms of a `CASE` are all of its arms from the first on.
pub proof fn lemma_arms_from_start(conditions: Seq<Seq<char>>, results: Seq<Seq<char>>)
    requires
        conditions.len() == results.len(),
    ensures
        when_clauses(conditions, results) == arms_from(conditions, results, 0),
{
    lemma_arms_split(conditions, results, 0);
    assert(conditions.take(0) =~= Seq::<Seq<char>>::empty());
    assert(when_clauses(conditions.take(0), results.take(0)) =~= Seq::<char>::empty());
    assert(when_clauses(conditions, results) =~= arms_from(conditions, results, 0));
}

/// One thing still to be written.
pub enum Task<'a> {
    /// A text, as it stands
    Text(&'a str),
    /// A text that was put together on the way
    Owned(String),
    /// An expression
    Node(&'a ASTNode),
    /// The expressions of a list from an index on, separated by `", "`
    Nodes(&'a Vec<ASTNode>, usize),
    /// The arms of a `CASE` from an index on, given its conditions and its
    /// results
    Arms(&'a Vec<ASTNode>, &'a Vec<ASTNode>, usize),
    /// A window specification
    Window(&'a SQLWindowSpec),
}

impl<'a> Task<'a> {
    /// Every expression that the task holds is well formed, and an index
    /// lies within its list.
    pub open spec fn well_formed(&self) -> bool {
        match self {
            Task::Text(_) => true,
            Task::Owned(_) => true,
            Task::Node(node) => node.well_formed(),
            Task::Nodes(nodes, from) => nodes_well_formed(nodes@) && *from <= nodes@.len(),
            Task::Arms(conditions, results, from) => {
                &&& nodes_well_formed(conditions@)
                &&& nodes_well_formed(results@)
                &&& conditions@.len() == results@.len()
                &&& *from <= conditions@.len()
            },
            Task::Window(spec) => spec.well_formed(),
        }
    }

    /// The text that the task stands for.
    pub open spec fn sql(&self) -> Seq<char> {
        match self {
            Task::Text(text) => text@,
            Task::Owned(text) => text@,
            Task::Node(node) => node.sql(),
            Task::Nodes(nodes, from) => join_from(node_texts(nodes@), ", "@, *from as int),
            Task::Arms(conditions, results, from) => arms_from(
                node_texts(conditions@),
                node_texts(results@),
                *from as int,
            ),
            Task::Window(spec) => spec.sql(),
        }
    }

    /// A bound on the steps that the task takes; at least one.
    pub open spec fn size(&self) -> nat {
        match self {
            Task::Text(_) => 1,
            Task::Owned(_) => 1,
            Task::Node(node) => node_size(**node),
            Task::Nodes(nodes, from) => nodes_size(nodes@, *from as int),
            Task::Arms(conditions, results, from) => nodes_size(conditions@, *from as int)
                + nodes_size(results@, *from as int),
            Task::Window(spec) => window_size(**spec),
        }
    }
}

/// The text of a stack of tasks: the top of the stack, which is its last
/// item, comes first.
#[verifier::opaque]
pub open spec fn pending_sql(stack: Seq<Task>) -> Seq<char>
    decreases stack.len(),
{
    if stack.len() == 0 {
        Seq::empty()
    } else {
        stack.last().sql() + pending_sql(stack.drop_last())
    }
}

/// A bound on the steps that a stack of tasks takes.
#[verifier::opaque]
pub open spec fn pending_size(stack: Seq<Task>) -> nat
    decreases stack.len(),
{
    if stack.len() == 0 {
        0
    } else {
        stack.last().size() + pending_size(stack.drop_last())
    }
}

/// Whether every task of a stack is well formed.
#[verifier::opaque]
pub open spec fn pending_well_formed(stack: Seq<Task>) -> bool {
    forall|i: int| 0 <= i < stack.len() ==> (#[trigger] stack[i]).well_formed()
}

/// Puts a task on the stack.
pub fn push_task<'a>(stack: &mut Vec<Task<'a>>, task: Task<'a>)
    requires
        task.well_formed(),
        pending_well_formed(old(stack)@),
    ensures
        pending_sql(final(stack)@) == task.sql() + pending_sql(old(stack)@),
        pending_size(final(stack)@) == pending_size(old(stack)@) + task.size(),
        pending_well_formed(final(stack)@),
{
    reveal(pending_sql);
    reveal(pending_size);
    reveal(pending_well_formed);
    stack.push(task);
    assert(stack@.drop_last() =~= old(stack)@);
}

/// Puts a keyword on the stack if the flag is set.
pub fn push_keyword_task<'a>(stack: &mut Vec<Task<'a>>, flag: bool, word: &'a str)
    requires
        pending_well_formed(old(stack)@),
    ensures
        pending_sql(final(stack)@) == keyword_if(flag, word@) + pending_sql(old(stack)@),
        pending_size(final(stack)@) <= pending_size(old(stack)@) + 1,
        pending_well_formed(final(stack)@),
{
    if flag {
        push_task(stack, Task::Text(word));
    } else {
        assert(pending_sql(stack@) =~= keyword_if(flag, word@) + pending_sql(stack@));
    }
}

/// The text of an optional expression.
pub open spec fn optional_node_text(node: Option<Box<ASTNode>>) -> Option<Seq<char>> {
    match node {
        Some(expr) => Some(expr.sql()),
        None => None,
    }
}

/// Puts an optional expression on the stack, with the text that stands
/// before it.
pub fn push_optional_node<'a>(
    stack: &mut Vec<Task<'a>>,
    before: &'a str,
    node: &'a Option<Box<ASTNode>>,
)
    requires
        pending_well_formed(old(stack)@),
        *node matches Some(expr) ==> expr.well_formed(),
    ensures
        pending_sql(final(stack)@) == optional_clause(before@, optional_node_text(*node))
            + pending_sql(old(stack)@),
        pending_size(final(stack)@) == pending_size(old(stack)@) + optional_size(*node),
        pending_well_formed(final(stack)@),
{
    match node {
        Some(expr) => {
            let ghost rest = pending_sql(stack@);
            push_task(stack, Task::Node(expr));
            push_task(stack, Task::Text(before));
            assert(pending_sql(stack@) =~= optional_clause(before@, optional_node_text(*node))
                + rest);
        },
        None => {
            assert(pending_sql(stack@) =~= optional_clause(before@, optional_node_text(*node))
                + pending_sql(stack@));
        },
    }
}

/// Replaces the rest of a list by its first expression and what follows.
pub fn expand_nodes<'a>(nodes: &'a Vec<ASTNode>, from: usize, stack: &mut Vec<Task<'a>>)
    requires
        nodes_well_formed(nodes@),
        from <= nodes@.len(),
        pending_well_formed(old(stack)@),
    ensures
        pending_sql(final(stack)@) == join_from(node_texts(nodes@), ", "@, from as int)
            + pending_sql(old(stack)@),
        pending_size(final(stack)@) < pending_size(old(stack)@) + nodes_size(nodes@, from as int),
        pending_well_formed(final(stack)@),
{
    let ghost rest = pending_sql(stack@);
    if from < nodes.len() {
        push_task(stack, Task::Nodes(nodes, from + 1));
        push_task(stack, Task::Node(&nodes[from]));
        push_keyword_task(stack, from > 0, ", ");
        assert(pending_sql(stack@) =~= join_from(node_texts(nodes@), ", "@, from as int) + rest);
    } else {
        assert(pending_sql(stack@) =~= join_from(node_texts(nodes@), ", "@, from as int) + rest);
    }
}

/// Replaces the rest of the arms of a `CASE` by its first arm and what
/// follows.
pub fn expand_arms<'a>(
    conditions: &'a Vec<ASTNode>,
    results: &'a Vec<ASTNode>,
    from: usize,
    stack: &mut Vec<Task<'a>>,
)
    requires
        nodes_well_formed(conditions@),
        nodes_well_formed(results@),
        conditions@.len() == results@.len(),
        from <= conditions@.len(),
        pending_well_formed(old(stack)@),
    ensures
        pending_sql(final(stack)@) == arms_from(
            node_texts(conditions@),
            node_texts(results@),
            from as int,
        ) + pending_sql(old(stack)@),
        pending_size(final(stack)@) < pending_size(old(stack)@) + nodes_size(
            conditions@,
            from as int,
        ) + nodes_size(results@, from as int),
        pending_well_formed(final(stack)@),
{
    let ghost rest = pending_sql(stack@);
    if from < conditions.len() {
        push_task(stack, Task::Arms(conditions, results, from + 1));
        push_task(stack, Task::Node(&results[from]));
        push_task(stack, Task::Text(" THEN "));
        push_task(stack, Task::Node(&conditions[from]));
        push_task(stack, Task::Text(" WHEN "));
        assert(pending_sql(stack@) =~= arms_from(
            node_texts(conditions@),
            node_texts(results@),
            from as int,
        ) + rest);
    } else {
        assert(pending_sql(stack@) =~= arms_from(
            node_texts(conditions@),
            node_texts(results@),
            from as int,
        ) + rest);
    }
}

/// The text of an optional window frame.
pub open spec fn frame_text(spec: SQLWindowSpec) -> Option<Seq<char>> {
    match spec.window_frame {
        Some(frame) => Some(frame.sql()),
        None => None,
    }
}

/// Puts the frame of a window specification on the stack, after a space if
/// something stands before it.
pub fn push_frame_clause<'a>(spec: &'a SQLWindowSpec, lead: bool, stack: &mut Vec<Task<'a>>)
    requires
        pending_well_formed(old(stack)@),
    ensures
        pending_sql(final(stack)@) == keyword_if(lead && spec.window_frame is Some, " "@)
            + optional_clause(Seq::empty(), frame_text(*spec)) + pending_sql(old(stack)@),
        pending_size(final(stack)@) <= pending_size(old(stack)@) + 2,
        pending_well_formed(final(stack)@),
{
    let ghost rest = pending_sql(stack@);
    match &spec.window_frame {
        Some(frame) => {
            push_task(stack, Task::Owned(frame.to_string()));
            push_keyword_task(stack, lead, " ");
        },
        None => {},
    }
    assert(pending_sql(stack@) =~= keyword_if(lead && spec.window_frame is Some, " "@)
        + optional_clause(Seq::empty(), frame_text(*spec)) + rest);
}

/// The `ORDER BY` clause of a window specification; nothing for an empty
/// list.
pub open spec fn order_clause(order_by: Seq<Seq<char>>) -> Seq<char> {
    if order_by.len() > 0 {
        "ORDER BY "@ + comma_separated(order_by)
    } else {
        Seq::empty()
    }
}

/// The `PARTITION BY` clause of a window specification; nothing for an
/// empty list.
pub open spec fn partition_clause(partition_by: Seq<Seq<char>>) -> Seq<char> {
    if partition_by.len() > 0 {
        "PARTITION BY "@ + comma_separated(partition_by)
    } else {
        Seq::empty()
    }
}

/// A window specification is its three clauses in order, with a space
/// before the second and before the third if something stands before it.
pub proof fn lemma_window_pieces(
    partition_by: Seq<Seq<char>>,
    order_by: Seq<Seq<char>>,
    frame: Option<Seq<char>>,
)
    ensures
        window_sql(partition_by, order_by, frame) == partition_clause(partition_by) + keyword_if(
            partition_by.len() > 0 && order_by.len() > 0,
            " "@,
        ) + order_clause(order_by) + keyword_if(
            (partition_by.len() > 0 || order_by.len() > 0) && frame is Some,
            " "@,
        ) + optional_clause(Seq::empty(), frame),
{
    lemma_window_clauses(partition_by, order_by, frame);
    let pieces = partition_clause(partition_by) + keyword_if(
        partition_by.len() > 0 && order_by.len() > 0,
        " "@,
    ) + order_clause(order_by) + keyword_if(
        (partition_by.len() > 0 || order_by.len() > 0) && frame is Some,
        " "@,
    ) + optional_clause(Seq::empty(), frame);
    assert(window_sql(partition_by, order_by, frame) =~= pieces);
}

/// Puts the `ORDER BY` clause of a window specification on the stack, after
/// a space if something stands before it.
pub fn push_order_clause<'a>(spec: &'a SQLWindowSpec, lead: bool, stack: &mut Vec<Task<'a>>)
    requires
        pending_well_formed(old(stack)@),
    ensures
        pending_sql(final(stack)@) == keyword_if(lead && spec.order_by@.len() > 0, " "@)
            + order_clause(fragment_texts(spec.order_by@)) + pending_sql(old(stack)@),
        pending_size(final(stack)@) <= pending_size(old(stack)@) + 3,
        pending_well_formed(final(stack)@),
{
    let ghost rest = pending_sql(stack@);
    if spec.order_by.len() > 0 {
        let items = fragment_strings(&spec.order_by);
        push_task(stack, Task::Owned(comma_separated_string(&items)));
        push_task(stack, Task::Text("ORDER BY "));
        push_keyword_task(stack, lead, " ");
    }
    assert(pending_sql(stack@) =~= keyword_if(lead && spec.order_by@.len() > 0, " "@)
        + order_clause(fragment_texts(spec.order_by@)) + rest);
}

/// Puts the `PARTITION BY` clause of a window specification on the stack.
pub fn push_partition_clause<'a>(spec: &'a SQLWindowSpec, stack: &mut Vec<Task<'a>>)
    requires
        nodes_well_formed(spec.partition_by@),
        pending_well_formed(old(stack)@),
    ensures
        pending_sql(final(stack)@) == partition_clause(node_texts(spec.partition_by@))
            + pending_sql(old(stack)@),
        pending_size(final(stack)@) <= pending_size(old(stack)@) + nodes_size(
            spec.partition_by@,
            0,
        ) + 1,
        pending_well_formed(final(stack)@),
{
    let ghost rest = pending_sql(stack@);
    if spec.partition_by.len() > 0 {
        push_task(stack, Task::Nodes(&spec.partition_by, 0));
        push_task(stack, Task::Text("PARTITION BY "));
        proof {
            lemma_join_from_start(node_texts(spec.partition_by@), ", "@);
        }
    }
    assert(pending_sql(stack@) =~= partition_clause(node_texts(spec.partition_by@)) + rest);
}

/// Replaces a window specification by its clauses.
pub fn expand_window<'a>(spec: &'a SQLWindowSpec, stack: &mut Vec<Task<'a>>)
    requires
        spec.well_formed(),
        pending_well_formed(old(stack)@),
    ensures
        pending_sql(final(stack)@) == spec.sql() + pending_sql(old(stack)@),
        pending_size(final(stack)@) < pending_size(old(stack)@) + window_size(*spec),
        pending_well_formed(final(stack)@),
{
    let ghost rest = pending_sql(stack@);
    let partitioned = spec.partition_by.len() > 0;
    let ordered = spec.order_by.len() > 0;
    push_frame_clause(spec, partitioned || ordered, stack);
    push_order_clause(spec, partitioned, stack);
    push_partition_clause(spec, stack);
    proof {
        let p = node_texts(spec.partition_by@);
        let o = fragment_texts(spec.order_by@);
        let f = frame_text(*spec);
        lemma_window_pieces(p, o, f);
        assert(spec.sql() == window_sql(p, o, f));
        assert(pending_sql(stack@) =~= partition_clause(p) + keyword_if(
            p.len() > 0 && o.len() > 0,
            " "@,
        ) + order_clause(o) + keyword_if((p.len() > 0 || o.len() > 0) && f is Some, " "@)
            + optional_clause(Seq::empty(), f) + rest);
    }
}

/// The `OVER` clause of a function call; nothing for a call without a
/// window.
pub open spec fn over_clause(over: Option<SQLWindowSpec>) -> Seq<char> {
    match over {
        Some(spec) => " OVER ("@ + spec.sql() + ")"@,
        None => Seq::empty(),
    }
}

/// A bound on the steps that the `OVER` clause of a function call takes.
pub open spec fn over_size(over: Option<SQLWindowSpec>) -> nat {
    match over {
        Some(spec) => window_size(spec) + 2,
        None => 0,
    }
}

/// Puts the `OVER` clause of a function call on the stack.
pub fn push_over_clause<'a>(over: &'a Option<SQLWindowSpec>, stack: &mut Vec<Task<'a>>)
    requires
        *over matches Some(spec) ==> spec.well_formed(),
        pending_well_formed(old(stack)@),
    ensures
        pending_sql(final(stack)@) == over_clause(*over) + pending_sql(old(stack)@),
        pending_size(final(stack)@) == pending_size(old(stack)@) + over_size(*over),
        pending_well_formed(final(stack)@),
{
    let ghost rest = pending_sql(stack@);
    match over {
        Some(spec) => {
            push_task(stack, Task::Text(")"));
            push_task(stack, Task::Window(spec));
            push_task(stack, Task::Text(" OVER ("));
        },
        None => {},
    }
    assert(pending_sql(stack@) =~= over_clause(*over) + rest);
}

/// Puts the name of a function and its arguments in brackets on the stack.
pub fn push_call<'a>(f: &'a SQLFunction, stack: &mut Vec<Task<'a>>)
    requires
        f.name.well_formed(),
        nodes_well_formed(f.args@),
        pending_well_formed(old(stack)@),
    ensures
        pending_sql(final(stack)@) == f.name.sql() + "("@ + keyword_if(f.distinct, "DISTINCT "@)
            + comma_separated(node_texts(f.args@)) + ")"@ + pending_sql(old(stack)@),
        pending_size(final(stack)@) <= pending_size(old(stack)@) + nodes_size(f.args@, 0) + 4,
        pending_well_formed(final(stack)@),
{
    let ghost rest = pending_sql(stack@);
    push_task(stack, Task::Text(")"));
    push_task(stack, Task::Nodes(&f.args, 0));
    push_keyword_task(stack, f.distinct, "DISTINCT ");
    push_task(stack, Task::Text("("));
    push_task(stack, Task::Owned(f.name.to_string()));
    proof {
        lemma_join_from_start(node_texts(f.args@), ", "@);
        assert(pending_sql(stack@) =~= f.name.sql() + "("@ + keyword_if(f.distinct, "DISTINCT "@)
            + comma_separated(node_texts(f.args@)) + ")"@ + rest);
    }
}

/// Replaces a function call by its parts.
pub fn expand_function<'a>(f: &'a SQLFunction, stack: &mut Vec<Task<'a>>)
    requires
        f.well_formed(),
        pending_well_formed(old(stack)@),
    ensures
        pending_sql(final(stack)@) == f.sql() + pending_sql(old(stack)@),
        pending_size(final(stack)@) < pending_size(old(stack)@) + function_size(*f),
        pending_well_formed(final(stack)@),
{
    let ghost rest = pending_sql(stack@);
    push_over_clause(&f.over, stack);
    push_call(f, stack);
    assert(pending_sql(stack@) =~= f.sql() + rest);
}

/// Replaces a null test by its parts.
pub fn expand_null_test<'a>(expr: &'a ASTNode, test: &'a str, stack: &mut Vec<Task<'a>>)
    requires
        expr.well_formed(),
        pending_well_formed(old(stack)@),
    ensures
        pending_sql(final(stack)@) == expr.sql() + test@ + pending_sql(old(stack)@),
        pending_size(final(stack)@) == pending_size(old(stack)@) + node_size(*expr) + 1,
        pending_well_formed(final(stack)@),
{
    let ghost rest = pending_sql(stack@);
    push_task(stack, Task::Text(test));
    push_task(stack, Task::Node(expr));
    assert(pending_sql(stack@) =~= expr.sql() + test@ + rest);
}

/// Replaces a membership test on a list by its parts.
pub fn expand_in_list<'a>(
    expr: &'a ASTNode,
    list: &'a Vec<ASTNode>,
    negated: bool,
    stack: &mut Vec<Task<'a>>,
)
    requires
        expr.well_formed(),
        nodes_well_formed(list@),
        pending_well_formed(old(stack)@),
    ensures
        pending_sql(final(stack)@) == in_list_sql(expr.sql(), negated, node_texts(list@))
            + pending_sql(old(stack)@),
        pending_size(final(stack)@) <= pending_size(old(stack)@) + node_size(*expr) + nodes_size(
            list@,
            0,
        ) + 4,
        pending_well_formed(final(stack)@),
{
    let ghost rest = pending_sql(stack@);
    push_task(stack, Task::Text(")"));
    push_task(stack, Task::Nodes(list, 0));
    push_task(stack, Task::Text("IN ("));
    push_keyword_task(stack, negated, "NOT ");
    push_task(stack, Task::Text(" "));
    push_task(stack, Task::Node(expr));
    proof {
        lemma_join_from_start(node_texts(list@), ", "@);
        assert(pending_sql(stack@) =~= in_list_sql(expr.sql(), negated, node_texts(list@))
            + rest);
    }
}

/// Replaces a membership test on a subquery by its parts.
pub fn expand_in_subquery<'a>(
    expr: &'a ASTNode,
    subquery: &'a str,
    negated: bool,
    stack: &mut Vec<Task<'a>>,
)
    requires
        expr.well_formed(),
        pending_well_formed(old(stack)@),
    ensures
        pending_sql(final(stack)@) == in_subquery_sql(expr.sql(), negated, subquery@)
            + pending_sql(old(stack)@),
        pending_size(final(stack)@) <= pending_size(old(stack)@) + node_size(*expr) + 5,
        pending_well_formed(final(stack)@),
{
    let ghost rest = pending_sql(stack@);
    push_task(stack, Task::Text(")"));
    push_task(stack, Task::Text(subquery));
    push_task(stack, Task::Text("IN ("));
    push_keyword_task(stack, negated, "NOT ");
    push_task(stack, Task::Text(" "));
    push_task(stack, Task::Node(expr));
    assert(pending_sql(stack@) =~= in_subquery_sql(expr.sql(), negated, subquery@) + rest);
}

/// Eight texts in a row are the same text however they are bracketed.
pub proof fn lemma_brackets(
    a: Seq<char>,
    b: Seq<char>,
    c: Seq<char>,
    d: Seq<char>,
    e: Seq<char>,
    f: Seq<char>,
    g: Seq<char>,
    rest: Seq<char>,
)
    ensures
        a + (b + (c + (d + (e + (f + (g + rest)))))) == a + b + c + d + e + f + g + rest,
{
    assert(a + (b + (c + (d + (e + (f + (g + rest)))))) =~= a + b + c + d + e + f + g + rest);
}

/// Replaces a range test by its parts.
pub fn expand_between<'a>(
    expr: &'a ASTNode,
    negated: bool,
    low: &'a ASTNode,
    high: &'a ASTNode,
    stack: &mut Vec<Task<'a>>,
)
    requires
        expr.well_formed(),
        low.well_formed(),
        high.well_formed(),
        pending_well_formed(old(stack)@),
    ensures
        pending_sql(final(stack)@) == between_sql(expr.sql(), negated, low.sql(), high.sql())
            + pending_sql(old(stack)@),
        pending_size(final(stack)@) <= pending_size(old(stack)@) + node_size(*expr) + node_size(
            *low,
        ) + node_size(*high) + 4,
        pending_well_formed(final(stack)@),
{
    let ghost rest = pending_sql(stack@);
    push_task(stack, Task::Node(high));
    push_task(stack, Task::Text(" AND "));
    push_task(stack, Task::Node(low));
    push_task(stack, Task::Text("BETWEEN "));
    push_keyword_task(stack, negated, "NOT ");
    push_task(stack, Task::Text(" "));
    push_task(stack, Task::Node(expr));
    proof {
        lemma_brackets(
            expr.sql(),
            " "@,
            keyword_if(negated, "NOT "@),
            "BETWEEN "@,
            low.sql(),
            " AND "@,
            high.sql(),
            rest,
        );
    }
}

/// Replaces a binary operation by its parts.
pub fn expand_binary<'a>(
    left: &'a ASTNode,
    op: &'a str,
    right: &'a ASTNode,
    stack: &mut Vec<Task<'a>>,
)
    requires
        left.well_formed(),
        right.well_formed(),
        pending_well_formed(old(stack)@),
    ensures
        pending_sql(final(stack)@) == binary_sql(left.sql(), op@, right.sql()) + pending_sql(
            old(stack)@,
        ),
        pending_size(final(stack)@) == pending_size(old(stack)@) + node_size(*left) + node_size(
            *right,
        ) + 3,
        pending_well_formed(final(stack)@),
{
    let ghost rest = pending_sql(stack@);
    push_task(stack, Task::Node(right));
    push_task(stack, Task::Text(" "));
    push_task(stack, Task::Text(op));
    push_task(stack, Task::Text(" "));
    push_task(stack, Task::Node(left));
    assert(pending_sql(stack@) =~= binary_sql(left.sql(), op@, right.sql()) + rest);
}

/// Replaces an expression between two texts by its parts.
pub fn expand_enclosed<'a>(
    before: &'a str,
    expr: &'a ASTNode,
    after: &'a str,
    stack: &mut Vec<Task<'a>>,
)
    requires
        expr.well_formed(),
        pending_well_formed(old(stack)@),
    ensures
        pending_sql(final(stack)@) == before@ + expr.sql() + after@ + pending_sql(old(stack)@),
        pending_size(final(stack)@) == pending_size(old(stack)@) + node_size(*expr) + 2,
        pending_well_formed(final(stack)@),
{
    let ghost rest = pending_sql(stack@);
    push_task(stack, Task::Text(after));
    push_task(stack, Task::Node(expr));
    push_task(stack, Task::Text(before));
    assert(pending_sql(stack@) =~= before@ + expr.sql() + after@ + rest);
}

/// Replaces a `CASE` by its parts.
#[verifier::rlimit(30)]
pub fn expand_case<'a>(
    operand: &'a Option<Box<ASTNode>>,
    conditions: &'a Vec<ASTNode>,
    results: &'a Vec<ASTNode>,
    else_result: &'a Option<Box<ASTNode>>,
    stack: &mut Vec<Task<'a>>,
)
    requires
        *operand matches Some(expr) ==> expr.well_formed(),
        *else_result matches Some(expr) ==> expr.well_formed(),
        nodes_well_formed(conditions@),
        nodes_well_formed(results@),
        conditions@.len() == results@.len(),
        pending_well_formed(old(stack)@),
    ensures
        pending_sql(final(stack)@) == case_sql(
            optional_node_text(*operand),
            node_texts(conditions@),
            node_texts(results@),
            optional_node_text(*else_result),
        ) + pending_sql(old(stack)@),
        pending_size(final(stack)@) == pending_size(old(stack)@) + optional_size(*operand)
            + nodes_size(conditions@, 0) + nodes_size(results@, 0) + optional_size(*else_result)
            + 2,
        pending_well_formed(final(stack)@),
{
    let ghost rest = pending_sql(stack@);
    push_task(stack, Task::Text(" END"));
    push_optional_node(stack, " ELSE ", else_result);
    push_task(stack, Task::Arms(conditions, results, 0));
    push_optional_node(stack, " ", operand);
    push_task(stack, Task::Text("CASE"));
    proof {
        lemma_arms_from_start(node_texts(conditions@), node_texts(results@));
        assert(pending_sql(stack@) =~= case_sql(
            optional_node_text(*operand),
            node_texts(conditions@),
            node_texts(results@),
            optional_node_text(*else_result),
        ) + rest);
    }
}

/// Writes an expression that holds no other expression.
pub fn write_leaf(node: &ASTNode, out: &mut String)
    requires
        node is SQLIdentifier || node is SQLWildcard || node is SQLQualifiedWildcard
            || node is SQLCompoundIdentifier || node is SQLValue || node is SQLExists
            || node is SQLSubquery,
    ensures
        final(out)@ == old(out)@ + node.sql(),
{
    match node {
        ASTNode::SQLIdentifier(s) => {
            out.append(s.as_str());
        },
        ASTNode::SQLWildcard => {
            out.append("*");
        },
        ASTNode::SQLQualifiedWildcard(q) => {
            out.append(join_strings(q, ".").as_str());
            out.append(".*");
        },
        ASTNode::SQLCompoundIdentifier(s) => {
            out.append(join_strings(s, ".").as_str());
        },
        ASTNode::SQLValue(v) => {
            out.append(v.0.as_str());
        },
        ASTNode::SQLExists(q) => {
            out.append("EXISTS (");
            out.append(q.0.as_str());
            out.append(")");
        },
        ASTNode::SQLSubquery(q) => {
            out.append("(");
            out.append(q.0.as_str());
            out.append(")");
        },
        _ => {},
    }
    assert(out@ =~= old(out)@ + node.sql());
}

/// Replaces an expression by its parts: one that holds no other is written
/// at once, the parts of another go on the stack in the order in which they
/// are to come.
pub fn expand_node<'a>(node: &'a ASTNode, out: &mut String, stack: &mut Vec<Task<'a>>)
    requires
        node.well_formed(),
        pending_well_formed(old(stack)@),
    ensures
        final(out)@ + pending_sql(final(stack)@) == old(out)@ + node.sql() + pending_sql(
            old(stack)@,
        ),
        pending_size(final(stack)@) < pending_size(old(stack)@) + node_size(*node),
        pending_well_formed(final(stack)@),
{
    let ghost rest = pending_sql(stack@);
    let ghost start = out@;
    match node {
        ASTNode::SQLIsNull(expr) => {
            expand_null_test(expr, " IS NULL", stack);
        },
        ASTNode::SQLIsNotNull(expr) => {
            expand_null_test(expr, " IS NOT NULL", stack);
        },
        ASTNode::SQLInList { expr, list, negated } => {
            expand_in_list(expr, list, *negated, stack);
        },
        ASTNode::SQLInSubquery { expr, subquery, negated } => {
            expand_in_subquery(expr, subquery.0.as_str(), *negated, stack);
        },
        ASTNode::SQLBetween { expr, negated, low, high } => {
            expand_between(expr, *negated, low, high, stack);
        },
        ASTNode::SQLBinaryExpr { left, op, right } => {
            expand_binary(left, op.0.as_str(), right, stack);
        },
        ASTNode::SQLCast { expr, data_type } => {
            push_task(stack, Task::Text(")"));
            push_task(stack, Task::Text(data_type.0.as_str()));
            expand_enclosed("CAST(", expr, " AS ", stack);
        },
        ASTNode::SQLExtract { field, expr } => {
            out.append("EXTRACT(");
            out.append(field.to_string().as_str());
            expand_enclosed(" FROM ", expr, ")", stack);
        },
        ASTNode::SQLCollate { expr, collation } => {
            push_task(stack, Task::Owned(collation.to_string()));
            expand_null_test(expr, " COLLATE ", stack);
        },
        ASTNode::SQLNested(expr) => {
            expand_enclosed("(", expr, ")", stack);
        },
        ASTNode::SQLUnary { operator, expr } => {
            out.append(operator.0.as_str());
            out.append(" ");
            push_task(stack, Task::Node(expr));
        },
        ASTNode::SQLFunction(f) => {
            expand_function(f, stack);
        },
        ASTNode::SQLCase { operand, conditions, results, else_result } => {
            expand_case(operand, conditions, results, else_result, stack);
        },
        _ => {
            write_leaf(node, out);
        },
    }
    assert(out@ + pending_sql(stack@) =~= start + node.sql() + rest);
}

/// Writes out everything that a stack of tasks stands for, the top of the
/// stack first. No call is nested deeper for a deeper tree: what is still
/// to come waits on the stack.
pub fn render_tasks<'a>(tasks: Vec<Task<'a>>) -> (res: String)
    requires
        pending_well_formed(tasks@),
    ensures
        res@ == pending_sql(tasks@),
{
    let ghost whole = pending_sql(tasks@);
    let mut stack = tasks;
    let mut out = String::new();
    assert(out@ + pending_sql(stack@) =~= whole);
    proof {
        reveal(pending_sql);
        reveal(pending_size);
        reveal(pending_well_formed);
    }
    while stack.len() > 0
        invariant
            pending_well_formed(stack@),
            out@ + pending_sql(stack@) == whole,
        decreases pending_size(stack@),
    {
        let ghost before = stack@;
        let ghost written = out@;
        proof {
            reveal(pending_sql);
            reveal(pending_size);
            reveal(pending_well_formed);
        }
        let task = stack.pop().unwrap();
        assert(stack@ =~= before.drop_last());
        assert(task == before.last());
        assert(task.well_formed());
        assert(pending_sql(before) == task.sql() + pending_sql(stack@));
        assert(pending_size(before) == task.size() + pending_size(stack@));
        match task {
            Task::Text(text) => {
                out.append(text);
            },
            Task::Owned(text) => {
                out.append(text.as_str());
            },
            Task::Node(node) => {
                expand_node(node, &mut out, &mut stack);
            },
            Task::Nodes(nodes, from) => {
                expand_nodes(nodes, from, &mut stack);
            },
            Task::Arms(conditions, results, from) => {
                expand_arms(conditions, results, from, &mut stack);
            },
            Task::Window(spec) => {
                expand_window(spec, &mut stack);
            },
        }
        assert(out@ + pending_sql(stack@) =~= written + pending_sql(before));
    }
    assert(pending_sql(stack@) =~= Seq::<char>::empty());
    out
}

/// A stack with nothing on it.
pub fn empty_stack<'a>() -> (res: Vec<Task<'a>>)
    ensures
        pending_sql(res@) == Seq::<char>::empty(),
        pending_size(res@) == 0,
        pending_well_formed(res@),
{
    reveal(pending_sql);
    reveal(pending_size);
    reveal(pending_well_formed);
    Vec::new()
}

/// Renders an expression.
pub fn render_node(node: &ASTNode) -> (res: String)
    requires
        node.well_formed(),
    ensures
        res@ == node.sql(),
{
    let mut stack = empty_stack();
    push_task(&mut stack, Task::Node(node));
    assert(pending_sql(stack@) =~= node.sql());
    render_tasks(stack)
}

/// Renders a function call.
pub fn render_function(f: &SQLFunction) -> (res: String)
    requires
        f.well_formed(),
    ensures
        res@ == f.sql(),
{
    let mut stack = empty_stack();
    expand_function(f, &mut stack);
    assert(pending_sql(stack@) =~= f.sql());
    render_tasks(stack)
}

/// Renders a window specification.
pub fn render_window(spec: &SQLWindowSpec) -> (res: String)
    requires
        spec.well_formed(),
    ensures
        res@ == spec.sql(),
{
    let mut stack = empty_stack();
    push_task(&mut stack, Task::Window(spec));
    assert(pending_sql(stack@) =~= spec.sql());
    render_tasks(stack)
}

} // verus!
