use sqlast::{
    ASTNode, ConstructionError, SQLDateTimeField, SQLFragment, SQLFunction, SQLObjectName,
    SQLWindowFrame, SQLWindowFrameBound, SQLWindowFrameUnits, SQLWindowSpec,
};

fn id(name: &str) -> ASTNode {
    ASTNode::SQLIdentifier(name.to_string())
}

fn val(text: &str) -> ASTNode {
    ASTNode::SQLValue(SQLFragment::new(text))
}

fn boxed(node: ASTNode) -> Box<ASTNode> {
    Box::new(node)
}

fn name(parts: &[&str]) -> SQLObjectName {
    SQLObjectName(parts.iter().map(|s| s.to_string()).collect())
}

fn idents(parts: &[&str]) -> Vec<String> {
    parts.iter().map(|s| s.to_string()).collect()
}

#[test]
fn identifier_renders_as_written() {
    assert_eq!(id("x").to_string(), "x");
    assert_eq!(id("\"Quoted Id\"").to_string(), "\"Quoted Id\"");
}

#[test]
fn wildcard_renders_as_star() {
    assert_eq!(ASTNode::SQLWildcard.to_string(), "*");
}

#[test]
fn qualified_wildcard_ends_with_dot_star() {
    let node = ASTNode::SQLQualifiedWildcard(idents(&["schema", "table"]));
    assert_eq!(node.to_string(), "schema.table.*");
    assert_eq!(ASTNode::SQLQualifiedWildcard(idents(&["t"])).to_string(), "t.*");
}

#[test]
fn compound_identifier_joins_parts_with_dots() {
    let node = ASTNode::SQLCompoundIdentifier(idents(&["db", "t", "col"]));
    assert_eq!(node.to_string(), "db.t.col");
}

#[test]
fn is_null_appends_to_the_inner_expression() {
    assert_eq!(ASTNode::SQLIsNull(boxed(id("x"))).to_string(), "x IS NULL");
}

#[test]
fn is_not_null_appends_to_the_inner_expression() {
    assert_eq!(ASTNode::SQLIsNotNull(boxed(id("x"))).to_string(), "x IS NOT NULL");
}

#[test]
fn in_list_separates_items_with_commas() {
    let node = ASTNode::SQLInList {
        expr: boxed(id("x")),
        list: vec![val("1"), val("2"), val("3")],
        negated: false,
    };
    assert_eq!(node.to_string(), "x IN (1, 2, 3)");
}

#[test]
fn in_list_negated_puts_not_before_in() {
    let node =
        ASTNode::SQLInList { expr: boxed(id("x")), list: vec![val("1")], negated: true };
    assert_eq!(node.to_string(), "x NOT IN (1)");
}

#[test]
fn in_list_of_nothing_keeps_its_brackets() {
    let node = ASTNode::SQLInList { expr: boxed(id("x")), list: vec![], negated: false };
    assert_eq!(node.to_string(), "x IN ()");
}

#[test]
fn in_subquery_renders_the_query_inside_brackets() {
    let node = ASTNode::SQLInSubquery {
        expr: boxed(id("x")),
        subquery: Box::new(SQLFragment::new("SELECT a FROM t")),
        negated: false,
    };
    assert_eq!(node.to_string(), "x IN (SELECT a FROM t)");
    let node = ASTNode::SQLInSubquery {
        expr: boxed(id("x")),
        subquery: Box::new(SQLFragment::new("SELECT a FROM t")),
        negated: true,
    };
    assert_eq!(node.to_string(), "x NOT IN (SELECT a FROM t)");
}

#[test]
fn between_negated_renders_not_between() {
    let node = ASTNode::SQLBetween {
        expr: boxed(id("x")),
        negated: true,
        low: boxed(val("1")),
        high: boxed(val("10")),
    };
    assert_eq!(node.to_string(), "x NOT BETWEEN 1 AND 10");
}

#[test]
fn between_renders_low_and_high() {
    let node = ASTNode::SQLBetween {
        expr: boxed(id("x")),
        negated: false,
        low: boxed(val("1")),
        high: boxed(val("10")),
    };
    assert_eq!(node.to_string(), "x BETWEEN 1 AND 10");
}

#[test]
fn binary_expression_has_single_spaces() {
    let node = ASTNode::SQLBinaryExpr {
        left: boxed(id("a")),
        op: SQLFragment::new("+"),
        right: boxed(id("b")),
    };
    assert_eq!(node.to_string(), "a + b");
}

#[test]
fn binary_expression_adds_no_brackets_of_its_own() {
    let sum = ASTNode::SQLBinaryExpr {
        left: boxed(id("a")),
        op: SQLFragment::new("+"),
        right: boxed(id("b")),
    };
    let product = ASTNode::SQLBinaryExpr {
        left: boxed(sum),
        op: SQLFragment::new("*"),
        right: boxed(id("c")),
    };
    assert_eq!(product.to_string(), "a + b * c");
}

#[test]
fn nested_wraps_in_brackets() {
    let sum = ASTNode::SQLBinaryExpr {
        left: boxed(id("a")),
        op: SQLFragment::new("+"),
        right: boxed(id("b")),
    };
    let product = ASTNode::SQLBinaryExpr {
        left: boxed(ASTNode::SQLNested(boxed(sum))),
        op: SQLFragment::new("*"),
        right: boxed(id("c")),
    };
    assert_eq!(product.to_string(), "(a + b) * c");
    assert_eq!(ASTNode::SQLNested(boxed(val("1"))).to_string(), "(1)");
}

#[test]
fn cast_renders_expression_and_type() {
    let node =
        ASTNode::SQLCast { expr: boxed(id("foo")), data_type: SQLFragment::new("VARCHAR(123)") };
    assert_eq!(node.to_string(), "CAST(foo AS VARCHAR(123))");
}

#[test]
fn extract_renders_field_and_expression() {
    let node = ASTNode::SQLExtract { field: SQLDateTimeField::Year, expr: boxed(id("d")) };
    assert_eq!(node.to_string(), "EXTRACT(YEAR FROM d)");
    let node = ASTNode::SQLExtract { field: SQLDateTimeField::Second, expr: boxed(id("d")) };
    assert_eq!(node.to_string(), "EXTRACT(SECOND FROM d)");
}

#[test]
fn date_time_fields_render_as_keywords() {
    assert_eq!(SQLDateTimeField::Year.to_string(), "YEAR");
    assert_eq!(SQLDateTimeField::Month.to_string(), "MONTH");
    assert_eq!(SQLDateTimeField::Day.to_string(), "DAY");
    assert_eq!(SQLDateTimeField::Hour.to_string(), "HOUR");
    assert_eq!(SQLDateTimeField::Minute.to_string(), "MINUTE");
    assert_eq!(SQLDateTimeField::Second.to_string(), "SECOND");
}

#[test]
fn collate_renders_the_collation_name() {
    let node =
        ASTNode::SQLCollate { expr: boxed(id("name")), collation: name(&["pg_catalog", "de_DE"]) };
    assert_eq!(node.to_string(), "name COLLATE pg_catalog.de_DE");
}

#[test]
fn unary_operator_is_followed_by_a_space() {
    let node = ASTNode::SQLUnary { operator: SQLFragment::new("-"), expr: boxed(id("x")) };
    assert_eq!(node.to_string(), "- x");
    let node = ASTNode::SQLUnary { operator: SQLFragment::new("NOT"), expr: boxed(id("x")) };
    assert_eq!(node.to_string(), "NOT x");
}

#[test]
fn value_renders_its_text() {
    assert_eq!(val("'abc'").to_string(), "'abc'");
    assert_eq!(val("NULL").to_string(), "NULL");
}

#[test]
fn function_call_renders_name_and_arguments() {
    let f = SQLFunction {
        name: name(&["LEFT"]),
        args: vec![id("foo"), val("5")],
        over: None,
        distinct: false,
    };
    assert_eq!(f.to_string(), "LEFT(foo, 5)");
    assert_eq!(ASTNode::SQLFunction(f).to_string(), "LEFT(foo, 5)");
}

#[test]
fn function_call_without_arguments() {
    let f = SQLFunction { name: name(&["now"]), args: vec![], over: None, distinct: false };
    assert_eq!(f.to_string(), "now()");
}

#[test]
fn function_call_with_distinct() {
    let f = SQLFunction {
        name: name(&["COUNT"]),
        args: vec![id("x")],
        over: None,
        distinct: true,
    };
    assert_eq!(f.to_string(), "COUNT(DISTINCT x)");
}

#[test]
fn function_call_with_window() {
    let f = SQLFunction {
        name: name(&["SUM"]),
        args: vec![id("x")],
        over: Some(SQLWindowSpec {
            partition_by: vec![id("a"), id("b")],
            order_by: vec![SQLFragment::new("c DESC")],
            window_frame: Some(SQLWindowFrame {
                units: SQLWindowFrameUnits::Rows,
                start_bound: SQLWindowFrameBound::Preceding(Some(5)),
                end_bound: Some(SQLWindowFrameBound::CurrentRow),
            }),
        }),
        distinct: false,
    };
    assert_eq!(
        f.to_string(),
        "SUM(x) OVER (PARTITION BY a, b ORDER BY c DESC ROWS BETWEEN 5 PRECEDING AND CURRENT ROW)"
    );
}

#[test]
fn function_call_with_empty_window() {
    let f = SQLFunction {
        name: name(&["row_number"]),
        args: vec![],
        over: Some(SQLWindowSpec { partition_by: vec![], order_by: vec![], window_frame: None }),
        distinct: false,
    };
    assert_eq!(f.to_string(), "row_number() OVER ()");
}

#[test]
fn case_with_operand_and_else() {
    let node = ASTNode::SQLCase {
        operand: Some(boxed(id("o"))),
        conditions: vec![id("c1"), id("c2")],
        results: vec![id("r1"), id("r2")],
        else_result: Some(boxed(id("e"))),
    };
    assert_eq!(node.to_string(), "CASE o WHEN c1 THEN r1 WHEN c2 THEN r2 ELSE e END");
}

#[test]
fn case_without_operand() {
    let node = ASTNode::SQLCase {
        operand: None,
        conditions: vec![id("c1"), id("c2")],
        results: vec![id("r1"), id("r2")],
        else_result: Some(boxed(id("e"))),
    };
    assert_eq!(node.to_string(), "CASE WHEN c1 THEN r1 WHEN c2 THEN r2 ELSE e END");
}

#[test]
fn case_without_else() {
    let node = ASTNode::SQLCase {
        operand: Some(boxed(id("o"))),
        conditions: vec![id("c1"), id("c2")],
        results: vec![id("r1"), id("r2")],
        else_result: None,
    };
    assert_eq!(node.to_string(), "CASE o WHEN c1 THEN r1 WHEN c2 THEN r2 END");
}

#[test]
fn case_without_operand_and_else() {
    let node = ASTNode::SQLCase {
        operand: None,
        conditions: vec![id("c1")],
        results: vec![id("r1")],
        else_result: None,
    };
    assert_eq!(node.to_string(), "CASE WHEN c1 THEN r1 END");
}

#[test]
fn case_without_arms() {
    let node =
        ASTNode::SQLCase { operand: None, conditions: vec![], results: vec![], else_result: None };
    assert_eq!(node.to_string(), "CASE END");
}

#[test]
fn new_case_accepts_equal_counts() {
    let built = ASTNode::new_case(
        Some(boxed(id("o"))),
        vec![id("c1"), id("c2")],
        vec![id("r1"), id("r2")],
        Some(boxed(id("e"))),
    );
    let expected = ASTNode::SQLCase {
        operand: Some(boxed(id("o"))),
        conditions: vec![id("c1"), id("c2")],
        results: vec![id("r1"), id("r2")],
        else_result: Some(boxed(id("e"))),
    };
    assert_eq!(built, Ok(expected));
}

#[test]
fn new_case_rejects_more_conditions_than_results() {
    let built = ASTNode::new_case(None, vec![id("c1"), id("c2")], vec![id("r1")], None);
    assert_eq!(built, Err(ConstructionError::CaseArityMismatch { conditions: 2, results: 1 }));
}

#[test]
fn new_case_rejects_more_results_than_conditions() {
    let built = ASTNode::new_case(None, vec![], vec![id("r1")], Some(boxed(id("e"))));
    assert_eq!(built, Err(ConstructionError::CaseArityMismatch { conditions: 0, results: 1 }));
}

#[test]
fn is_well_formed_finds_a_mismatched_case() {
    let bad = ASTNode::SQLCase {
        operand: None,
        conditions: vec![id("c1"), id("c2")],
        results: vec![id("r1")],
        else_result: None,
    };
    assert!(!bad.is_well_formed());
    let good = ASTNode::SQLCase {
        operand: None,
        conditions: vec![id("c1")],
        results: vec![id("r1")],
        else_result: None,
    };
    assert!(good.is_well_formed());
}

#[test]
fn is_well_formed_looks_inside_the_tree() {
    let bad = ASTNode::SQLCase {
        operand: None,
        conditions: vec![id("c1")],
        results: vec![],
        else_result: None,
    };
    let inside_list = ASTNode::SQLInList {
        expr: boxed(id("x")),
        list: vec![val("1"), ASTNode::SQLNested(boxed(bad))],
        negated: false,
    };
    assert!(!inside_list.is_well_formed());
    let fine = ASTNode::SQLInList {
        expr: boxed(id("x")),
        list: vec![val("1"), ASTNode::SQLNested(boxed(val("2")))],
        negated: false,
    };
    assert!(fine.is_well_formed());
}

#[test]
fn is_well_formed_rejects_an_empty_object_name() {
    let node = ASTNode::SQLCollate { expr: boxed(id("x")), collation: name(&[]) };
    assert!(!node.is_well_formed());
    let f = SQLFunction { name: name(&[]), args: vec![], over: None, distinct: false };
    assert!(!f.is_well_formed());
}

#[test]
fn is_well_formed_rejects_a_frame_that_starts_following() {
    let spec = SQLWindowSpec {
        partition_by: vec![],
        order_by: vec![],
        window_frame: Some(SQLWindowFrame {
            units: SQLWindowFrameUnits::Rows,
            start_bound: SQLWindowFrameBound::Following(Some(1)),
            end_bound: None,
        }),
    };
    assert!(!spec.is_well_formed());
    let f = SQLFunction { name: name(&["f"]), args: vec![], over: Some(spec), distinct: false };
    assert!(!ASTNode::SQLFunction(f).is_well_formed());
}

#[test]
fn exists_renders_the_query_inside_brackets() {
    let node = ASTNode::SQLExists(Box::new(SQLFragment::new("SELECT 1")));
    assert_eq!(node.to_string(), "EXISTS (SELECT 1)");
}

#[test]
fn subquery_renders_the_query_inside_brackets() {
    let node = ASTNode::SQLSubquery(Box::new(SQLFragment::new("SELECT 1")));
    assert_eq!(node.to_string(), "(SELECT 1)");
}

#[test]
fn window_spec_of_nothing_is_empty() {
    let spec = SQLWindowSpec { partition_by: vec![], order_by: vec![], window_frame: None };
    assert_eq!(spec.to_string(), "");
}

#[test]
fn window_spec_with_partition_only() {
    let spec =
        SQLWindowSpec { partition_by: vec![id("a")], order_by: vec![], window_frame: None };
    assert_eq!(spec.to_string(), "PARTITION BY a");
}

#[test]
fn window_spec_with_order_only() {
    let spec = SQLWindowSpec {
        partition_by: vec![],
        order_by: vec![SQLFragment::new("a ASC"), SQLFragment::new("b")],
        window_frame: None,
    };
    assert_eq!(spec.to_string(), "ORDER BY a ASC, b");
}

#[test]
fn window_spec_with_frame_only() {
    let spec = SQLWindowSpec {
        partition_by: vec![],
        order_by: vec![],
        window_frame: Some(SQLWindowFrame {
            units: SQLWindowFrameUnits::Range,
            start_bound: SQLWindowFrameBound::Preceding(None),
            end_bound: None,
        }),
    };
    assert_eq!(spec.to_string(), "RANGE UNBOUNDED PRECEDING");
}

#[test]
fn window_spec_with_partition_and_frame() {
    let spec = SQLWindowSpec {
        partition_by: vec![id("a"), id("b")],
        order_by: vec![],
        window_frame: Some(SQLWindowFrame {
            units: SQLWindowFrameUnits::Groups,
            start_bound: SQLWindowFrameBound::CurrentRow,
            end_bound: Some(SQLWindowFrameBound::Following(None)),
        }),
    };
    assert_eq!(
        spec.to_string(),
        "PARTITION BY a, b GROUPS BETWEEN CURRENT ROW AND UNBOUNDED FOLLOWING"
    );
}

#[test]
fn deeply_nested_expression_renders() {
    let mut node = id("x");
    for _ in 0..200 {
        node = ASTNode::SQLNested(boxed(node));
    }
    assert!(node.is_well_formed());
    let text = node.to_string();
    assert_eq!(text.len(), 401);
    assert!(text.starts_with("(((("));
    assert!(text.ends_with("))))"));
}

#[test]
fn try_to_string_renders_a_well_formed_expression() {
    let node = ASTNode::SQLIsNull(boxed(id("x")));
    assert_eq!(node.try_to_string(), Some("x IS NULL".to_string()));
}

#[test]
fn try_to_string_refuses_a_malformed_expression() {
    let bad = ASTNode::SQLCase {
        operand: None,
        conditions: vec![id("c1"), id("c2")],
        results: vec![id("r1")],
        else_result: None,
    };
    assert_eq!(bad.try_to_string(), None);
    assert_eq!(ASTNode::SQLNested(boxed(bad)).try_to_string(), None);
}

#[test]
fn clone_of_an_expression_is_equal_and_renders_the_same() {
    let f = SQLFunction {
        name: name(&["SUM"]),
        args: vec![id("x"), ASTNode::SQLQualifiedWildcard(idents(&["t"]))],
        over: Some(SQLWindowSpec {
            partition_by: vec![id("a")],
            order_by: vec![SQLFragment::new("b DESC")],
            window_frame: Some(SQLWindowFrame {
                units: SQLWindowFrameUnits::Rows,
                start_bound: SQLWindowFrameBound::Preceding(Some(1)),
                end_bound: None,
            }),
        }),
        distinct: true,
    };
    let node = ASTNode::SQLCase {
        operand: Some(boxed(ASTNode::SQLFunction(f))),
        conditions: vec![
            ASTNode::SQLBetween {
                expr: boxed(id("x")),
                negated: false,
                low: boxed(val("1")),
                high: boxed(val("2")),
            },
            ASTNode::SQLInList { expr: boxed(id("y")), list: vec![val("3")], negated: true },
        ],
        results: vec![
            ASTNode::SQLCast { expr: boxed(id("z")), data_type: SQLFragment::new("INT") },
            ASTNode::SQLExists(Box::new(SQLFragment::new("SELECT 1"))),
        ],
        else_result: Some(boxed(ASTNode::SQLCollate {
            expr: boxed(id("n")),
            collation: name(&["c"]),
        })),
    };
    let copy = node.clone();
    assert_eq!(copy, node);
    assert_eq!(copy.to_string(), node.to_string());
    assert_eq!(copy.is_well_formed(), node.is_well_formed());
}

#[test]
fn clone_keeps_a_malformed_expression_malformed() {
    let bad = ASTNode::SQLCase {
        operand: None,
        conditions: vec![id("c1")],
        results: vec![],
        else_result: None,
    };
    let copy = bad.clone();
    assert_eq!(copy, bad);
    assert!(!copy.is_well_formed());
}

#[test]
fn very_deep_expression_renders_without_deep_calls() {
    let depth = 200_000;
    let mut node = id("x");
    for _ in 0..depth {
        node = ASTNode::SQLNested(boxed(node));
    }
    assert!(node.is_well_formed());
    let text = node.to_string();
    assert_eq!(text.len(), 2 * depth + 1);
    assert_eq!(&text[depth - 1..depth + 2], "(x)");
    assert!(text[..depth].bytes().all(|b| b == b'('));
    assert!(text[depth + 1..].bytes().all(|b| b == b')'));
    std::mem::forget(node);
}

#[test]
fn very_long_chain_of_operators_renders_without_deep_calls() {
    let depth = 100_000;
    let mut node = id("a");
    for _ in 0..depth {
        node = ASTNode::SQLBinaryExpr {
            left: boxed(node),
            op: SQLFragment::new("+"),
            right: boxed(id("a")),
        };
    }
    let text = node.to_string();
    assert_eq!(text.len(), 4 * depth + 1);
    assert!(text.starts_with("a + a + a"));
    assert!(text.ends_with("a + a + a"));
    std::mem::forget(node);
}

#[test]
fn very_deep_malformed_expression_is_found_without_deep_calls() {
    let depth = 200_000;
    let mut node = ASTNode::SQLCase {
        operand: None,
        conditions: vec![id("c")],
        results: vec![],
        else_result: None,
    };
    for _ in 0..depth {
        node = ASTNode::SQLIsNotNull(boxed(node));
    }
    assert!(!node.is_well_formed());
    assert_eq!(node.try_to_string(), None);
    std::mem::forget(node);
}

#[test]
fn wide_and_nested_lists_render_in_order() {
    let inner = ASTNode::SQLInList {
        expr: boxed(id("a")),
        list: vec![val("1"), val("2")],
        negated: true,
    };
    let call = ASTNode::SQLFunction(SQLFunction {
        name: name(&["f"]),
        args: vec![inner, ASTNode::SQLNested(boxed(id("b"))), val("3")],
        over: None,
        distinct: true,
    });
    let outer = ASTNode::SQLInList {
        expr: boxed(call),
        list: vec![
            ASTNode::SQLCase {
                operand: None,
                conditions: vec![id("c1"), id("c2")],
                results: vec![val("1"), val("2")],
                else_result: Some(boxed(val("0"))),
            },
            id("z"),
        ],
        negated: false,
    };
    assert!(outer.is_well_formed());
    assert_eq!(
        outer.to_string(),
        "f(DISTINCT a NOT IN (1, 2), (b), 3) IN (CASE WHEN c1 THEN 1 WHEN c2 THEN 2 ELSE 0 END, z)"
    );
}
