use sqlast::assemble::{
    alter_table_string, copy_string, create_table_string, create_view_string, delete_string,
    drop_string, insert_string, transaction_string, update_string,
};
use sqlast::part::{copy_row_string, copy_row_strings, copy_strings};
use sqlast::{
    ASTNode, ConstructionError, FileFormat, SQLAssignment, SQLColumnDef, SQLFragment,
    SQLObjectName, SQLObjectType, SQLOption, SQLStatement,
};

fn id(name: &str) -> ASTNode {
    ASTNode::SQLIdentifier(name.to_string())
}

fn val(text: &str) -> ASTNode {
    ASTNode::SQLValue(SQLFragment::new(text))
}

fn equals(left: &str, right: &str) -> ASTNode {
    ASTNode::SQLBinaryExpr {
        left: Box::new(id(left)),
        op: SQLFragment::new("="),
        right: Box::new(val(right)),
    }
}

fn table(parts: &[&str]) -> SQLObjectName {
    SQLObjectName(parts.iter().map(|s| s.to_string()).collect())
}

fn idents(parts: &[&str]) -> Vec<String> {
    parts.iter().map(|s| s.to_string()).collect()
}

fn column(name: &str, data_type: &str) -> SQLColumnDef {
    SQLColumnDef {
        name: name.to_string(),
        data_type: SQLFragment::new(data_type),
        is_primary: false,
        is_unique: false,
        default: None,
        allow_null: true,
    }
}

fn option(name: &str, value: &str) -> SQLOption {
    SQLOption { name: name.to_string(), value: SQLFragment::new(value) }
}

#[test]
fn query_statement_passes_the_query_through() {
    let stmt = SQLStatement::SQLQuery(Box::new(SQLFragment::new("SELECT a, b FROM t WHERE c")));
    assert_eq!(stmt.to_string(), "SELECT a, b FROM t WHERE c");
}

#[test]
fn insert_with_columns() {
    let stmt = SQLStatement::SQLInsert {
        table_name: table(&["t"]),
        columns: idents(&["a", "b"]),
        source: Box::new(SQLFragment::new("SELECT ...")),
    };
    assert_eq!(stmt.to_string(), "INSERT INTO t (a, b) SELECT ...");
}

#[test]
fn insert_without_columns() {
    let stmt = SQLStatement::SQLInsert {
        table_name: table(&["s", "t"]),
        columns: vec![],
        source: Box::new(SQLFragment::new("VALUES (1)")),
    };
    assert_eq!(stmt.to_string(), "INSERT INTO s.t VALUES (1)");
}

#[test]
fn copy_without_rows_has_no_data_line() {
    let stmt =
        SQLStatement::SQLCopy { table_name: table(&["t"]), columns: vec![], values: vec![] };
    assert_eq!(stmt.to_string(), "COPY t FROM stdin; \n\\.");
}

#[test]
fn copy_with_columns_and_without_rows() {
    let stmt = SQLStatement::SQLCopy {
        table_name: table(&["t"]),
        columns: idents(&["a", "b"]),
        values: vec![],
    };
    assert_eq!(stmt.to_string(), "COPY t (a, b) FROM stdin; \n\\.");
}

#[test]
fn copy_puts_each_row_on_a_line_of_its_own() {
    let stmt = SQLStatement::SQLCopy {
        table_name: table(&["t"]),
        columns: idents(&["a", "b"]),
        values: vec![
            vec![Some("1".to_string()), None],
            vec![Some("2".to_string()), Some("3".to_string())],
        ],
    };
    assert_eq!(stmt.to_string(), "COPY t (a, b) FROM stdin; \n1\t\\N\n2\t3\n\\.");
}

#[test]
fn copy_with_one_row_joins_its_fields_with_tabs() {
    let stmt = SQLStatement::SQLCopy {
        table_name: table(&["t"]),
        columns: idents(&["a", "b", "c"]),
        values: vec![vec![Some("1".to_string()), None, Some("x y".to_string())]],
    };
    assert_eq!(stmt.to_string(), "COPY t (a, b, c) FROM stdin; \n1\t\\N\tx y\n\\.");
}

#[test]
fn copy_lets_a_null_end_a_row_and_start_one() {
    let stmt = SQLStatement::SQLCopy {
        table_name: table(&["t"]),
        columns: vec![],
        values: vec![
            vec![Some("1".to_string()), None],
            vec![None, Some("2".to_string())],
            vec![None, None],
        ],
    };
    assert_eq!(stmt.to_string(), "COPY t FROM stdin; \n1\t\\N\n\\N\t2\n\\N\t\\N\n\\.");
}

#[test]
fn copy_with_a_single_null() {
    let stmt = SQLStatement::SQLCopy {
        table_name: table(&["t"]),
        columns: vec![],
        values: vec![vec![None]],
    };
    assert_eq!(stmt.to_string(), "COPY t FROM stdin; \n\\N\n\\.");
}

#[test]
fn copy_with_rows_of_one_field() {
    let stmt = SQLStatement::SQLCopy {
        table_name: table(&["t"]),
        columns: idents(&["a"]),
        values: vec![vec![Some("1".to_string())], vec![Some("2".to_string())], vec![None]],
    };
    assert_eq!(stmt.to_string(), "COPY t (a) FROM stdin; \n1\n2\n\\N\n\\.");
}

#[test]
fn copy_writes_a_row_without_fields_as_an_empty_line() {
    let stmt = SQLStatement::SQLCopy {
        table_name: table(&["t"]),
        columns: vec![],
        values: vec![vec![], vec![Some("1".to_string())]],
    };
    assert_eq!(stmt.to_string(), "COPY t FROM stdin; \n\n1\n\\.");
}

#[test]
fn copy_rows_from_their_fields() {
    let row = vec![Some("1".to_string()), None, Some("3".to_string())];
    assert_eq!(copy_strings(&row), idents(&["1", "\\N", "3"]));
    assert_eq!(copy_row_string(&row), "1\t\\N\t3");
    assert_eq!(copy_row_string(&vec![]), "");
    assert_eq!(
        copy_row_strings(&vec![row, vec![None], vec![Some("a".to_string())]]),
        idents(&["1\t\\N\t3", "\\N", "a"])
    );
}

#[test]
fn update_with_assignment_and_filter() {
    let stmt = SQLStatement::SQLUpdate {
        table_name: table(&["t"]),
        assignments: vec![SQLAssignment { id: "a".to_string(), value: val("1") }],
        selection: Some(equals("b", "2")),
    };
    assert_eq!(stmt.to_string(), "UPDATE t SET a = 1 WHERE b = 2");
}

#[test]
fn update_with_several_assignments() {
    let stmt = SQLStatement::SQLUpdate {
        table_name: table(&["t"]),
        assignments: vec![
            SQLAssignment { id: "a".to_string(), value: val("1") },
            SQLAssignment { id: "b".to_string(), value: id("c") },
        ],
        selection: None,
    };
    assert_eq!(stmt.to_string(), "UPDATE t SET a = 1, b = c");
}

#[test]
fn update_without_assignments_has_no_set() {
    let stmt = SQLStatement::SQLUpdate {
        table_name: table(&["t"]),
        assignments: vec![],
        selection: Some(equals("b", "2")),
    };
    assert_eq!(stmt.to_string(), "UPDATE t WHERE b = 2");
    let stmt =
        SQLStatement::SQLUpdate { table_name: table(&["t"]), assignments: vec![], selection: None };
    assert_eq!(stmt.to_string(), "UPDATE t");
}

#[test]
fn assignment_renders_with_equals_sign() {
    let a = SQLAssignment { id: "foo".to_string(), value: val("'x'") };
    assert_eq!(a.to_string(), "foo = 'x'");
}

#[test]
fn delete_with_filter() {
    let stmt =
        SQLStatement::SQLDelete { table_name: table(&["t"]), selection: Some(equals("b", "2")) };
    assert_eq!(stmt.to_string(), "DELETE FROM t WHERE b = 2");
}

#[test]
fn delete_without_filter() {
    let stmt = SQLStatement::SQLDelete { table_name: table(&["t"]), selection: None };
    assert_eq!(stmt.to_string(), "DELETE FROM t");
}

#[test]
fn create_materialized_view_with_columns() {
    let stmt = SQLStatement::SQLCreateView {
        name: table(&["v"]),
        columns: idents(&["a", "b"]),
        query: Box::new(SQLFragment::new("SELECT ...")),
        materialized: true,
        with_options: vec![],
    };
    assert_eq!(stmt.to_string(), "CREATE MATERIALIZED VIEW v (a, b) AS SELECT ...");
}

#[test]
fn create_view_plain() {
    let stmt = SQLStatement::SQLCreateView {
        name: table(&["v"]),
        columns: vec![],
        query: Box::new(SQLFragment::new("SELECT 1")),
        materialized: false,
        with_options: vec![],
    };
    assert_eq!(stmt.to_string(), "CREATE VIEW v AS SELECT 1");
}

#[test]
fn create_view_puts_options_before_columns() {
    let stmt = SQLStatement::SQLCreateView {
        name: table(&["v"]),
        columns: idents(&["x", "y"]),
        query: Box::new(SQLFragment::new("SELECT 1, 2")),
        materialized: false,
        with_options: vec![option("foo", "'bar'"), option("a", "123")],
    };
    assert_eq!(
        stmt.to_string(),
        "CREATE VIEW v WITH (foo = 'bar', a = 123) (x, y) AS SELECT 1, 2"
    );
}

#[test]
fn option_renders_with_equals_sign() {
    assert_eq!(option("foo", "'bar'").to_string(), "foo = 'bar'");
}

#[test]
fn create_external_table() {
    let stmt = SQLStatement::SQLCreateTable {
        name: table(&["t"]),
        columns: vec![column("a", "INT")],
        constraints: vec![],
        with_options: vec![],
        external: true,
        file_format: Some(FileFormat::PARQUET),
        location: Some("/data".to_string()),
    };
    assert_eq!(
        stmt.to_string(),
        "CREATE EXTERNAL TABLE t (a INT) STORED AS PARQUET LOCATION '/data'"
    );
}

#[test]
fn create_table_plain() {
    let stmt = SQLStatement::SQLCreateTable {
        name: table(&["t"]),
        columns: vec![column("a", "INT"), column("b", "TEXT")],
        constraints: vec![],
        with_options: vec![],
        external: false,
        file_format: None,
        location: None,
    };
    assert_eq!(stmt.to_string(), "CREATE TABLE t (a INT, b TEXT)");
}

#[test]
fn create_table_without_columns() {
    let stmt = SQLStatement::SQLCreateTable {
        name: table(&["t"]),
        columns: vec![],
        constraints: vec![],
        with_options: vec![],
        external: false,
        file_format: None,
        location: None,
    };
    assert_eq!(stmt.to_string(), "CREATE TABLE t ()");
}

#[test]
fn create_table_with_constraints_and_options() {
    let stmt = SQLStatement::SQLCreateTable {
        name: table(&["t"]),
        columns: vec![column("a", "INT")],
        constraints: vec![
            SQLFragment::new("PRIMARY KEY (a)"),
            SQLFragment::new("CONSTRAINT u UNIQUE (a)"),
        ],
        with_options: vec![option("fillfactor", "70")],
        external: false,
        file_format: None,
        location: None,
    };
    assert_eq!(
        stmt.to_string(),
        "CREATE TABLE t (a INT, PRIMARY KEY (a), CONSTRAINT u UNIQUE (a)) WITH (fillfactor = 70)"
    );
}

#[test]
fn create_table_ignores_storage_of_a_table_that_is_not_external() {
    let stmt = SQLStatement::SQLCreateTable {
        name: table(&["t"]),
        columns: vec![column("a", "INT")],
        constraints: vec![],
        with_options: vec![],
        external: false,
        file_format: Some(FileFormat::ORC),
        location: Some("/x".to_string()),
    };
    assert_eq!(stmt.to_string(), "CREATE TABLE t (a INT)");
}

#[test]
fn create_external_table_with_options_after_storage() {
    let stmt = SQLStatement::SQLCreateTable {
        name: table(&["t"]),
        columns: vec![column("a", "INT")],
        constraints: vec![],
        with_options: vec![option("k", "1")],
        external: true,
        file_format: Some(FileFormat::JSONFILE),
        location: Some("/d".to_string()),
    };
    assert_eq!(
        stmt.to_string(),
        "CREATE EXTERNAL TABLE t (a INT) STORED AS TEXTFILE LOCATION '/d' WITH (k = 1)"
    );
}

#[test]
fn new_create_table_rejects_external_without_format() {
    let built = SQLStatement::new_create_table(
        table(&["t"]),
        vec![column("a", "INT")],
        vec![],
        vec![],
        true,
        None,
        Some("/data".to_string()),
    );
    assert_eq!(built, Err(ConstructionError::MissingFileFormat));
}

#[test]
fn new_create_table_rejects_external_without_location() {
    let built = SQLStatement::new_create_table(
        table(&["t"]),
        vec![column("a", "INT")],
        vec![],
        vec![],
        true,
        Some(FileFormat::ORC),
        None,
    );
    assert_eq!(built, Err(ConstructionError::MissingLocation));
}

#[test]
fn new_create_table_rejects_external_without_both() {
    let built =
        SQLStatement::new_create_table(table(&["t"]), vec![], vec![], vec![], true, None, None);
    assert_eq!(built, Err(ConstructionError::MissingFileFormat));
}

#[test]
fn new_create_table_accepts_external_with_both() {
    let built = SQLStatement::new_create_table(
        table(&["t"]),
        vec![column("a", "INT")],
        vec![],
        vec![],
        true,
        Some(FileFormat::PARQUET),
        Some("/data".to_string()),
    );
    let stmt = built.unwrap();
    assert!(stmt.is_well_formed());
    assert_eq!(
        stmt.to_string(),
        "CREATE EXTERNAL TABLE t (a INT) STORED AS PARQUET LOCATION '/data'"
    );
}

#[test]
fn new_create_table_accepts_a_plain_table() {
    let built = SQLStatement::new_create_table(
        table(&["t"]),
        vec![column("a", "INT")],
        vec![],
        vec![],
        false,
        None,
        None,
    );
    assert_eq!(
        built,
        Ok(SQLStatement::SQLCreateTable {
            name: table(&["t"]),
            columns: vec![column("a", "INT")],
            constraints: vec![],
            with_options: vec![],
            external: false,
            file_format: None,
            location: None,
        })
    );
}

#[test]
fn is_well_formed_rejects_external_table_without_storage() {
    let stmt = SQLStatement::SQLCreateTable {
        name: table(&["t"]),
        columns: vec![],
        constraints: vec![],
        with_options: vec![],
        external: true,
        file_format: None,
        location: None,
    };
    assert!(!stmt.is_well_formed());
    let inside = SQLStatement::SQLTransaction(vec![Box::new(stmt)]);
    assert!(!inside.is_well_formed());
}

#[test]
fn is_well_formed_looks_into_filters_and_defaults() {
    let bad = ASTNode::SQLCase {
        operand: None,
        conditions: vec![id("c")],
        results: vec![],
        else_result: None,
    };
    let stmt = SQLStatement::SQLDelete { table_name: table(&["t"]), selection: Some(bad) };
    assert!(!stmt.is_well_formed());
    let bad = ASTNode::SQLCase {
        operand: None,
        conditions: vec![],
        results: vec![id("r")],
        else_result: None,
    };
    let mut def = column("a", "INT");
    def.default = Some(bad);
    assert!(!def.is_well_formed());
    let stmt = SQLStatement::SQLCreateTable {
        name: table(&["t"]),
        columns: vec![def],
        constraints: vec![],
        with_options: vec![],
        external: false,
        file_format: None,
        location: None,
    };
    assert!(!stmt.is_well_formed());
}

#[test]
fn column_def_plain() {
    assert_eq!(column("a", "INT").to_string(), "a INT");
}

#[test]
fn column_def_with_everything() {
    let def = SQLColumnDef {
        name: "id".to_string(),
        data_type: SQLFragment::new("BIGINT"),
        is_primary: true,
        is_unique: true,
        default: Some(val("0")),
        allow_null: false,
    };
    assert_eq!(def.to_string(), "id BIGINT PRIMARY KEY UNIQUE DEFAULT 0 NOT NULL");
}

#[test]
fn column_def_with_single_modifiers() {
    let mut def = column("a", "INT");
    def.is_primary = true;
    assert_eq!(def.to_string(), "a INT PRIMARY KEY");
    let mut def = column("a", "INT");
    def.is_unique = true;
    assert_eq!(def.to_string(), "a INT UNIQUE");
    let mut def = column("a", "INT");
    def.default = Some(val("'x'"));
    assert_eq!(def.to_string(), "a INT DEFAULT 'x'");
    let mut def = column("a", "INT");
    def.allow_null = false;
    assert_eq!(def.to_string(), "a INT NOT NULL");
}

#[test]
fn alter_table_renders_the_operation_text() {
    let stmt = SQLStatement::SQLAlterTable {
        name: table(&["t"]),
        operation: SQLFragment::new("ADD CONSTRAINT pk PRIMARY KEY (a)"),
    };
    assert_eq!(stmt.to_string(), "ALTER TABLE t ADD CONSTRAINT pk PRIMARY KEY (a)");
}

#[test]
fn drop_table_if_exists_cascade() {
    let stmt = SQLStatement::SQLDrop {
        object_type: SQLObjectType::Table,
        if_exists: true,
        names: vec![table(&["t1"]), table(&["t2"])],
        cascade: true,
    };
    assert_eq!(stmt.to_string(), "DROP TABLE IF EXISTS t1, t2 CASCADE");
}

#[test]
fn drop_view_plain() {
    let stmt = SQLStatement::SQLDrop {
        object_type: SQLObjectType::View,
        if_exists: false,
        names: vec![table(&["s", "v"])],
        cascade: false,
    };
    assert_eq!(stmt.to_string(), "DROP VIEW s.v");
}

#[test]
fn transaction_puts_each_statement_on_a_line() {
    let stmt = SQLStatement::SQLTransaction(vec![
        Box::new(SQLStatement::SQLQuery(Box::new(SQLFragment::new("STMT1")))),
        Box::new(SQLStatement::SQLQuery(Box::new(SQLFragment::new("STMT2")))),
    ]);
    assert_eq!(stmt.to_string(), "BEGIN;\nSTMT1\nSTMT2\nCOMMIT;");
}

#[test]
fn transaction_of_nothing() {
    let stmt = SQLStatement::SQLTransaction(vec![]);
    assert_eq!(stmt.to_string(), "BEGIN;\n\nCOMMIT;");
}

#[test]
fn transaction_inside_transaction() {
    let inner = SQLStatement::SQLTransaction(vec![Box::new(SQLStatement::SQLDelete {
        table_name: table(&["t"]),
        selection: None,
    })]);
    let outer = SQLStatement::SQLTransaction(vec![
        Box::new(inner),
        Box::new(SQLStatement::SQLQuery(Box::new(SQLFragment::new("SELECT 1")))),
    ]);
    assert!(outer.is_well_formed());
    assert_eq!(outer.to_string(), "BEGIN;\nBEGIN;\nDELETE FROM t\nCOMMIT;\nSELECT 1\nCOMMIT;");
}

#[test]
fn object_name_joins_parts_with_dots() {
    assert_eq!(table(&["db", "schema", "obj"]).to_string(), "db.schema.obj");
    assert_eq!(table(&["t"]).to_string(), "t");
}

#[test]
fn object_name_new_rejects_no_parts() {
    assert_eq!(SQLObjectName::new(vec![]), Err(ConstructionError::EmptyObjectName));
    assert_eq!(SQLObjectName::new(idents(&["a", "b"])), Ok(table(&["a", "b"])));
    assert!(!table(&[]).is_well_formed());
    assert!(table(&["a"]).is_well_formed());
}

#[test]
fn is_well_formed_rejects_an_empty_table_name() {
    let stmt = SQLStatement::SQLDelete { table_name: table(&[]), selection: None };
    assert!(!stmt.is_well_formed());
    let stmt = SQLStatement::SQLDrop {
        object_type: SQLObjectType::Table,
        if_exists: false,
        names: vec![table(&["a"]), table(&[])],
        cascade: false,
    };
    assert!(!stmt.is_well_formed());
}

#[test]
fn fragment_keeps_its_text() {
    let f = SQLFragment::new("SELECT * FROM t");
    assert_eq!(f.to_string(), "SELECT * FROM t");
    assert_eq!(f, SQLFragment("SELECT * FROM t".to_string()));
}

#[test]
fn statements_from_rendered_parts() {
    let none: Vec<String> = vec![];
    assert_eq!(insert_string("t", &idents(&["a"]), "SELECT 1"), "INSERT INTO t (a) SELECT 1");
    assert_eq!(
        copy_string("t", &none, &idents(&["x\ty", "z"])),
        "COPY t FROM stdin; \nx\ty\nz\n\\."
    );
    assert_eq!(update_string("t", &idents(&["a = 1"]), &None), "UPDATE t SET a = 1");
    assert_eq!(delete_string("t", &Some("a".to_string())), "DELETE FROM t WHERE a");
    assert_eq!(
        create_view_string(true, "v", &none, &none, "SELECT 1"),
        "CREATE MATERIALIZED VIEW v AS SELECT 1"
    );
    assert_eq!(
        create_table_string(
            "t",
            &idents(&["a INT"]),
            &none,
            &Some(("ORC".to_string(), "/p".to_string())),
            &none
        ),
        "CREATE EXTERNAL TABLE t (a INT) STORED AS ORC LOCATION '/p'"
    );
    assert_eq!(alter_table_string("t", "DROP COLUMN a"), "ALTER TABLE t DROP COLUMN a");
    assert_eq!(drop_string("VIEW", false, &idents(&["v"]), true), "DROP VIEW v CASCADE");
    assert_eq!(transaction_string(&idents(&["A", "B", "C"])), "BEGIN;\nA\nB\nC\nCOMMIT;");
}

#[test]
fn try_to_string_renders_a_well_formed_statement() {
    let stmt = SQLStatement::SQLDelete { table_name: table(&["t"]), selection: None };
    assert_eq!(stmt.try_to_string(), Some("DELETE FROM t".to_string()));
}

#[test]
fn try_to_string_refuses_an_external_table_without_storage() {
    let stmt = SQLStatement::SQLCreateTable {
        name: table(&["t"]),
        columns: vec![column("a", "INT")],
        constraints: vec![],
        with_options: vec![],
        external: true,
        file_format: Some(FileFormat::ORC),
        location: None,
    };
    assert_eq!(stmt.try_to_string(), None);
}

#[test]
fn clone_of_a_statement_is_equal_and_renders_the_same() {
    let mut def = column("a", "INT");
    def.default = Some(val("0"));
    let stmts = vec![
        SQLStatement::SQLQuery(Box::new(SQLFragment::new("SELECT 1"))),
        SQLStatement::SQLInsert {
            table_name: table(&["t"]),
            columns: idents(&["a", "b"]),
            source: Box::new(SQLFragment::new("SELECT 1, 2")),
        },
        SQLStatement::SQLCopy {
            table_name: table(&["t"]),
            columns: idents(&["a"]),
            values: vec![vec![Some("1".to_string()), None], vec![None, Some("2".to_string())]],
        },
        SQLStatement::SQLUpdate {
            table_name: table(&["t"]),
            assignments: vec![SQLAssignment { id: "a".to_string(), value: val("1") }],
            selection: Some(equals("b", "2")),
        },
        SQLStatement::SQLDelete { table_name: table(&["t"]), selection: Some(equals("b", "2")) },
        SQLStatement::SQLCreateView {
            name: table(&["v"]),
            columns: idents(&["x"]),
            query: Box::new(SQLFragment::new("SELECT 1")),
            materialized: true,
            with_options: vec![option("k", "1")],
        },
        SQLStatement::SQLCreateTable {
            name: table(&["t"]),
            columns: vec![def],
            constraints: vec![SQLFragment::new("PRIMARY KEY (a)")],
            with_options: vec![option("k", "1")],
            external: true,
            file_format: Some(FileFormat::AVRO),
            location: Some("/d".to_string()),
        },
        SQLStatement::SQLAlterTable {
            name: table(&["t"]),
            operation: SQLFragment::new("DROP COLUMN a"),
        },
        SQLStatement::SQLDrop {
            object_type: SQLObjectType::View,
            if_exists: true,
            names: vec![table(&["a", "b"]), table(&["c"])],
            cascade: false,
        },
    ];
    let whole = SQLStatement::SQLTransaction(stmts.into_iter().map(Box::new).collect());
    let copy = whole.clone();
    assert_eq!(copy, whole);
    assert_eq!(copy.to_string(), whole.to_string());
    assert!(copy.is_well_formed());
}

#[test]
fn clone_of_parts_is_equal() {
    let name = table(&["a", "b"]);
    assert_eq!(name.clone(), name);
    let opt = option("k", "'v'");
    assert_eq!(opt.clone(), opt);
    let frag = SQLFragment::new("x");
    assert_eq!(frag.clone(), frag);
    let a = SQLAssignment { id: "a".to_string(), value: val("1") };
    assert_eq!(a.clone(), a);
    let mut def = column("a", "INT");
    def.default = Some(val("1"));
    assert_eq!(def.clone(), def);
}
