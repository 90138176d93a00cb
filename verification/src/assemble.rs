//! Putting statements together from the texts of their parts: what each
//! kind of statement looks like, once every part has been rendered.

use vstd::prelude::*;
use vstd::string::*;
use crate::file_format::FileFormat;
use crate::text::{
    comma_separated, comma_separated_string, join, join_strings, keyword_if, list_clause,
    optional_clause, optional_text, push_keyword_if, push_list_clause, push_optional_clause, texts,
};

verus! {

/// The texts of an optional pair of strings.
pub open spec fn optional_pair_text(item: Option<(String, String)>) -> Option<
    (Seq<char>, Seq<char>),
> {
    match item {
        Some(pair) => Some((pair.0@, pair.1@)),
        None => None,
    }
}

/// `INSERT INTO <table> [(<cols>) ]<source-query>`
pub open spec fn insert_sql(table: Seq<char>, columns: Seq<Seq<char>>, source: Seq<char>) -> Seq<
    char,
> {
    "INSERT INTO "@ + table + " "@ + list_clause("("@, columns, ") "@) + source
}

/// The data of a `COPY`: nothing when there are no rows, otherwise a line
/// break and the rows with a line break between neighbours, so that every
/// row stands on a line of its own.
pub open spec fn copy_data(rows: Seq<Seq<char>>) -> Seq<char> {
    if rows.len() == 0 {
        Seq::empty()
    } else {
        "\n"@ + join(rows, "\n"@)
    }
}

/// `COPY <table>[ (<cols>)] FROM stdin; `, the rows if there are any, and on
/// a line of its own the end mark `\.`
pub open spec fn copy_sql(table: Seq<char>, columns: Seq<Seq<char>>, rows: Seq<Seq<char>>) -> Seq<
    char,
> {
    "COPY "@ + table + list_clause(" ("@, columns, ")"@) + " FROM stdin; "@ + copy_data(rows)
        + "\n\\."@
}

/// `UPDATE <table>[ SET <assignments>][ WHERE <filter>]`
pub open spec fn update_sql(
    table: Seq<char>,
    assignments: Seq<Seq<char>>,
    selection: Option<Seq<char>>,
) -> Seq<char> {
    "UPDATE "@ + table + list_clause(" SET "@, assignments, Seq::empty()) + optional_clause(
        " WHERE "@,
        selection,
    )
}

/// `DELETE FROM <table>[ WHERE <filter>]`
pub open spec fn delete_sql(table: Seq<char>, selection: Option<Seq<char>>) -> Seq<char> {
    "DELETE FROM "@ + table + optional_clause(" WHERE "@, selection)
}

/// `CREATE[ MATERIALIZED] VIEW <name>[ WITH (<options>)][ (<cols>)] AS <query>`:
/// the options come before the columns.
pub open spec fn create_view_sql(
    materialized: bool,
    name: Seq<char>,
    options: Seq<Seq<char>>,
    columns: Seq<Seq<char>>,
    query: Seq<char>,
) -> Seq<char> {
    "CREATE"@ + keyword_if(materialized, " MATERIALIZED"@) + " VIEW "@ + name + list_clause(
        " WITH ("@,
        options,
        ")"@,
    ) + list_clause(" ("@, columns, ")"@) + " AS "@ + query
}

/// The file format and the location of an external table, as texts; none
/// for a table that is not external.
pub open spec fn storage_texts(
    external: bool,
    file_format: Option<FileFormat>,
    location: Option<String>,
) -> Option<(Seq<char>, Seq<char>)>
    recommends
        external ==> file_format is Some && location is Some,
{
    if external {
        Some((file_format.unwrap().sql(), location.unwrap()@))
    } else {
        None
    }
}

/// Where an external table is stored: ` STORED AS <format> LOCATION '<path>'`;
/// nothing for a table that is not external.
pub open spec fn stored_as(storage: Option<(Seq<char>, Seq<char>)>) -> Seq<char> {
    match storage {
        Some((format, path)) => " STORED AS "@ + format + " LOCATION '"@ + path + "'"@,
        None => Seq::empty(),
    }
}

/// `CREATE [EXTERNAL ]TABLE <name> (<col-defs>[, <constraints>])`, then for
/// an external table where it is stored, then `[ WITH (<options>)]`
pub open spec fn create_table_sql(
    name: Seq<char>,
    columns: Seq<Seq<char>>,
    constraints: Seq<Seq<char>>,
    storage: Option<(Seq<char>, Seq<char>)>,
    options: Seq<Seq<char>>,
) -> Seq<char> {
    "CREATE "@ + keyword_if(storage is Some, "EXTERNAL "@) + "TABLE "@ + name + " ("@
        + comma_separated(columns) + list_clause(", "@, constraints, Seq::empty()) + ")"@
        + stored_as(storage) + list_clause(" WITH ("@, options, ")"@)
}

/// `ALTER TABLE <name> <operation>`
pub open spec fn alter_table_sql(name: Seq<char>, operation: Seq<char>) -> Seq<char> {
    "ALTER TABLE "@ + name + " "@ + operation
}

/// `DROP <kind>[ IF EXISTS] <names>[ CASCADE]`
pub open spec fn drop_sql(kind: Seq<char>, if_exists: bool, names: Seq<Seq<char>>, cascade: bool) -> Seq<
    char,
> {
    "DROP "@ + kind + keyword_if(if_exists, " IF EXISTS"@) + " "@ + comma_separated(names)
        + keyword_if(cascade, " CASCADE"@)
}

/// `BEGIN;`, the statements each on a line of its own, and `COMMIT;`
pub open spec fn transaction_sql(statements: Seq<Seq<char>>) -> Seq<char> {
    "BEGIN;\n"@ + join(statements, "\n"@) + "\nCOMMIT;"@
}

/// Puts an `INSERT` statement together from its rendered parts.
pub fn insert_string(table: &str, columns: &Vec<String>, source: &str) -> (res: String)
    ensures
        res@ == insert_sql(table@, texts(columns@), source@),
{
    let mut out = String::from_str("INSERT INTO ");
    out.append(table);
    out.append(" ");
    push_list_clause(&mut out, "(", columns, ") ");
    out.append(source);
    out
}

/// Puts a `COPY` statement together from its rendered parts: the table,
/// the columns, and the rows, each row already a line of text.
pub fn copy_string(table: &str, columns: &Vec<String>, rows: &Vec<String>) -> (res: String)
    ensures
        res@ == copy_sql(table@, texts(columns@), texts(rows@)),
{
    let mut out = String::from_str("COPY ");
    out.append(table);
    push_list_clause(&mut out, " (", columns, ")");
    out.append(" FROM stdin; ");
    let ghost head = out@;
    if rows.len() > 0 {
        out.append("\n");
        out.append(join_strings(rows, "\n").as_str());
    }
    assert(out@ =~= head + copy_data(texts(rows@)));
    out.append("\n\\.");
    out
}

/// Puts an `UPDATE` statement together from its rendered parts.
pub fn update_string(table: &str, assignments: &Vec<String>, selection: &Option<String>) -> (res:
    String)
    ensures
        res@ == update_sql(table@, texts(assignments@), optional_text(*selection)),
{
    let mut out = String::from_str("UPDATE ");
    out.append(table);
    push_list_clause(&mut out, " SET ", assignments, "");
    proof {
        reveal_strlit("");
        assert(""@ =~= Seq::<char>::empty());
    }
    push_optional_clause(&mut out, " WHERE ", selection);
    out
}

/// Puts a `DELETE` statement together from its rendered parts.
pub fn delete_string(table: &str, selection: &Option<String>) -> (res: String)
    ensures
        res@ == delete_sql(table@, optional_text(*selection)),
{
    let mut out = String::from_str("DELETE FROM ");
    out.append(table);
    push_optional_clause(&mut out, " WHERE ", selection);
    out
}

/// Puts a `CREATE VIEW` statement together from its rendered parts.
pub fn create_view_string(
    materialized: bool,
    name: &str,
    options: &Vec<String>,
    columns: &Vec<String>,
    query: &str,
) -> (res: String)
    ensures
        res@ == create_view_sql(materialized, name@, texts(options@), texts(columns@), query@),
{
    let mut out = String::from_str("CREATE");
    push_keyword_if(&mut out, materialized, " MATERIALIZED");
    out.append(" VIEW ");
    out.append(name);
    push_list_clause(&mut out, " WITH (", options, ")");
    push_list_clause(&mut out, " (", columns, ")");
    out.append(" AS ");
    out.append(query);
    out
}

/// The file format and the location of an external table, rendered; none
/// for a table that is not external.
pub fn storage_strings(
    external: bool,
    file_format: &Option<FileFormat>,
    location: &Option<String>,
) -> (res: Option<(String, String)>)
    requires
        external ==> *file_format is Some && *location is Some,
    ensures
        optional_pair_text(res) == storage_texts(external, *file_format, *location),
{
    if external {
        match (file_format, location) {
            (Some(format), Some(path)) => Some((format.to_string(), path.clone())),
            _ => None,
        }
    } else {
        None
    }
}

/// Puts a `CREATE TABLE` statement together from its rendered parts.
pub fn create_table_string(
    name: &str,
    columns: &Vec<String>,
    constraints: &Vec<String>,
    storage: &Option<(String, String)>,
    options: &Vec<String>,
) -> (res: String)
    ensures
        res@ == create_table_sql(
            name@,
            texts(columns@),
            texts(constraints@),
            optional_pair_text(*storage),
            texts(options@),
        ),
{
    let mut out = String::from_str("CREATE ");
    push_keyword_if(&mut out, storage.is_some(), "EXTERNAL ");
    out.append("TABLE ");
    out.append(name);
    out.append(" (");
    out.append(comma_separated_string(columns).as_str());
    push_list_clause(&mut out, ", ", constraints, "");
    proof {
        reveal_strlit("");
        assert(""@ =~= Seq::<char>::empty());
    }
    out.append(")");
    let ghost head = out@;
    match storage {
        Some(pair) => {
            out.append(" STORED AS ");
            out.append(pair.0.as_str());
            out.append(" LOCATION '");
            out.append(pair.1.as_str());
            out.append("'");
        },
        None => {},
    }
    assert(out@ =~= head + stored_as(optional_pair_text(*storage)));
    push_list_clause(&mut out, " WITH (", options, ")");
    out
}

/// Puts an `ALTER TABLE` statement together from its rendered parts.
pub fn alter_table_string(name: &str, operation: &str) -> (res: String)
    ensures
        res@ == alter_table_sql(name@, operation@),
{
    let mut out = String::from_str("ALTER TABLE ");
    out.append(name);
    out.append(" ");
    out.append(operation);
    out
}

/// Puts a `DROP` statement together from its rendered parts.
pub fn drop_string(kind: &str, if_exists: bool, names: &Vec<String>, cascade: bool) -> (res: String)
    ensures
        res@ == drop_sql(kind@, if_exists, texts(names@), cascade),
{
    let mut out = String::from_str("DROP ");
    out.append(kind);
    push_keyword_if(&mut out, if_exists, " IF EXISTS");
    out.append(" ");
    out.append(comma_separated_string(names).as_str());
    push_keyword_if(&mut out, cascade, " CASCADE");
    out
}

/// Puts a transaction together from its rendered statements.
pub fn transaction_string(statements: &Vec<String>) -> (res: String)
    ensures
        res@ == transaction_sql(texts(statements@)),
{
    let mut out = String::from_str("BEGIN;\n");
    out.append(join_strings(statements, "\n").as_str());
    out.append("\nCOMMIT;");
    out
}

/// The column list of an `INSERT`: without columns nothing stands between
/// the table and the query but one space; with columns they stand in
/// brackets, separated by `", "`.
pub proof fn lemma_insert_columns(table: Seq<char>, columns: Seq<Seq<char>>, source: Seq<char>)
    ensures
        columns.len() == 0 ==> insert_sql(table, columns, source) == "INSERT INTO "@ + table
            + " "@ + source,
        columns.len() > 0 ==> insert_sql(table, columns, source) == "INSERT INTO "@ + table
            + " "@ + "("@ + join(columns, ", "@) + ") "@ + source,
{
    let head = "INSERT INTO "@ + table + " "@;
    if columns.len() == 0 {
        assert(insert_sql(table, columns, source) =~= head + source);
    } else {
        assert(insert_sql(table, columns, source) =~= head + "("@ + join(columns, ", "@) + ") "@
            + source);
    }
}

/// The column list and the data of a `COPY`: each is absent altogether when
/// its list is empty. The data are the rows, each on a line of its own.
pub proof fn lemma_copy_lists(table: Seq<char>, columns: Seq<Seq<char>>, rows: Seq<Seq<char>>)
    ensures
        columns.len() == 0 && rows.len() == 0 ==> copy_sql(table, columns, rows) == "COPY "@
            + table + " FROM stdin; "@ + "\n\\."@,
        columns.len() > 0 && rows.len() == 0 ==> copy_sql(table, columns, rows) == "COPY "@
            + table + " ("@ + join(columns, ", "@) + ")"@ + " FROM stdin; "@ + "\n\\."@,
        columns.len() == 0 && rows.len() > 0 ==> copy_sql(table, columns, rows) == "COPY "@
            + table + " FROM stdin; "@ + "\n"@ + join(rows, "\n"@) + "\n\\."@,
        columns.len() > 0 && rows.len() > 0 ==> copy_sql(table, columns, rows) == "COPY "@ + table
            + " ("@ + join(columns, ", "@) + ")"@ + " FROM stdin; "@ + "\n"@ + join(rows, "\n"@)
            + "\n\\."@,
{
    let head = "COPY "@ + table;
    let from = " FROM stdin; "@;
    let end = "\n\\."@;
    if columns.len() == 0 && rows.len() == 0 {
        assert(copy_sql(table, columns, rows) =~= head + from + end);
    } else if columns.len() > 0 && rows.len() == 0 {
        assert(copy_sql(table, columns, rows) =~= head + " ("@ + join(columns, ", "@) + ")"@
            + from + end);
    } else if columns.len() == 0 {
        assert(copy_sql(table, columns, rows) =~= head + from + "\n"@ + join(rows, "\n"@) + end);
    } else {
        assert(copy_sql(table, columns, rows) =~= head + " ("@ + join(columns, ", "@) + ")"@
            + from + "\n"@ + join(rows, "\n"@) + end);
    }
}

/// A `COPY` without columns and without rows is `COPY <table> FROM stdin; `,
/// a line break and the end mark: no line of data stands between them.
pub proof fn lemma_copy_without_rows(table: Seq<char>)
    ensures
        copy_sql(table, Seq::empty(), Seq::empty()) == "COPY "@ + table + " FROM stdin; \n\\."@,
{
    reveal_strlit(" FROM stdin; ");
    reveal_strlit("\n\\.");
    reveal_strlit(" FROM stdin; \n\\.");
    lemma_copy_lists(table, Seq::empty(), Seq::empty());
    assert(" FROM stdin; \n\\."@ =~= " FROM stdin; "@ + "\n\\."@);
    assert(copy_sql(table, Seq::empty(), Seq::empty()) =~= "COPY "@ + table
        + " FROM stdin; \n\\."@);
}

/// The rows of a `COPY` stand each on a line of its own: a line break
/// before every row, and one more before the end mark.
pub proof fn lemma_copy_rows_on_lines(table: Seq<char>, first: Seq<char>, second: Seq<char>)
    ensures
        copy_sql(table, Seq::empty(), seq![first]) == "COPY "@ + table + " FROM stdin; "@ + "\n"@
            + first + "\n\\."@,
        copy_sql(table, Seq::empty(), seq![first, second]) == "COPY "@ + table
            + " FROM stdin; "@ + "\n"@ + first + "\n"@ + second + "\n\\."@,
{
    lemma_copy_lists(table, Seq::empty(), seq![first]);
    lemma_copy_lists(table, Seq::empty(), seq![first, second]);
    assert(seq![first, second].drop_last() =~= seq![first]);
    assert(join(seq![first], "\n"@) == first);
    assert(join(seq![first, second], "\n"@) == first + "\n"@ + second);
    assert(copy_sql(table, Seq::empty(), seq![first, second]) =~= "COPY "@ + table
        + " FROM stdin; "@ + "\n"@ + first + "\n"@ + second + "\n\\."@);
}

/// A `COPY` into `t` of the columns `a` and `b`, with the rows `1`, null
/// and `2`, `3`, reads `COPY t (a, b) FROM stdin; `, a line with `1`, a tab
/// and `\N`, a line with `2`, a tab and `3`, and the end mark.
pub proof fn lemma_copy_of_two_rows()
    ensures
        copy_sql(
            "t"@,
            seq!["a"@, "b"@],
            seq![join(seq!["1"@, "\\N"@], "\t"@), join(seq!["2"@, "3"@], "\t"@)],
        ) == "COPY t (a, b) FROM stdin; \n1\t\\N\n2\t3\n\\."@,
{
    reveal_strlit("t");
    reveal_strlit("a");
    reveal_strlit("b");
    reveal_strlit("1");
    reveal_strlit("2");
    reveal_strlit("3");
    reveal_strlit("\\N");
    reveal_strlit("\t");
    reveal_strlit("\n");
    reveal_strlit(", ");
    reveal_strlit("COPY ");
    reveal_strlit(" (");
    reveal_strlit(")");
    reveal_strlit(" FROM stdin; ");
    reveal_strlit("\n\\.");
    reveal_strlit("COPY t (a, b) FROM stdin; \n1\t\\N\n2\t3\n\\.");
    let columns = seq!["a"@, "b"@];
    let first = join(seq!["1"@, "\\N"@], "\t"@);
    let second = join(seq!["2"@, "3"@], "\t"@);
    assert(seq!["a"@, "b"@].drop_last() =~= seq!["a"@]);
    assert(seq!["1"@, "\\N"@].drop_last() =~= seq!["1"@]);
    assert(seq!["2"@, "3"@].drop_last() =~= seq!["2"@]);
    assert(join(seq!["a"@], ", "@) == "a"@);
    assert(join(seq!["1"@], "\t"@) == "1"@);
    assert(join(seq!["2"@], "\t"@) == "2"@);
    assert(join(columns, ", "@) == "a"@ + ", "@ + "b"@);
    assert(first == "1"@ + "\t"@ + "\\N"@);
    assert(second == "2"@ + "\t"@ + "3"@);
    assert(seq![first, second].drop_last() =~= seq![first]);
    assert(join(seq![first], "\n"@) == first);
    assert(join(seq![first, second], "\n"@) == first + "\n"@ + second);
    lemma_copy_lists("t"@, columns, seq![first, second]);
    assert(copy_sql("t"@, columns, seq![first, second])
        =~= "COPY t (a, b) FROM stdin; \n1\t\\N\n2\t3\n\\."@);
}

/// The assignments of an `UPDATE`: without any there is no `SET`; with some
/// they follow ` SET `, separated by `", "`.
pub proof fn lemma_update_assignments(
    table: Seq<char>,
    assignments: Seq<Seq<char>>,
    selection: Option<Seq<char>>,
)
    ensures
        assignments.len() == 0 ==> update_sql(table, assignments, selection) == "UPDATE "@ + table
            + optional_clause(" WHERE "@, selection),
        assignments.len() > 0 ==> update_sql(table, assignments, selection) == "UPDATE "@ + table
            + " SET "@ + join(assignments, ", "@) + optional_clause(" WHERE "@, selection),
{
    let head = "UPDATE "@ + table;
    let tail = optional_clause(" WHERE "@, selection);
    if assignments.len() == 0 {
        assert(update_sql(table, assignments, selection) =~= head + tail);
    } else {
        assert(update_sql(table, assignments, selection) =~= head + " SET "@ + join(
            assignments,
            ", "@,
        ) + tail);
    }
}

/// The options and the columns of a `CREATE VIEW`: each list is absent
/// altogether when it is empty, whatever the other is, and otherwise stands
/// in brackets, separated by `", "`, the options after ` WITH`.
pub proof fn lemma_create_view_lists(
    materialized: bool,
    name: Seq<char>,
    options: Seq<Seq<char>>,
    columns: Seq<Seq<char>>,
    query: Seq<char>,
)
    ensures
        options.len() == 0 ==> create_view_sql(materialized, name, options, columns, query)
            == "CREATE"@ + keyword_if(materialized, " MATERIALIZED"@) + " VIEW "@ + name
            + list_clause(" ("@, columns, ")"@) + " AS "@ + query,
        options.len() > 0 ==> create_view_sql(materialized, name, options, columns, query)
            == "CREATE"@ + keyword_if(materialized, " MATERIALIZED"@) + " VIEW "@ + name
            + " WITH ("@ + join(options, ", "@) + ")"@ + list_clause(" ("@, columns, ")"@)
            + " AS "@ + query,
        columns.len() == 0 ==> create_view_sql(materialized, name, options, columns, query)
            == "CREATE"@ + keyword_if(materialized, " MATERIALIZED"@) + " VIEW "@ + name
            + list_clause(" WITH ("@, options, ")"@) + " AS "@ + query,
        columns.len() > 0 ==> create_view_sql(materialized, name, options, columns, query)
            == "CREATE"@ + keyword_if(materialized, " MATERIALIZED"@) + " VIEW "@ + name
            + list_clause(" WITH ("@, options, ")"@) + " ("@ + join(columns, ", "@) + ")"@
            + " AS "@ + query,
{
    let head = "CREATE"@ + keyword_if(materialized, " MATERIALIZED"@) + " VIEW "@ + name;
    let with = list_clause(" WITH ("@, options, ")"@);
    let cols = list_clause(" ("@, columns, ")"@);
    let tail = " AS "@ + query;
    let whole = create_view_sql(materialized, name, options, columns, query);
    assert(whole == head + with + cols + " AS "@ + query);
    if options.len() == 0 {
        assert(whole =~= head + cols + " AS "@ + query);
    } else {
        assert(whole =~= head + " WITH ("@ + join(options, ", "@) + ")"@ + cols + " AS "@
            + query);
    }
    if columns.len() == 0 {
        assert(whole =~= head + with + " AS "@ + query);
    } else {
        assert(whole =~= head + with + " ("@ + join(columns, ", "@) + ")"@ + " AS "@ + query);
    }
}

/// The constraints and the options of a `CREATE TABLE`: without
/// constraints the bracket closes after the columns; with some they follow
/// the columns after `", "`. Without options there is no ` WITH`.
pub proof fn lemma_create_table_lists(
    name: Seq<char>,
    columns: Seq<Seq<char>>,
    constraints: Seq<Seq<char>>,
    storage: Option<(Seq<char>, Seq<char>)>,
    options: Seq<Seq<char>>,
)
    ensures
        constraints.len() == 0 ==> create_table_sql(name, columns, constraints, storage, options)
            == "CREATE "@ + keyword_if(storage is Some, "EXTERNAL "@) + "TABLE "@ + name + " ("@
            + join(columns, ", "@) + ")"@ + stored_as(storage) + list_clause(
            " WITH ("@,
            options,
            ")"@,
        ),
        constraints.len() > 0 ==> create_table_sql(name, columns, constraints, storage, options)
            == "CREATE "@ + keyword_if(storage is Some, "EXTERNAL "@) + "TABLE "@ + name + " ("@
            + join(columns, ", "@) + ", "@ + join(constraints, ", "@) + ")"@ + stored_as(storage)
            + list_clause(" WITH ("@, options, ")"@),
        options.len() == 0 ==> create_table_sql(name, columns, constraints, storage, options)
            == "CREATE "@ + keyword_if(storage is Some, "EXTERNAL "@) + "TABLE "@ + name + " ("@
            + join(columns, ", "@) + list_clause(", "@, constraints, Seq::empty()) + ")"@
            + stored_as(storage),
        options.len() > 0 ==> create_table_sql(name, columns, constraints, storage, options)
            == "CREATE "@ + keyword_if(storage is Some, "EXTERNAL "@) + "TABLE "@ + name + " ("@
            + join(columns, ", "@) + list_clause(", "@, constraints, Seq::empty()) + ")"@
            + stored_as(storage) + " WITH ("@ + join(options, ", "@) + ")"@,
{
    let head = "CREATE "@ + keyword_if(storage is Some, "EXTERNAL "@) + "TABLE "@ + name + " ("@
        + join(columns, ", "@);
    let rules = list_clause(", "@, constraints, Seq::empty());
    let with = list_clause(" WITH ("@, options, ")"@);
    let stored = stored_as(storage);
    let whole = create_table_sql(name, columns, constraints, storage, options);
    assert(whole == head + rules + ")"@ + stored + with);
    if constraints.len() == 0 {
        assert(whole =~= head + ")"@ + stored + with);
    } else {
        assert(whole =~= head + ", "@ + join(constraints, ", "@) + ")"@ + stored + with);
    }
    if options.len() == 0 {
        assert(whole =~= head + rules + ")"@ + stored);
    } else {
        assert(whole =~= head + rules + ")"@ + stored + " WITH ("@ + join(options, ", "@) + ")"@);
    }
}

/// A transaction without statements is `BEGIN;`, an empty line and
/// `COMMIT;`.
pub proof fn lemma_empty_transaction()
    ensures
        transaction_sql(Seq::empty()) == "BEGIN;\n\nCOMMIT;"@,
{
    reveal_strlit("BEGIN;\n");
    reveal_strlit("\nCOMMIT;");
    reveal_strlit("BEGIN;\n\nCOMMIT;");
    assert(join(Seq::<Seq<char>>::empty(), "\n"@) =~= Seq::<char>::empty());
    assert(transaction_sql(Seq::empty()) =~= "BEGIN;\n\nCOMMIT;"@);
}

/// A transaction holds its statements in order, each on a line of its own
/// between `BEGIN;` and `COMMIT;`.
pub proof fn lemma_transaction_lines(first: Seq<char>, second: Seq<char>)
    ensures
        transaction_sql(seq![first]) == "BEGIN;\n"@ + first + "\nCOMMIT;"@,
        transaction_sql(seq![first, second]) == "BEGIN;\n"@ + first + "\n"@ + second
            + "\nCOMMIT;"@,
{
    assert(seq![first, second].drop_last() =~= seq![first]);
    assert(join(seq![first], "\n"@) == first);
    assert(join(seq![first, second], "\n"@) == first + "\n"@ + second);
    assert(transaction_sql(seq![first, second]) =~= "BEGIN;\n"@ + first + "\n"@ + second
        + "\nCOMMIT;"@);
}

} // verus!
