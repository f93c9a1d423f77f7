//! The pure side of the data source: the text of the queries that are sent
//! to the database, and the joining of what comes back.

use vstd::prelude::*;

verus! {

/// The query that lists the tables of the database.
pub const TABLES_QUERY: &'static str = "SELECT name FROM sqlite_master WHERE type='table'";

/// The query that lists every definition statement of the database.
pub const SCHEMA_QUERY: &'static str = "SELECT sql FROM sqlite_schema";

/// All of `parts`, one after the other.
pub open spec fn joined(parts: Seq<Seq<char>>) -> Seq<char>
    decreases parts.len(),
{
    if parts.len() == 0 {
        Seq::empty()
    } else {
        joined(parts.drop_last()) + parts.last()
    }
}

fn fill_one(before: &str, first: &str, after: &str) -> (text: String)
    ensures
        text@ == before@ + first@ + after@,
{
    let mut text = String::from_str(before);
    text.append(first);
    text.append(after);
    text
}

fn fill_two(before: &str, first: &str, between: &str, second: &str, after: &str) -> (text: String)
    ensures
        text@ == before@ + first@ + between@ + second@ + after@,
{
    let mut text = String::from_str(before);
    text.append(first);
    text.append(between);
    text.append(second);
    text.append(after);
    text
}

/// The query for the definition statement of `table`.
pub fn table_schema_query(table: &str) -> (query: String)
    ensures
        query@ == "SELECT sql FROM sqlite_schema WHERE name='"@ + table@ + "'"@,
{
    fill_one("SELECT sql FROM sqlite_schema WHERE name='", table, "'")
}

/// The query for the columns of `table`.
pub fn table_columns_query(table: &str) -> (query: String)
    ensures
        query@ == "PRAGMA table_info("@ + table@ + ")"@,
{
    fill_one("PRAGMA table_info(", table, ")")
}

/// The head of the statement that inserts rows into `column` of `table`;
/// the values follow it.
pub fn insert_rows_query(table: &str, column: &str) -> (query: String)
    ensures
        query@ == "INSERT INTO "@ + table@ + " ("@ + column@ + ") "@,
{
    fill_two("INSERT INTO ", table, " (", column, ") ")
}

/// The statement that deletes the rows of `table` for which `row` holds.
pub fn remove_row_query(row: &str, table: &str) -> (query: String)
    ensures
        query@ == "DELETE FROM "@ + table@ + " WHERE "@ + row@,
{
    let query = fill_two("DELETE FROM ", table, " WHERE ", row, "");
    proof {
        reveal_strlit("");
        assert(query@ =~= "DELETE FROM "@ + table@ + " WHERE "@ + row@);
    }
    query
}

/// The statement that drops `column` from `table`.
pub fn remove_column_query(column: &str, table: &str) -> (query: String)
    ensures
        query@ == "ALTER TABLE "@ + table@ + " DROP COLUMN "@ + column@,
{
    let query = fill_two("ALTER TABLE ", table, " DROP COLUMN ", column, "");
    proof {
        reveal_strlit("");
        assert(query@ =~= "ALTER TABLE "@ + table@ + " DROP COLUMN "@ + column@);
    }
    query
}

/// The statement that creates the table `name` with the column
/// definitions in `columns`.
pub fn create_table_query(name: &str, columns: &str) -> (query: String)
    ensures
        query@ == "CREATE TABLE "@ + name@ + " ("@ + columns@ + ")"@,
{
    fill_two("CREATE TABLE ", name, " (", columns, ")")
}

/// The statement that drops `table`.
pub fn remove_table_query(table: &str) -> (query: String)
    ensures
        query@ == "DROP TABLE "@ + table@,
{
    let query = fill_one("DROP TABLE ", table, "");
    proof {
        reveal_strlit("");
        assert(query@ =~= "DROP TABLE "@ + table@);
    }
    query
}

/// The query for the declared type of `column` of `table`.
pub fn column_type_query(column: &str, table: &str) -> (query: String)
    ensures
        query@ == "SELECT type FROM pragma_table_info('"@ + table@ + "') WHERE name='"@ + column@
            + "'"@,
{
    fill_two("SELECT type FROM pragma_table_info('", table, "') WHERE name='", column, "'")
}

/// The query for the rows of `table`, restricted to the expression `column`.
pub fn rows_query(column: &str, table: &str) -> (query: String)
    ensures
        query@ == "SELECT "@ + column@ + " FROM "@ + table@ + ";"@,
{
    fill_two("SELECT ", column, " FROM ", table, ";")
}

/// Joins the definition statements that a schema query returned, in the
/// order of its rows.
pub fn join_statements(statements: &Vec<String>) -> (text: String)
    ensures
        text@ == joined(statements.deep_view()),
{
    let ghost parts = statements.deep_view();
    let mut text = String::new();
    let mut i: usize = 0;
    while i < statements.len()
        invariant
            i <= statements.len(),
            parts == statements.deep_view(),
            text@ == joined(parts.take(i as int)),
        decreases statements.len() - i,
    {
        proof {
            assert(parts.take(i + 1).drop_last() =~= parts.take(i as int));
            assert(parts.take(i + 1).last() == statements@[i as int]@);
        }
        text.append(statements[i].as_str());
        i += 1;
    }
    proof {
        assert(parts.take(statements.len() as int) =~= parts);
    }
    text
}

} // verus!
