use sqliters::db::column_type_query;
use sqliters::db::create_table_query;
use sqliters::db::insert_rows_query;
use sqliters::db::join_statements;
use sqliters::db::remove_column_query;
use sqliters::db::remove_row_query;
use sqliters::db::remove_table_query;
use sqliters::db::rows_query;
use sqliters::db::table_columns_query;
use sqliters::db::table_schema_query;
use sqliters::db::SCHEMA_QUERY;
use sqliters::db::TABLES_QUERY;

#[test]
fn fixed_queries() {
    assert_eq!(TABLES_QUERY, "SELECT name FROM sqlite_master WHERE type='table'");
    assert_eq!(SCHEMA_QUERY, "SELECT sql FROM sqlite_schema");
}

#[test]
fn queries_about_one_table() {
    assert_eq!(table_schema_query("users"), "SELECT sql FROM sqlite_schema WHERE name='users'");
    assert_eq!(table_columns_query("users"), "PRAGMA table_info(users)");
    assert_eq!(rows_query("*", "users"), "SELECT * FROM users;");
    assert_eq!(rows_query("id", "users"), "SELECT id FROM users;");
    assert_eq!(
        column_type_query("id", "users"),
        "SELECT type FROM pragma_table_info('users') WHERE name='id'"
    );
}

#[test]
fn statements_that_change_a_table() {
    assert_eq!(create_table_query("users", "id INTEGER"), "CREATE TABLE users (id INTEGER)");
    assert_eq!(insert_rows_query("users", "id"), "INSERT INTO users (id) ");
    assert_eq!(remove_row_query("1, 2, 3", "users"), "DELETE FROM users WHERE 1, 2, 3");
    assert_eq!(remove_column_query("id", "users"), "ALTER TABLE users DROP COLUMN id");
    assert_eq!(remove_table_query("users"), "DROP TABLE users");
}

#[test]
fn statements_are_joined_in_order() {
    assert_eq!(join_statements(&Vec::new()), "");
    assert_eq!(
        join_statements(&vec!["CREATE TABLE users (id INTEGER)".to_string()]),
        "CREATE TABLE users (id INTEGER)"
    );
    assert_eq!(
        join_statements(&vec!["a".to_string(), String::new(), "bc".to_string()]),
        "abc"
    );
}
