//! The texts of the statements sent to the catalog.
//!
//! Names are written into the statements as they stand, without quoting:
//! the dialect binds no parameters in such statements. A caller that cannot
//! vouch for its names tests them first (`DatabaseConfig::has_safe_names`).

use vstd::prelude::*;

verus! {

/// The lookup that returns a row if and only if the role exists.
pub open spec fn role_exists_text(username: Seq<char>) -> Seq<char> {
    "SELECT 1 FROM pg_user WHERE usename='"@ + username + "';"@
}

/// The statement that creates the role with its password.
pub open spec fn create_role_text(username: Seq<char>, password: Seq<char>) -> Seq<char> {
    "CREATE USER "@ + username + " WITH PASSWORD '"@ + password + "';"@
}

/// The statement that gives an existing role a new password.
pub open spec fn alter_role_text(username: Seq<char>, password: Seq<char>) -> Seq<char> {
    "ALTER USER "@ + username + " WITH PASSWORD '"@ + password + "';"@
}

/// The lookup that returns a row if and only if the database exists.
pub open spec fn database_exists_text(database: Seq<char>) -> Seq<char> {
    "SELECT 1 FROM pg_database WHERE datname='"@ + database + "';"@
}

/// The statement that creates the database.
pub open spec fn create_database_text(database: Seq<char>) -> Seq<char> {
    "CREATE DATABASE "@ + database
}

/// The statement that grants the role every privilege on the database.
pub open spec fn grant_text(database: Seq<char>, username: Seq<char>) -> Seq<char> {
    "GRANT ALL ON DATABASE "@ + database + " TO "@ + username
}

/// Writes the lookup of a role.
pub fn role_exists_query(username: &str) -> (sql: String)
    ensures
        sql@ == role_exists_text(username@),
{
    let mut sql: String = String::from_str("SELECT 1 FROM pg_user WHERE usename='");
    sql.append(username);
    sql.append("';");
    sql
}

/// Writes the statement that creates a role.
pub fn create_role_statement(username: &str, password: &str) -> (sql: String)
    ensures
        sql@ == create_role_text(username@, password@),
{
    let mut sql: String = String::from_str("CREATE USER ");
    sql.append(username);
    sql.append(" WITH PASSWORD '");
    sql.append(password);
    sql.append("';");
    sql
}

/// Writes the statement that rotates a role's password.
pub fn alter_role_statement(username: &str, password: &str) -> (sql: String)
    ensures
        sql@ == alter_role_text(username@, password@),
{
    let mut sql: String = String::from_str("ALTER USER ");
    sql.append(username);
    sql.append(" WITH PASSWORD '");
    sql.append(password);
    sql.append("';");
    sql
}

/// Writes the lookup of a database.
pub fn database_exists_query(database: &str) -> (sql: String)
    ensures
        sql@ == database_exists_text(database@),
{
    let mut sql: String = String::from_str("SELECT 1 FROM pg_database WHERE datname='");
    sql.append(database);
    sql.append("';");
    sql
}

/// Writes the statement that creates a database.
pub fn create_database_statement(database: &str) -> (sql: String)
    ensures
        sql@ == create_database_text(database@),
{
    let mut sql: String = String::from_str("CREATE DATABASE ");
    sql.append(database);
    sql
}

/// Writes the statement that grants a role every privilege on a database.
pub fn grant_statement(database: &str, username: &str) -> (sql: String)
    ensures
        sql@ == grant_text(database@, username@),
{
    let mut sql: String = String::from_str("GRANT ALL ON DATABASE ");
    sql.append(database);
    sql.append(" TO ");
    sql.append(username);
    sql
}

} // verus!
