//! The Postgres key-value store's own logic: its namespace rule and the SQL
//! it runs. Running the SQL is the database driver's business.
use vstd::prelude::*;

use crate::storage::StorageError;
use crate::text::{concat2, concat3, concat4, spec_trim, to_owned_string, trim};

verus! {

/// The table the key-value rows live in.
pub const DEFAULT_TABLE_NAME: &'static str = "opencord_kv_store";

/// Why the Postgres store could not be made or used.
#[derive(Debug, PartialEq, Eq)]
pub enum PgStoreError {
    /// The namespace was blank.
    EmptyNamespace,
    /// The database driver failed, with its message.
    Sqlx(String),
}

impl PgStoreError {
    /// The message shown for this error.
    pub fn message(&self) -> (res: String)
        ensures
            res@ == (match *self {
                PgStoreError::EmptyNamespace => "namespace cannot be empty"@,
                PgStoreError::Sqlx(m) => m@,
            }),
    {
        match self {
            PgStoreError::EmptyNamespace => to_owned_string("namespace cannot be empty"),
            PgStoreError::Sqlx(m) => m.clone(),
        }
    }
}

/// A namespace must not be blank.
pub fn validate_namespace(namespace: &str) -> (res: Result<(), PgStoreError>)
    ensures
        spec_trim(namespace@).len() == 0 <==> res == Err::<(), PgStoreError>(PgStoreError::EmptyNamespace),
        spec_trim(namespace@).len() > 0 <==> res is Ok,
{
    if trim(namespace).unicode_len() == 0 {
        Err(PgStoreError::EmptyNamespace)
    } else {
        Ok(())
    }
}

/// A driver failure during a key-value operation, as a storage error.
pub fn storage_error_from_driver(message: &str) -> (res: StorageError)
    ensures
        res matches StorageError::Backend(m) && m@ == "postgres key-value store error: "@ + message@,
{
    StorageError::Backend(concat2("postgres key-value store error: ", message))
}

/// The statement that creates the table if it is missing.
pub fn create_table_sql(table: &str) -> (res: String)
    ensures
        res@ == "CREATE TABLE IF NOT EXISTS "@ + table@ + " (namespace TEXT NOT NULL,key TEXT NOT NULL,value BYTEA NOT NULL,updated_at TIMESTAMPTZ NOT NULL DEFAULT NOW(),PRIMARY KEY(namespace, key))"@,
{
    concat3(
        "CREATE TABLE IF NOT EXISTS ",
        table,
        " (namespace TEXT NOT NULL,key TEXT NOT NULL,value BYTEA NOT NULL,updated_at TIMESTAMPTZ NOT NULL DEFAULT NOW(),PRIMARY KEY(namespace, key))",
    )
}

/// The statement that indexes rows by their update time.
pub fn create_index_sql(table: &str) -> (res: String)
    ensures
        res@ == "CREATE INDEX IF NOT EXISTS "@ + table@ + "_updated_at_idx ON "@ + table@ + " (updated_at)"@,
{
    let mut out = concat4("CREATE INDEX IF NOT EXISTS ", table, "_updated_at_idx ON ", table);
    out.append(" (updated_at)");
    out
}

/// The statement that reads a value (parameters: namespace, key).
pub fn select_value_sql(table: &str) -> (res: String)
    ensures
        res@ == "SELECT value FROM "@ + table@ + " WHERE namespace = $1 AND key = $2"@,
{
    concat3("SELECT value FROM ", table, " WHERE namespace = $1 AND key = $2")
}

/// The statement that writes a value, replacing an existing one
/// (parameters: namespace, key, value).
pub fn upsert_value_sql(table: &str) -> (res: String)
    ensures
        res@ == "INSERT INTO "@ + table@ + " (namespace, key, value, updated_at) VALUES ($1, $2, $3, NOW()) ON CONFLICT(namespace, key) DO UPDATE SET value = EXCLUDED.value, updated_at = NOW()"@,
{
    concat3(
        "INSERT INTO ",
        table,
        " (namespace, key, value, updated_at) VALUES ($1, $2, $3, NOW()) ON CONFLICT(namespace, key) DO UPDATE SET value = EXCLUDED.value, updated_at = NOW()",
    )
}

/// The statement that deletes a value (parameters: namespace, key).
pub fn delete_value_sql(table: &str) -> (res: String)
    ensures
        res@ == "DELETE FROM "@ + table@ + " WHERE namespace = $1 AND key = $2"@,
{
    concat3("DELETE FROM ", table, " WHERE namespace = $1 AND key = $2")
}

} // verus!
