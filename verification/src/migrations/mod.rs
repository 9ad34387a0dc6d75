//! Schema migrations, as the SQL statements each one runs.
use vstd::prelude::*;

pub mod m20260320_000001_ensure_monitoring_uuid_timestamp_index;
pub mod m20260708_000000_drop_redundant_indexes;
pub mod m20260708_000001_drop_db_connections_column;
pub mod m20260708_000002_static_file_enable_not_null;

verus! {

/// The database engine a migration runs on.
#[derive(Clone, Copy, Debug, PartialEq, Eq, Structural)]
pub enum DbBackend {
    MySql,
    Postgres,
    Sqlite,
}

/// The texts of a list of statements.
pub open spec fn statement_texts(v: Seq<String>) -> Seq<Seq<char>> {
    v.map_values(|s: String| s@)
}

} // verus!
