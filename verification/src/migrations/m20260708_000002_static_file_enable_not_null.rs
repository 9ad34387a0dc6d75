//! `static_file.enable`: fills historical NULLs with `true`, then, on
//! PostgreSQL, makes the column NOT NULL (SQLite cannot alter a column, so
//! there only the data is cleaned). Rolling back keeps the stricter column.
use vstd::prelude::*;
use super::{DbBackend, statement_texts};

verus! {

/// The migration.
pub struct Migration;

/// Fills the NULLs of `static_file.enable` with `true`.
pub open spec fn fill_nulls_sql() -> Seq<char> {
    "UPDATE \"static_file\" SET \"enable\" = true WHERE \"enable\" IS NULL"@
}

/// Makes `static_file.enable` NOT NULL.
pub open spec fn set_not_null_sql() -> Seq<char> {
    "ALTER TABLE \"static_file\" ALTER COLUMN \"enable\" SET NOT NULL"@
}

/// The statements of the upgrade on `backend`, in order.
pub open spec fn upgrade_statements(backend: DbBackend) -> Seq<Seq<char>> {
    if backend == DbBackend::Postgres {
        seq![fill_nulls_sql(), set_not_null_sql()]
    } else {
        seq![fill_nulls_sql()]
    }
}

/// Law: on every engine the upgrade first sets the missing `enable` values
/// of `static_file` to `true`; on PostgreSQL it then makes the column
/// NOT NULL, and that is its last statement; elsewhere nothing follows.
pub proof fn law_upgrade_fills_then_forbids_nulls(backend: DbBackend)
    ensures
        upgrade_statements(backend)[0]
            == "UPDATE \"static_file\" SET \"enable\" = true"@ + " WHERE \"enable\" IS NULL"@,
        backend == DbBackend::Postgres ==> upgrade_statements(backend).len() == 2
            && upgrade_statements(backend).last()
                == "ALTER TABLE \"static_file\" ALTER COLUMN \"enable\""@ + " SET NOT NULL"@,
        backend != DbBackend::Postgres ==> upgrade_statements(backend).len() == 1,
{
    reveal_strlit("UPDATE \"static_file\" SET \"enable\" = true WHERE \"enable\" IS NULL");
    reveal_strlit("UPDATE \"static_file\" SET \"enable\" = true");
    reveal_strlit(" WHERE \"enable\" IS NULL");
    reveal_strlit("ALTER TABLE \"static_file\" ALTER COLUMN \"enable\" SET NOT NULL");
    reveal_strlit("ALTER TABLE \"static_file\" ALTER COLUMN \"enable\"");
    reveal_strlit(" SET NOT NULL");
    assert(fill_nulls_sql() =~= "UPDATE \"static_file\" SET \"enable\" = true"@ + " WHERE \"enable\" IS NULL"@);
    assert(set_not_null_sql() =~= "ALTER TABLE \"static_file\" ALTER COLUMN \"enable\""@ + " SET NOT NULL"@);
}

impl Migration {
    /// Statements of the upgrade on `backend`, in order.
    pub fn up_statements(backend: DbBackend) -> (r: Vec<String>)
        ensures
            statement_texts(r@) == upgrade_statements(backend),
    {
        let mut r: Vec<String> = Vec::new();
        r.push("UPDATE \"static_file\" SET \"enable\" = true WHERE \"enable\" IS NULL".to_string());
        if backend == DbBackend::Postgres {
            r.push("ALTER TABLE \"static_file\" ALTER COLUMN \"enable\" SET NOT NULL".to_string());
        }
        assert(statement_texts(r@) =~= upgrade_statements(backend));
        r
    }

    /// Statements of the rollback: none.
    pub fn down_statements() -> (r: Vec<String>)
        ensures
            r@.len() == 0,
    {
        Vec::new()
    }
}

} // verus!
