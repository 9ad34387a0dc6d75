//! Drops `db_registry.db_connections`, a counter that was only ever
//! increased and so never counted live connections. PostgreSQL uses
//! `IF EXISTS`; SQLite (no such clause) drops it directly; other engines are
//! left alone. Rolling back does not recreate it.
use vstd::prelude::*;
use super::{DbBackend, statement_texts};

verus! {

/// The migration.
pub struct Migration;

/// The statements of the upgrade on `backend`.
pub open spec fn upgrade_statements(backend: DbBackend) -> Seq<Seq<char>> {
    match backend {
        DbBackend::Postgres => seq!["ALTER TABLE \"db_registry\" DROP COLUMN IF EXISTS \"db_connections\""@],
        DbBackend::Sqlite => seq!["ALTER TABLE \"db_registry\" DROP COLUMN \"db_connections\""@],
        DbBackend::MySql => Seq::<Seq<char>>::empty(),
    }
}

/// Law: on PostgreSQL and SQLite the upgrade is one statement that drops
/// `db_registry.db_connections` (tolerating its absence on PostgreSQL);
/// other engines are left alone.
pub proof fn law_upgrade_drops_the_counter_column(backend: DbBackend)
    ensures
        backend == DbBackend::Postgres ==> upgrade_statements(backend)
            == seq!["ALTER TABLE \"db_registry\" DROP COLUMN"@ + " IF EXISTS"@ + " \"db_connections\""@],
        backend == DbBackend::Sqlite ==> upgrade_statements(backend)
            == seq!["ALTER TABLE \"db_registry\" DROP COLUMN"@ + " \"db_connections\""@],
        backend == DbBackend::MySql ==> upgrade_statements(backend).len() == 0,
{
    reveal_strlit("ALTER TABLE \"db_registry\" DROP COLUMN IF EXISTS \"db_connections\"");
    reveal_strlit("ALTER TABLE \"db_registry\" DROP COLUMN \"db_connections\"");
    reveal_strlit("ALTER TABLE \"db_registry\" DROP COLUMN");
    reveal_strlit(" IF EXISTS");
    reveal_strlit(" \"db_connections\"");
    assert("ALTER TABLE \"db_registry\" DROP COLUMN IF EXISTS \"db_connections\""@
        =~= "ALTER TABLE \"db_registry\" DROP COLUMN"@ + " IF EXISTS"@ + " \"db_connections\""@);
    assert("ALTER TABLE \"db_registry\" DROP COLUMN \"db_connections\""@
        =~= "ALTER TABLE \"db_registry\" DROP COLUMN"@ + " \"db_connections\""@);
}

impl Migration {
    /// Statements of the upgrade on `backend`.
    pub fn up_statements(backend: DbBackend) -> (r: Vec<String>)
        ensures
            statement_texts(r@) == upgrade_statements(backend),
    {
        let mut r: Vec<String> = Vec::new();
        match backend {
            DbBackend::Postgres => {
                r.push("ALTER TABLE \"db_registry\" DROP COLUMN IF EXISTS \"db_connections\"".to_string());
            },
            DbBackend::Sqlite => {
                r.push("ALTER TABLE \"db_registry\" DROP COLUMN \"db_connections\"".to_string());
            },
            DbBackend::MySql => {},
        }
        assert(statement_texts(r@) =~= upgrade_statements(backend));
        r
    }

    /// Statements of the rollback: none.
    pub fn down_statements() -> (r: Vec<String>)
        ensures
            r@.len() == 0,
    {
        Vec::new()
    }
}

} // verus!
