//! Drops five redundant secondary indexes: two duplicate a UNIQUE
//! constraint or primary key of their table, one duplicates a primary key,
//! one serves no query, one is the leftmost prefix of a composite unique
//! index. `IF EXISTS` keeps the migration idempotent on both SQLite and
//! PostgreSQL. Rolling back does not recreate them.
use vstd::prelude::*;
use super::statement_texts;

verus! {

/// The migration.
pub struct Migration;

/// The indexes the migration drops.
pub open spec fn redundant_indexes() -> Seq<Seq<char>> {
    seq![
        "idx-crontab-name"@,
        "idx-js_worker-id"@,
        "idx-crontab_result-id"@,
        "idx-crontab_result-relative_id"@,
        "idx-kv-namespace"@,
    ]
}

/// `DROP INDEX IF EXISTS "<name>"`.
pub open spec fn drop_index_sql(name: Seq<char>) -> Seq<char> {
    "DROP INDEX IF EXISTS \""@ + name + "\""@
}

fn drop_index(name: &str) -> (r: String)
    ensures
        r@ == drop_index_sql(name@),
{
    let mut r = String::new();
    r.append("DROP INDEX IF EXISTS \"");
    r.append(name);
    r.append("\"");
    assert(r@ =~= drop_index_sql(name@));
    r
}

impl Migration {
    /// Statements of the upgrade, run in order.
    pub fn up_statements() -> (r: Vec<String>)
        ensures
            statement_texts(r@) == redundant_indexes().map_values(|n: Seq<char>| drop_index_sql(n)),
    {
        let mut r: Vec<String> = Vec::new();
        r.push(drop_index("idx-crontab-name"));
        r.push(drop_index("idx-js_worker-id"));
        r.push(drop_index("idx-crontab_result-id"));
        r.push(drop_index("idx-crontab_result-relative_id"));
        r.push(drop_index("idx-kv-namespace"));
        assert(statement_texts(r@) =~= redundant_indexes().map_values(|n: Seq<char>| drop_index_sql(n)));
        r
    }

    /// Statements of the rollback: none.
    pub fn down_statements() -> (r: Vec<String>)
        ensures
            r@.len() == 0,
    {
        Vec::new()
    }
}

/// Law: the upgrade drops five different indexes, each with
/// `DROP INDEX IF EXISTS` on its quoted name, so rerunning it is harmless.
pub proof fn law_upgrade_drops_five_distinct_indexes()
    ensures
        redundant_indexes().len() == 5,
        forall|i: int, j: int| 0 <= i < j < 5 ==> redundant_indexes()[i] != redundant_indexes()[j],
        forall|i: int| 0 <= i < 5 ==> #[trigger] drop_index_sql(redundant_indexes()[i])
            == "DROP INDEX"@ + " IF EXISTS "@ + seq!['"'] + redundant_indexes()[i] + seq!['"'],
{
    reveal_strlit("idx-crontab-name");
    reveal_strlit("idx-js_worker-id");
    reveal_strlit("idx-crontab_result-id");
    reveal_strlit("idx-crontab_result-relative_id");
    reveal_strlit("idx-kv-namespace");
    reveal_strlit("DROP INDEX IF EXISTS \"");
    reveal_strlit("\"");
    reveal_strlit("DROP INDEX");
    reveal_strlit(" IF EXISTS ");
    let names = redundant_indexes();
    assert forall|i: int, j: int| 0 <= i < j < 5 implies names[i] != names[j] by {
        if names[i] == names[j] {
            assert(names[i].len() == names[j].len());
            assert(names[i][6] == names[j][6]);
            assert(names[i][names[i].len() - 1] == names[j][names[j].len() - 1]);
        }
    }
    assert forall|i: int| 0 <= i < 5 implies #[trigger] drop_index_sql(names[i])
        == "DROP INDEX"@ + " IF EXISTS "@ + seq!['"'] + names[i] + seq!['"'] by {
        assert(drop_index_sql(names[i]) =~= "DROP INDEX"@ + " IF EXISTS "@ + seq!['"'] + names[i] + seq!['"']);
    }
}

} // verus!
