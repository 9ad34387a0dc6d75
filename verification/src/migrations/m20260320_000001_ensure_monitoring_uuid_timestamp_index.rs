//! Ensures the `(uuid, timestamp)` indexes of the dynamic and static
//! monitoring tables exist; rolling back drops them.
use vstd::prelude::*;

verus! {

/// The migration.
pub struct Migration;

/// Creates both indexes when missing.
pub const CREATE_INDEXES_SQL: &'static str = r#"
            CREATE INDEX IF NOT EXISTS "idx-dynamic-uuid-timestamp"
            ON "dynamic_monitoring" ("uuid", "timestamp");

            CREATE INDEX IF NOT EXISTS "idx-static-uuid-timestamp"
            ON "static_monitoring" ("uuid", "timestamp");
            "#;

/// Drops both indexes when present.
pub const DROP_INDEXES_SQL: &'static str = r#"
            DROP INDEX IF EXISTS "idx-dynamic-uuid-timestamp";
            DROP INDEX IF EXISTS "idx-static-uuid-timestamp";
            "#;

impl Migration {
    /// Statement of the upgrade.
    pub fn up_statements() -> (r: Vec<String>)
        ensures
            r@.len() == 1,
            r@[0]@ == CREATE_INDEXES_SQL@,
    {
        let mut r: Vec<String> = Vec::new();
        r.push(CREATE_INDEXES_SQL.to_string());
        r
    }

    /// Statement of the rollback.
    pub fn down_statements() -> (r: Vec<String>)
        ensures
            r@.len() == 1,
            r@[0]@ == DROP_INDEXES_SQL@,
    {
        let mut r: Vec<String> = Vec::new();
        r.push(DROP_INDEXES_SQL.to_string());
        r
    }
}

} // verus!
