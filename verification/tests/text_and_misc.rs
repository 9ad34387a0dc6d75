use nodeget::crontab_schedule::{check_cron_job, decide_cron_run, CronDecision, CronNext};
use nodeget::migrations::{
    m20260320_000001_ensure_monitoring_uuid_timestamp_index as ensure_idx, m20260708_000000_drop_redundant_indexes as drop_idx,
    m20260708_000001_drop_db_connections_column as drop_col, m20260708_000002_static_file_enable_not_null as not_null,
    DbBackend,
};
use nodeget::rpc::{AgentRpcImpl, ReportFailure};
use nodeget::text::{i64_text, is_valid_uuid, u64_text, uuid_string, uuid_value};

#[test]
fn decimal_texts() {
    assert_eq!(u64_text(0), "0");
    assert_eq!(u64_text(u64::MAX), u64::MAX.to_string());
    assert_eq!(i64_text(i64::MIN), i64::MIN.to_string());
    assert_eq!(i64_text(-7), "-7");
    assert_eq!(i64_text(1234567890), "1234567890");
}

#[test]
fn uuid_texts() {
    assert_eq!(uuid_string(0), "00000000-0000-0000-0000-000000000000");
    let u = 0x550e8400e29b41d4a716446655440000u128;
    assert_eq!(uuid_string(u), "550e8400-e29b-41d4-a716-446655440000");
    assert_eq!(uuid_value(&uuid_string(u)), Some(u));
    assert!(is_valid_uuid("550e8400-e29b-41d4-a716-446655440000"));
    assert!(!is_valid_uuid("not-a-uuid"));
    assert!(!is_valid_uuid(""));
}

#[test]
fn cron_decisions() {
    assert_eq!(decide_cron_run(&CronNext::Next(Some(10)), 10), CronDecision::Run);
    assert_eq!(decide_cron_run(&CronNext::Next(Some(11)), 10), CronDecision::Wait);
    assert_eq!(decide_cron_run(&CronNext::Next(None), 10), CronDecision::Wait);
    assert_eq!(decide_cron_run(&CronNext::TimeOutOfRange, 10), CronDecision::InvalidLastRun);
    assert_eq!(decide_cron_run(&CronNext::InvalidExpression("e".to_owned()), 10), CronDecision::InvalidExpression);
}

#[test]
fn cron_jobs_against_the_library() {
    // every second: a job that last ran a second ago is due
    let now = 1_700_000_000_000;
    let (d, next) = check_cron_job("* * * * * *", Some(now - 1000), now);
    assert_eq!(d, CronDecision::Run);
    assert!(matches!(next, CronNext::Next(Some(t)) if t == now));
    // a job that never ran looks one second back
    let (d, _) = check_cron_job("* * * * * *", None, now);
    assert_eq!(d, CronDecision::Run);
    // yearly on Jan 1st at midnight: not due in mid November
    let (d, _) = check_cron_job("0 0 0 1 1 *", Some(now - 1000), now);
    assert_eq!(d, CronDecision::Wait);
    let (d, next) = check_cron_job("nonsense", None, now);
    assert_eq!(d, CronDecision::InvalidExpression);
    assert!(matches!(next, CronNext::InvalidExpression(_)));
    let (d, _) = check_cron_job("* * * * * *", Some(i64::MAX), now);
    assert_eq!(d, CronDecision::InvalidLastRun);
}

#[test]
fn migration_statements() {
    let up = drop_idx::Migration::up_statements();
    assert_eq!(up.len(), 5);
    assert_eq!(up[0], "DROP INDEX IF EXISTS \"idx-crontab-name\"");
    assert_eq!(up[4], "DROP INDEX IF EXISTS \"idx-kv-namespace\"");
    assert!(drop_idx::Migration::down_statements().is_empty());
    assert_eq!(
        drop_col::Migration::up_statements(DbBackend::Postgres),
        vec!["ALTER TABLE \"db_registry\" DROP COLUMN IF EXISTS \"db_connections\"".to_owned()]
    );
    assert_eq!(
        drop_col::Migration::up_statements(DbBackend::Sqlite),
        vec!["ALTER TABLE \"db_registry\" DROP COLUMN \"db_connections\"".to_owned()]
    );
    assert!(drop_col::Migration::up_statements(DbBackend::MySql).is_empty());
    assert_eq!(not_null::Migration::up_statements(DbBackend::Postgres).len(), 2);
    assert_eq!(
        not_null::Migration::up_statements(DbBackend::Sqlite),
        vec!["UPDATE \"static_file\" SET \"enable\" = true WHERE \"enable\" IS NULL".to_owned()]
    );
    let up = ensure_idx::Migration::up_statements();
    assert!(up[0].contains("CREATE INDEX IF NOT EXISTS \"idx-dynamic-uuid-timestamp\""));
    assert!(ensure_idx::Migration::down_statements()[0].contains("DROP INDEX IF EXISTS \"idx-static-uuid-timestamp\""));
}

#[test]
fn report_errors() {
    assert_eq!(AgentRpcImpl::report_error(&ReportFailure::DbUnavailable), (102, "DB not initialized".to_owned()));
    assert_eq!(
        AgentRpcImpl::report_error(&ReportFailure::ParseFailed("bad".to_owned())),
        (101, "Unable to parse json data: bad".to_owned())
    );
    assert_eq!(
        AgentRpcImpl::report_error(&ReportFailure::SerializeFailed("s".to_owned())),
        (101, "Serialization error: s".to_owned())
    );
    assert_eq!(
        AgentRpcImpl::report_error(&ReportFailure::InsertFailed("i".to_owned())),
        (103, "Database insert error: i".to_owned())
    );
}

#[test]
fn cron_start_in_last_representable_second_is_refused() {
    let now = 1_700_000_000_000_i64;
    let (d, next) = check_cron_job("* * * * * *", Some(8_210_266_876_799_500), now);
    assert_eq!(d, CronDecision::InvalidLastRun);
    assert!(matches!(next, CronNext::TimeOutOfRange));
    let (d, _) = check_cron_job("* * * * * *", Some(8_210_266_876_798_999), now);
    assert_eq!(d, CronDecision::Wait);
}

#[test]
fn uuid_text_forms() {
    let u = 0x550e8400e29b41d4a716446655440000_u128;
    assert_eq!(uuid_value("550e8400e29b41d4a716446655440000"), Some(u));
    assert_eq!(uuid_value("550E8400-E29B-41D4-A716-446655440000"), Some(u));
    assert_eq!(uuid_value("{550e8400-e29b-41d4-a716-446655440000}"), Some(u));
    assert_eq!(uuid_value("URN:uuid:550e8400-e29b-41d4-a716-446655440000"), Some(u));
    assert_eq!(uuid_value("550e8400-e29b-41d4-a716-44665544000g"), None);
    assert_eq!(uuid_value("550e8400e29b-41d4-a716-446655440000-"), None);
    assert_eq!(uuid_value("{550e8400e29b41d4a716446655440000}"), None);
    assert!(!is_valid_uuid(""));
    assert!(is_valid_uuid("00000000-0000-0000-0000-000000000000"));
}
