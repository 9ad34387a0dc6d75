use nodeget::kv_settings::{get_limit_millis, KvRecord};

fn record(entries: &[(&str, Option<i64>)]) -> KvRecord {
    KvRecord { kv: Some(entries.iter().map(|(k, v)| (k.to_string(), *v)).collect()) }
}

#[test]
fn limit_millis_found_by_key() {
    let r = record(&[("database_limit_task", Some(1000)), ("database_limit_crontab", Some(-5))]);
    assert_eq!(get_limit_millis(&r, "database_limit_task"), Some(1000));
    assert_eq!(get_limit_millis(&r, "database_limit_crontab"), Some(-5));
}

#[test]
fn limit_millis_absent_or_not_integer() {
    let r = record(&[("a", None), ("b", Some(3))]);
    assert_eq!(get_limit_millis(&r, "a"), None);
    assert_eq!(get_limit_millis(&r, "missing"), None);
    assert_eq!(get_limit_millis(&KvRecord { kv: None }, "b"), None);
}
