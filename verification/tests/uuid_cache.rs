use nodeget::error::NodegetError;
use nodeget::uuid_cache::{try_id_i16, CacheDbEvent, GetOrInsertStep, MonitoringUuidCache, MonitoringUuidRow, SoftDeleteStep};

fn row(id: i32, uuid: u128, soft_delete: bool) -> MonitoringUuidRow {
    MonitoringUuidRow { id, uuid, soft_delete }
}

fn db_message(step: &GetOrInsertStep) -> String {
    match step {
        GetOrInsertStep::Done(Err(NodegetError::DatabaseError(m))) => m.clone(),
        other => panic!("not a database error: {other:?}"),
    }
}

#[test]
fn try_id_i16_bounds() {
    assert_eq!(try_id_i16(0), Some(0));
    assert_eq!(try_id_i16(32767), Some(32767));
    assert_eq!(try_id_i16(-32768), Some(-32768));
    assert_eq!(try_id_i16(32768), None);
    assert_eq!(try_id_i16(-32769), None);
}

#[test]
fn build_cache_skips_out_of_range_ids() {
    let c = MonitoringUuidCache::build_cache(vec![row(1, 10, false), row(40000, 20, false), row(2, 30, true)]);
    assert_eq!(c.get_id(10), Some(1));
    assert_eq!(c.get_id(20), None);
    assert_eq!(c.get_uuid(2), Some(30));
    assert!(c.uuid_exists(30));
    assert!(!c.is_active(30));
    assert!(c.is_active(10));
}

#[test]
fn list_all_sorted_and_without_soft_deleted() {
    let c = MonitoringUuidCache::build_cache(vec![row(1, 50, false), row(2, 7, true), row(3, 9, false), row(4, 1, false)]);
    assert_eq!(c.list_all(), vec![1, 9, 50]);
    assert_eq!(c.list_all_with_agent_mode(), vec![(1, false), (7, true), (9, false), (50, false)]);
}

#[test]
fn reload_replaces_content() {
    let mut c = MonitoringUuidCache::build_cache(vec![row(1, 50, false)]);
    c.reload_from_models(vec![row(2, 60, false)]);
    assert_eq!(c.get_id(50), None);
    assert_eq!(c.get_id(60), Some(2));
}

#[test]
fn get_or_insert_cache_hit() {
    let c = MonitoringUuidCache::build_cache(vec![row(5, 77, false)]);
    assert!(matches!(c.get_or_insert_start(77), GetOrInsertStep::Done(Ok(5))));
}

#[test]
fn get_or_insert_resurrects_soft_deleted_row() {
    let mut c = MonitoringUuidCache::build_cache(vec![row(5, 77, true)]);
    let s = c.get_or_insert_start(77);
    assert!(matches!(s, GetOrInsertStep::QueryRow));
    let s = c.get_or_insert_step(77, s, CacheDbEvent::RowFound(row(5, 77, true)));
    assert!(matches!(s, GetOrInsertStep::Resurrect(_)));
    let s = c.get_or_insert_step(77, s, CacheDbEvent::Updated);
    assert!(matches!(s, GetOrInsertStep::Done(Ok(5))));
    assert!(c.is_active(77));
    assert_eq!(c.get_uuid(5), Some(77));
}

#[test]
fn get_or_insert_inserts_new_row() {
    let mut c = MonitoringUuidCache::new();
    let s = c.get_or_insert_start(9);
    let s = c.get_or_insert_step(9, s, CacheDbEvent::RowMissing);
    assert!(matches!(s, GetOrInsertStep::InsertRow));
    let s = c.get_or_insert_step(9, s, CacheDbEvent::Inserted(12));
    assert!(matches!(s, GetOrInsertStep::Done(Ok(12))));
    assert_eq!(c.get_id(9), Some(12));
    assert_eq!(c.list_all(), vec![9]);
}

#[test]
fn get_or_insert_conflict_path() {
    let mut c = MonitoringUuidCache::new();
    let s = c.get_or_insert_step(9, GetOrInsertStep::InsertRow, CacheDbEvent::InsertConflict("dup".to_owned()));
    assert!(matches!(s, GetOrInsertStep::RequeryAfterConflict(_)));
    let s2 = c.get_or_insert_step(9, s, CacheDbEvent::RowMissing);
    assert_eq!(db_message(&s2), "monitoring_uuid insert conflicted but row not found: dup");
    let s = c.get_or_insert_step(9, GetOrInsertStep::RequeryAfterConflict("dup".to_owned()), CacheDbEvent::RowFound(row(3, 9, true)));
    assert!(matches!(s, GetOrInsertStep::ResurrectAfterConflict(_)));
    let s = c.get_or_insert_step(9, s, CacheDbEvent::Updated);
    assert!(matches!(s, GetOrInsertStep::Done(Ok(3))));
    assert!(c.is_active(9));
}

#[test]
fn get_or_insert_errors() {
    let mut c = MonitoringUuidCache::new();
    let s = c.get_or_insert_step(2, GetOrInsertStep::QueryRow, CacheDbEvent::DbUnavailable);
    assert_eq!(db_message(&s), "Database connection not initialized");
    let s = c.get_or_insert_step(2, GetOrInsertStep::QueryRow, CacheDbEvent::QueryFailed("boom".to_owned()));
    assert_eq!(db_message(&s), "Failed to query monitoring_uuid: boom");
    let s = c.get_or_insert_step(2, GetOrInsertStep::QueryRow, CacheDbEvent::RowFound(row(70000, 2, false)));
    assert_eq!(
        db_message(&s),
        "monitoring_uuid id 70000 for 00000000-0000-0000-0000-000000000002 exceeds i16 range; migrate uuid_id columns to i32"
    );
    let s = c.get_or_insert_step(2, GetOrInsertStep::InsertRow, CacheDbEvent::Inserted(-40000));
    assert_eq!(
        db_message(&s),
        "monitoring_uuid id for 00000000-0000-0000-0000-000000000002 exceeds i16 range after insert/conflict; migrate uuid_id columns to i32"
    );
    let s = c.get_or_insert_step(2, GetOrInsertStep::InsertRow, CacheDbEvent::InsertFailed("x".to_owned()));
    assert_eq!(db_message(&s), "Failed to insert monitoring_uuid: x");
    let s = c.get_or_insert_step(2, GetOrInsertStep::Resurrect(row(1, 2, true)), CacheDbEvent::UpdateFailed("u".to_owned()));
    assert_eq!(db_message(&s), "Failed to resurrect monitoring_uuid: u");
    let s = c.get_or_insert_step(2, GetOrInsertStep::RequeryAfterConflict("c".to_owned()), CacheDbEvent::QueryFailed("q".to_owned()));
    assert_eq!(db_message(&s), "Failed to query monitoring_uuid after unique conflict: q");
    let s = c.get_or_insert_step(2, GetOrInsertStep::ResurrectAfterConflict(row(1, 2, true)), CacheDbEvent::UpdateFailed("u".to_owned()));
    assert_eq!(db_message(&s), "Failed to resurrect monitoring_uuid after conflict: u");
    assert_eq!(c.get_id(2), None);
}

#[test]
fn get_or_insert_ignores_unrelated_event() {
    let mut c = MonitoringUuidCache::new();
    let s = c.get_or_insert_step(2, GetOrInsertStep::QueryRow, CacheDbEvent::Updated);
    assert!(matches!(s, GetOrInsertStep::QueryRow));
    assert!(!c.uuid_exists(2));
}

#[test]
fn soft_delete_paths() {
    let mut c = MonitoringUuidCache::build_cache(vec![row(4, 40, false)]);
    let s = c.soft_delete_start(40);
    let s = c.soft_delete_step(40, s, CacheDbEvent::RowFound(row(4, 40, false)));
    assert!(matches!(s, SoftDeleteStep::MarkDeleted(_)));
    let s = c.soft_delete_step(40, s, CacheDbEvent::Updated);
    assert!(matches!(s, SoftDeleteStep::Done(Ok(true))));
    assert!(!c.is_active(40));
    assert!(c.uuid_exists(40));
    assert!(c.list_all().is_empty());

    let s = c.soft_delete_step(41, SoftDeleteStep::QueryRow, CacheDbEvent::RowMissing);
    assert!(matches!(s, SoftDeleteStep::Done(Ok(false))));
    let s = c.soft_delete_step(40, SoftDeleteStep::QueryRow, CacheDbEvent::RowFound(row(4, 40, true)));
    assert!(matches!(s, SoftDeleteStep::Done(Ok(true))));
    let s = c.soft_delete_step(40, SoftDeleteStep::QueryRow, CacheDbEvent::QueryFailed("e".to_owned()));
    match s {
        SoftDeleteStep::Done(Err(NodegetError::DatabaseError(m))) => {
            assert_eq!(m, "Failed to query monitoring_uuid for soft_delete: e")
        }
        other => panic!("unexpected {other:?}"),
    }
    let s = c.soft_delete_step(40, SoftDeleteStep::MarkDeleted(row(4, 40, false)), CacheDbEvent::UpdateFailed("w".to_owned()));
    match s {
        SoftDeleteStep::Done(Err(NodegetError::DatabaseError(m))) => assert_eq!(m, "Failed to soft_delete monitoring_uuid: w"),
        other => panic!("unexpected {other:?}"),
    }
}

#[test]
fn read_after_record_law_on_values() {
    let mut c = MonitoringUuidCache::new();
    let s = c.get_or_insert_step(123, GetOrInsertStep::QueryRow, CacheDbEvent::RowFound(row(8, 123, false)));
    assert!(matches!(s, GetOrInsertStep::Done(Ok(8))));
    assert_eq!(c.get_id(123), Some(8));
    assert_eq!(c.get_uuid(8), Some(123));
    assert!(c.is_active(123));
}

#[test]
fn soft_delete_then_get_or_insert_gives_same_id() {
    let mut c = MonitoringUuidCache::build_cache(vec![MonitoringUuidRow { id: 9, uuid: 77, soft_delete: false }]);
    let step = c.soft_delete_start(77);
    let step = c.soft_delete_step(77, step, CacheDbEvent::RowFound(MonitoringUuidRow { id: 9, uuid: 77, soft_delete: false }));
    let step = c.soft_delete_step(77, step, CacheDbEvent::Updated);
    assert!(matches!(step, SoftDeleteStep::Done(Ok(true))));
    assert!(!c.is_active(77));
    let step = c.get_or_insert_start(77);
    assert!(matches!(step, GetOrInsertStep::QueryRow));
    let step = c.get_or_insert_step(77, step, CacheDbEvent::RowFound(MonitoringUuidRow { id: 9, uuid: 77, soft_delete: true }));
    let step = c.get_or_insert_step(77, step, CacheDbEvent::Updated);
    assert!(matches!(step, GetOrInsertStep::Done(Ok(9))));
    assert!(c.is_active(77));
    assert_eq!(c.get_uuid(9), Some(77));
    assert_eq!(c.list_all(), vec![77]);
}

#[test]
fn concurrent_first_registrations_agree() {
    let mut winner = MonitoringUuidCache::new();
    let mut loser = MonitoringUuidCache::new();
    let s = winner.get_or_insert_step(5, GetOrInsertStep::QueryRow, CacheDbEvent::RowMissing);
    let s = winner.get_or_insert_step(5, s, CacheDbEvent::Inserted(3));
    assert!(matches!(s, GetOrInsertStep::Done(Ok(3))));
    let s = loser.get_or_insert_step(5, GetOrInsertStep::QueryRow, CacheDbEvent::RowMissing);
    let s = loser.get_or_insert_step(5, s, CacheDbEvent::InsertConflict("UNIQUE".to_owned()));
    let s = loser.get_or_insert_step(5, s, CacheDbEvent::RowFound(MonitoringUuidRow { id: 3, uuid: 5, soft_delete: false }));
    assert!(matches!(s, GetOrInsertStep::Done(Ok(3))));
    assert_eq!(loser.get_id(5), Some(3));
}
