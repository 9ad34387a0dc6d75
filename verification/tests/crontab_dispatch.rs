use nodeget::crontab_dispatch::{collect_dispatch_results, dispatch_record, pair_task_ids, SendOutcome, TaskRow};
use uuid::Uuid;

fn make_model(id: i64, uuid: Uuid, token: &str) -> TaskRow {
    TaskRow { id, uuid: uuid.as_u128(), token: token.to_owned() }
}

#[test]
fn pair_task_ids_interleaved_non_contiguous_ids() {
    let u1 = Uuid::nil();
    let u2 = Uuid::from_u128(2);
    let u3 = Uuid::from_u128(3);
    let models = vec![make_model(100, u1, "t1"), make_model(102, u2, "t2"), make_model(104, u3, "t3")];

    let dispatch = pair_task_ids(&models);

    assert_eq!(dispatch.len(), 3);
    assert_eq!(dispatch[0], (100, u1.as_u128(), "t1".to_owned()));
    assert_eq!(dispatch[1], (102, u2.as_u128(), "t2".to_owned()));
    assert_eq!(dispatch[2], (104, u3.as_u128(), "t3".to_owned()));
}

#[test]
fn pair_task_ids_preserves_order() {
    let ids = [7_i64, 3, 12, 1, 9];
    let models: Vec<TaskRow> = ids
        .iter()
        .enumerate()
        .map(|(i, &id)| make_model(id, Uuid::from_u128(i as u128), &format!("tok{i}")))
        .collect();

    let dispatch = pair_task_ids(&models);

    assert_eq!(dispatch.iter().map(|(id, _, _)| *id).collect::<Vec<_>>(), vec![7_u64, 3, 12, 1, 9]);
    assert_eq!(
        dispatch.iter().map(|(_, _, t)| t.as_str()).collect::<Vec<_>>(),
        vec!["tok0", "tok1", "tok2", "tok3", "tok4"]
    );
}

#[test]
fn pair_task_ids_empty() {
    assert!(pair_task_ids(&[]).is_empty());
}

#[test]
fn pair_task_ids_single() {
    let uuid = Uuid::nil();
    let models = vec![make_model(42, uuid, "solo")];
    let dispatch = pair_task_ids(&models);
    assert_eq!(dispatch, vec![(42, uuid.as_u128(), "solo".to_owned())]);
}

#[test]
fn pair_task_ids_length_conservation() {
    for n in [1_usize, 2, 5, 50] {
        let models: Vec<TaskRow> = (0..n).map(|i| make_model(i as i64, Uuid::from_u128(i as u128), "x")).collect();
        assert_eq!(pair_task_ids(&models).len(), n);
    }
}

#[test]
fn pair_task_ids_negative_id_is_reinterpreted() {
    let models = vec![make_model(-1, Uuid::nil(), "n")];
    assert_eq!(pair_task_ids(&models)[0].0, u64::MAX);
}

#[test]
fn dispatch_record_success_message() {
    let o = SendOutcome { uuid: 2, task_id: 102, send_error: None, run_time: 1_700_000_000_000 };
    let r = dispatch_record(7, "nightly", &o);
    assert!(r.success);
    assert_eq!(r.cron_id, 7);
    assert_eq!(r.cron_name, "nightly");
    assert_eq!(r.relative_id, Some(102));
    assert_eq!(r.run_time, 1_700_000_000_000);
    assert_eq!(r.message, "任务下发成功，Agent：[00000000-0000-0000-0000-000000000002]，relative_id：102");
}

#[test]
fn dispatch_record_failure_message() {
    let o = SendOutcome { uuid: 0xa1a2a3a4b1b2c1c2d1d2d3d4d5d6d7d8, task_id: -5, send_error: Some("Uuid not found".to_owned()), run_time: 0 };
    let r = dispatch_record(1, "c", &o);
    assert!(!r.success);
    assert_eq!(r.relative_id, None);
    assert_eq!(r.message, "任务下发失败，Agent：[a1a2a3a4-b1b2-c1c2-d1d2-d3d4d5d6d7d8]，错误：Uuid not found");
}

#[test]
fn collect_dispatch_results_lists_failures_in_order() {
    let outcomes = vec![
        SendOutcome { uuid: 1, task_id: 10, send_error: None, run_time: 5 },
        SendOutcome { uuid: 2, task_id: 11, send_error: Some("Error sending event".to_owned()), run_time: 6 },
        SendOutcome { uuid: 3, task_id: 12, send_error: Some("Uuid not found".to_owned()), run_time: 9 },
    ];
    let (records, failed) = collect_dispatch_results(3, "job", &outcomes);
    assert_eq!(records.len(), 3);
    assert_eq!(failed, vec![11, 12]);
    assert!(records[0].success);
    assert!(!records[1].success);
    assert_eq!(records.iter().map(|r| r.run_time).collect::<Vec<_>>(), vec![5, 6, 9]);
    assert_eq!(records[2].message, "任务下发失败，Agent：[00000000-0000-0000-0000-000000000003]，错误：Uuid not found");
}
