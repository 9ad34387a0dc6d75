//! Bookkeeping of a crontab dispatch to agents: pairing inserted task rows
//! with their agents, and the result record of each send.
use vstd::prelude::*;
use crate::text::{decimal_text, push_decimal_i64, push_uuid, uuid_hyphenated};

verus! {

/// The columns of an inserted `task` row that a dispatch reads: the id the
/// database gave it, the target agent (by UUID value) and the task token.
#[derive(Debug)]
pub struct TaskRow {
    pub id: i64,
    pub uuid: u128,
    pub token: String,
}

/// An `i64` id reinterpreted as `u64` (two's complement).
pub open spec fn id_as_u64(id: i64) -> u64 {
    if id >= 0 { id as u64 } else { (id + 0x1_0000_0000_0000_0000int) as u64 }
}

/// The dispatch triple of each inserted task row, in the order the rows were
/// returned: its real id (no id is ever derived from another), its agent and
/// its token.
pub fn pair_task_ids(models: &[TaskRow]) -> (r: Vec<(u64, u128, String)>)
    ensures
        r@.len() == models@.len(),
        forall|i: int| 0 <= i < models@.len() ==> {
            &&& (#[trigger] r@[i]).0 == id_as_u64(models@[i].id)
            &&& r@[i].1 == models@[i].uuid
            &&& r@[i].2@ == models@[i].token@
        },
{
    let mut r: Vec<(u64, u128, String)> = Vec::new();
    let mut i: usize = 0;
    while i < models.len()
        invariant
            i <= models@.len(),
            r@.len() == i,
            forall|j: int| 0 <= j < i ==> {
                &&& (#[trigger] r@[j]).0 == id_as_u64(models@[j].id)
                &&& r@[j].1 == models@[j].uuid
                &&& r@[j].2@ == models@[j].token@
            },
        decreases models@.len() - i,
    {
        let m = &models[i];
        let id: u64 = if m.id >= 0 {
            m.id as u64
        } else {
            (m.id as i128 + 0x1_0000_0000_0000_0000i128) as u64
        };
        r.push((id, m.uuid, m.token.clone()));
        i = i + 1;
    }
    r
}

/// A row of `crontab_result` written for one agent of a dispatch.
#[derive(Debug)]
pub struct CrontabResultRecord {
    pub cron_id: i64,
    pub cron_name: String,
    /// The task id when the task reached the agent.
    pub relative_id: Option<i64>,
    pub run_time: i64,
    pub success: bool,
    pub message: String,
}

/// Message of a task that reached its agent.
pub open spec fn dispatch_success_text(uuid: u128, task_id: i64) -> Seq<char> {
    "任务下发成功，Agent：["@ + uuid_hyphenated(uuid) + "]，relative_id："@ + decimal_text(task_id as int)
}

/// Message of a task that could not be sent to its agent.
pub open spec fn dispatch_failure_text(uuid: u128, error: Seq<char>) -> Seq<char> {
    "任务下发失败，Agent：["@ + uuid_hyphenated(uuid) + "]，错误："@ + error
}

/// The outcome of sending the task `task_id` to the agent `uuid`:
/// `send_error` is `None` when the task reached the agent; `run_time` is
/// when the outcome was known (milliseconds since the epoch).
#[derive(Debug)]
pub struct SendOutcome {
    pub uuid: u128,
    pub task_id: i64,
    pub send_error: Option<String>,
    pub run_time: i64,
}

/// The result record of one send, stamped with the time of its outcome.
pub fn dispatch_record(cron_id: i64, cron_name: &str, outcome: &SendOutcome) -> (r: CrontabResultRecord)
    ensures
        r.cron_id == cron_id,
        r.cron_name@ == cron_name@,
        r.run_time == outcome.run_time,
        r.success == (outcome.send_error is None),
        r.relative_id == (if outcome.send_error is None { Some(outcome.task_id) } else { None::<i64> }),
        r.message@ == (match outcome.send_error {
            None => dispatch_success_text(outcome.uuid, outcome.task_id),
            Some(e) => dispatch_failure_text(outcome.uuid, e@),
        }),
{
    let mut message = String::new();
    match &outcome.send_error {
        None => {
            message.append("任务下发成功，Agent：[");
            push_uuid(&mut message, outcome.uuid);
            message.append("]，relative_id：");
            push_decimal_i64(&mut message, outcome.task_id);
            assert(message@ =~= dispatch_success_text(outcome.uuid, outcome.task_id));
            CrontabResultRecord {
                cron_id,
                cron_name: cron_name.to_string(),
                relative_id: Some(outcome.task_id),
                run_time: outcome.run_time,
                success: true,
                message,
            }
        },
        Some(e) => {
            message.append("任务下发失败，Agent：[");
            push_uuid(&mut message, outcome.uuid);
            message.append("]，错误：");
            message.append(e.as_str());
            assert(message@ =~= dispatch_failure_text(outcome.uuid, e@));
            CrontabResultRecord {
                cron_id,
                cron_name: cron_name.to_string(),
                relative_id: None,
                run_time: outcome.run_time,
                success: false,
                message,
            }
        },
    }
}

/// The result records of a dispatch, one per outcome in the given order, and
/// the ids of the tasks that were not sent (their rows are to be deleted).
pub fn collect_dispatch_results(cron_id: i64, cron_name: &str, outcomes: &[SendOutcome]) -> (r: (
    Vec<CrontabResultRecord>,
    Vec<i64>,
))
    ensures
        r.0@.len() == outcomes@.len(),
        forall|i: int| 0 <= i < outcomes@.len() ==> {
            let rec = #[trigger] r.0@[i];
            let o = outcomes@[i];
            &&& rec.cron_id == cron_id
            &&& rec.cron_name@ == cron_name@
            &&& rec.run_time == o.run_time
            &&& rec.success == (o.send_error is None)
            &&& rec.relative_id == (if o.send_error is None { Some(o.task_id) } else { None::<i64> })
            &&& rec.message@ == (match o.send_error {
                None => dispatch_success_text(o.uuid, o.task_id),
                Some(e) => dispatch_failure_text(o.uuid, e@),
            })
        },
        r.1@ == failed_task_ids(outcomes@),
{
    let mut records: Vec<CrontabResultRecord> = Vec::new();
    let mut failed: Vec<i64> = Vec::new();
    let mut i: usize = 0;
    while i < outcomes.len()
        invariant
            i <= outcomes@.len(),
            records@.len() == i,
            forall|j: int| 0 <= j < i ==> {
                let rec = #[trigger] records@[j];
                let o = outcomes@[j];
                &&& rec.cron_id == cron_id
                &&& rec.cron_name@ == cron_name@
                &&& rec.run_time == o.run_time
                &&& rec.success == (o.send_error is None)
                &&& rec.relative_id == (if o.send_error is None { Some(o.task_id) } else { None::<i64> })
                &&& rec.message@ == (match o.send_error {
                    None => dispatch_success_text(o.uuid, o.task_id),
                    Some(e) => dispatch_failure_text(o.uuid, e@),
                })
            },
            failed@ == failed_task_ids(outcomes@.take(i as int)),
        decreases outcomes@.len() - i,
    {
        let o = &outcomes[i];
        let rec = dispatch_record(cron_id, cron_name, o);
        records.push(rec);
        assert(outcomes@.take(i + 1).drop_last() =~= outcomes@.take(i as int));
        if o.send_error.is_some() {
            failed.push(o.task_id);
        }
        i = i + 1;
    }
    assert(outcomes@.take(outcomes@.len() as int) =~= outcomes@);
    (records, failed)
}

/// Ids of the tasks whose send failed, in order.
pub open spec fn failed_task_ids(outcomes: Seq<SendOutcome>) -> Seq<i64>
    decreases outcomes.len(),
{
    if outcomes.len() == 0 {
        Seq::empty()
    } else {
        let prev = failed_task_ids(outcomes.drop_last());
        if outcomes.last().send_error is Some { prev.push(outcomes.last().task_id) } else { prev }
    }
}

/// Law: the message of a sent task says the dispatch succeeded and names the
/// agent and the task id; that of a failed one says it failed and names the
/// agent and the reason.
pub proof fn law_dispatch_messages(uuid: u128, task_id: i64, error: Seq<char>)
    ensures
        dispatch_success_text(uuid, task_id).take(4) == "任务下发"@ && dispatch_success_text(uuid, task_id).subrange(4, 6) == "成功"@,
        dispatch_failure_text(uuid, error).take(4) == "任务下发"@ && dispatch_failure_text(uuid, error).subrange(4, 6) == "失败"@,
        dispatch_success_text(uuid, task_id).subrange(14, 50) == uuid_hyphenated(uuid),
        dispatch_failure_text(uuid, error).subrange(14, 50) == uuid_hyphenated(uuid),
        dispatch_failure_text(uuid, error).skip(55) == error,
{
    reveal_strlit("任务下发成功，Agent：[");
    reveal_strlit("任务下发失败，Agent：[");
    reveal_strlit("]，relative_id：");
    reveal_strlit("]，错误：");
    reveal_strlit("任务下发");
    reveal_strlit("成功");
    reveal_strlit("失败");
    assert(dispatch_success_text(uuid, task_id).take(4) =~= "任务下发"@);
    assert(dispatch_success_text(uuid, task_id).subrange(4, 6) =~= "成功"@);
    assert(dispatch_failure_text(uuid, error).take(4) =~= "任务下发"@);
    assert(dispatch_failure_text(uuid, error).subrange(4, 6) =~= "失败"@);
    assert(dispatch_success_text(uuid, task_id).subrange(14, 50) =~= uuid_hyphenated(uuid));
    assert(dispatch_failure_text(uuid, error).subrange(14, 50) =~= uuid_hyphenated(uuid));
    assert(dispatch_failure_text(uuid, error).skip(55) =~= error);
}

/// Law: each task row's dispatch id is its own database id read as unsigned:
/// distinct rows never share a dispatch id, a non-negative id is unchanged,
/// and reading it back as signed gives the row's id.
pub proof fn law_dispatch_ids_are_row_ids(a: i64, b: i64)
    ensures
        a != b ==> id_as_u64(a) != id_as_u64(b),
        a >= 0 ==> id_as_u64(a) as int == a as int,
        (if id_as_u64(a) <= i64::MAX { id_as_u64(a) as int } else { id_as_u64(a) as int - 0x1_0000_0000_0000_0000int }) == a as int,
{
}

} // verus!
