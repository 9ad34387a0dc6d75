//! When a crontab job is due: its cron expression, its last run and the
//! current time decide.
use vstd::prelude::*;
use chrono::TimeZone;
use std::str::FromStr;

verus! {

/// What the cron library answers for an expression and a start time.
#[derive(Debug)]
pub enum CronNext {
    /// The expression does not parse; the parser's message.
    InvalidExpression(String),
    /// The start time (milliseconds since the epoch) is not a representable date.
    TimeOutOfRange,
    /// The first scheduled time after the start, in milliseconds, if any.
    Next(Option<i64>),
}

/// `CronNext` with its message taken by value.
pub enum CronNextView {
    InvalidExpression(Seq<char>),
    TimeOutOfRange,
    Next(Option<int>),
}

impl View for CronNext {
    type V = CronNextView;

    open spec fn view(&self) -> CronNextView {
        match self {
            CronNext::InvalidExpression(m) => CronNextView::InvalidExpression(m@),
            CronNext::TimeOutOfRange => CronNextView::TimeOutOfRange,
            CronNext::Next(t) => CronNextView::Next(match t { Some(x) => Some(*x as int), None => None }),
        }
    }
}

/// The cron library's answer for `expression` (a standard cron expression with
/// seconds) and a start time in milliseconds since the epoch (UTC).
pub uninterp spec fn cron_next_after(expression: Seq<char>, after_millis: int) -> CronNextView;

/// Start times from here on lie in the last second that chrono can represent
/// (December 31, 262142, 23:59:59 UTC): the cron crate adds one second to the
/// start before searching, and that addition panics there.
pub const CRON_START_LIMIT_MILLIS: i64 = 8_210_266_876_799_000;

/// Parses `expression` with the `cron` crate and asks for the first
/// scheduled time after `after_millis` (UTC).
///
/// Trusted: calls `cron::Schedule::from_str` and `Schedule::after(..).next()`,
/// converting the start time with chrono's `Utc.timestamp_millis_opt` and the
/// answer with `timestamp_millis`. The contract only names the answer
/// (`cron_next_after`, a function of the expression and the start time);
/// what the schedule grammar accepts and which time comes next is not
/// stated. Start times in chrono's last representable second are excluded:
/// `Schedule::after(..).next()` computes `start + 1 second`, which panics
/// there.
#[verifier::external_body]
fn cron_next_run(expression: &str, after_millis: i64) -> (r: CronNext)
    requires
        after_millis < CRON_START_LIMIT_MILLIS,
    ensures
        r@ == cron_next_after(expression@, after_millis as int),
{
    let schedule = match cron::Schedule::from_str(expression) {
        Ok(s) => s,
        Err(e) => return CronNext::InvalidExpression(e.to_string()),
    };
    match chrono::Utc.timestamp_millis_opt(after_millis).single() {
        None => CronNext::TimeOutOfRange,
        Some(after) => match schedule.after(&after).next() {
            Some(t) => CronNext::Next(Some(t.timestamp_millis())),
            None => CronNext::Next(None),
        },
    }
}

/// The time after which the next run is looked for: the last run, or one
/// second before now for a job that never ran.
pub open spec fn schedule_start_millis(last_run_time: Option<i64>, now_millis: int) -> int {
    match last_run_time {
        Some(t) => t as int,
        None => now_millis - 1000,
    }
}

/// The decision about one crontab job at one tick.
#[derive(Debug, PartialEq, Eq, Structural)]
pub enum CronDecision {
    /// The expression is invalid: the job is skipped.
    InvalidExpression,
    /// The last run time is not a representable date: the job is skipped.
    InvalidLastRun,
    /// A scheduled time has come: run the job now and record `now` as its last run.
    Run,
    /// Nothing is due.
    Wait,
}

/// The decision for a library answer `next` at `now_millis`: run when the
/// next scheduled time is not after now.
pub open spec fn cron_decision(next: CronNextView, now_millis: int) -> CronDecision {
    match next {
        CronNextView::InvalidExpression(_) => CronDecision::InvalidExpression,
        CronNextView::TimeOutOfRange => CronDecision::InvalidLastRun,
        CronNextView::Next(Some(t)) => if t <= now_millis { CronDecision::Run } else { CronDecision::Wait },
        CronNextView::Next(None) => CronDecision::Wait,
    }
}

/// The decision for the answer `next` of the cron library at `now_millis`.
pub fn decide_cron_run(next: &CronNext, now_millis: i64) -> (r: CronDecision)
    ensures
        r == cron_decision(next@, now_millis as int),
{
    match next {
        CronNext::InvalidExpression(_) => CronDecision::InvalidExpression,
        CronNext::TimeOutOfRange => CronDecision::InvalidLastRun,
        CronNext::Next(Some(t)) => if *t <= now_millis { CronDecision::Run } else { CronDecision::Wait },
        CronNext::Next(None) => CronDecision::Wait,
    }
}

/// Whether the job with `expression` and `last_run_time` is due at
/// `now_millis`, together with the library's answer. A start time in the
/// last second chrono can represent is refused as an invalid last run
/// (`TimeOutOfRange`) without asking the library.
pub fn check_cron_job(expression: &str, last_run_time: Option<i64>, now_millis: i64) -> (r: (CronDecision, CronNext))
    requires
        now_millis >= i64::MIN + 1000,
    ensures
        schedule_start_millis(last_run_time, now_millis as int) >= CRON_START_LIMIT_MILLIS ==>
            r.0 == CronDecision::InvalidLastRun && r.1 is TimeOutOfRange,
        schedule_start_millis(last_run_time, now_millis as int) < CRON_START_LIMIT_MILLIS ==>
            r.1@ == cron_next_after(expression@, schedule_start_millis(last_run_time, now_millis as int)),
        r.0 == cron_decision(r.1@, now_millis as int),
{
    let start = match last_run_time {
        Some(t) => t,
        None => now_millis - 1000,
    };
    if start >= CRON_START_LIMIT_MILLIS {
        return (CronDecision::InvalidLastRun, CronNext::TimeOutOfRange);
    }
    let next = cron_next_run(expression, start);
    let decision = decide_cron_run(&next, now_millis);
    (decision, next)
}

/// Law: the schedule search of a job that ran starts at its last run; that
/// of a job that never ran starts exactly one second before now, so such a
/// job is due only when a scheduled time falls within the last second
/// (a new yearly job does not fire at once).
pub proof fn law_schedule_search_start(last_run: i64, now_millis: int)
    ensures
        schedule_start_millis(Some(last_run), now_millis) == last_run,
        now_millis - schedule_start_millis(None, now_millis) == 1000,
{
}

/// Law: a job runs exactly when the library's next time is not after now: a
/// time equal to now is due, one millisecond later is not, and an invalid
/// expression, an unrepresentable start or an exhausted schedule never run.
pub proof fn law_run_decision(t: int, now_millis: int, m: Seq<char>)
    ensures
        cron_decision(CronNextView::Next(Some(now_millis)), now_millis) == CronDecision::Run,
        t < now_millis ==> cron_decision(CronNextView::Next(Some(t)), now_millis) == CronDecision::Run,
        cron_decision(CronNextView::Next(Some(now_millis + 1)), now_millis) == CronDecision::Wait,
        t > now_millis ==> cron_decision(CronNextView::Next(Some(t)), now_millis) == CronDecision::Wait,
        cron_decision(CronNextView::Next(None), now_millis) != CronDecision::Run,
        cron_decision(CronNextView::InvalidExpression(m), now_millis) != CronDecision::Run,
        cron_decision(CronNextView::TimeOutOfRange, now_millis) != CronDecision::Run,
{
}

} // verus!
