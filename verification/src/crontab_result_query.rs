//! Planning of a `crontab-result` query: which filters apply, which cron
//! names need a read permission, and how many rows are returned.
use vstd::prelude::*;

verus! {

/// One condition of a crontab result query.
#[derive(Debug)]
pub enum CrontabResultQueryCondition {
    Id(i64),
    CronId(i64),
    CronName(String),
    RunTimeFromTo(i64, i64),
    RunTimeFrom(i64),
    RunTimeTo(i64),
    IsSuccess,
    IsFailure,
    Limit(u64),
    Last,
}

/// A row filter of the planned query (all filters must hold).
#[derive(Debug)]
pub enum CrontabResultFilter {
    Id(i64),
    CronId(i64),
    CronName(String),
    /// `from <= run_time <= to`.
    RunTimeBetween(i64, i64),
    RunTimeFrom(i64),
    RunTimeTo(i64),
    /// `success == value`.
    Success(bool),
}

/// The planned query: rows matching every filter, newest `run_time` first,
/// at most `limit` of them, after a read permission check for each name of
/// `permission_names`.
#[derive(Debug)]
pub struct CrontabResultQueryPlan {
    pub filters: Vec<CrontabResultFilter>,
    pub permission_names: Vec<String>,
    pub limit: u64,
}

/// Rows returned when a query sets neither `Limit` nor `Last`.
pub const DEFAULT_CRONTAB_RESULT_LIMIT: u64 = 1000;

/// The filter a condition contributes, if any (`Limit` and `Last` shape the
/// result instead).
pub open spec fn condition_filter(c: CrontabResultQueryCondition) -> Option<CrontabResultFilter> {
    match c {
        CrontabResultQueryCondition::Id(id) => Some(CrontabResultFilter::Id(id)),
        CrontabResultQueryCondition::CronId(id) => Some(CrontabResultFilter::CronId(id)),
        CrontabResultQueryCondition::CronName(n) => Some(CrontabResultFilter::CronName(n)),
        CrontabResultQueryCondition::RunTimeFromTo(a, b) => Some(CrontabResultFilter::RunTimeBetween(a, b)),
        CrontabResultQueryCondition::RunTimeFrom(a) => Some(CrontabResultFilter::RunTimeFrom(a)),
        CrontabResultQueryCondition::RunTimeTo(b) => Some(CrontabResultFilter::RunTimeTo(b)),
        CrontabResultQueryCondition::IsSuccess => Some(CrontabResultFilter::Success(true)),
        CrontabResultQueryCondition::IsFailure => Some(CrontabResultFilter::Success(false)),
        CrontabResultQueryCondition::Limit(_) => None,
        CrontabResultQueryCondition::Last => None,
    }
}

/// A filter, with its cron name taken by value.
pub open spec fn filter_view(f: CrontabResultFilter) -> (int, int, int, Seq<char>) {
    match f {
        CrontabResultFilter::Id(id) => (0, id as int, 0, Seq::empty()),
        CrontabResultFilter::CronId(id) => (1, id as int, 0, Seq::empty()),
        CrontabResultFilter::CronName(n) => (2, 0, 0, n@),
        CrontabResultFilter::RunTimeBetween(a, b) => (3, a as int, b as int, Seq::empty()),
        CrontabResultFilter::RunTimeFrom(a) => (4, a as int, 0, Seq::empty()),
        CrontabResultFilter::RunTimeTo(b) => (5, b as int, 0, Seq::empty()),
        CrontabResultFilter::Success(v) => (6, if v { 1int } else { 0int }, 0, Seq::empty()),
    }
}

/// The filters of the conditions, in order.
pub open spec fn condition_filters(cs: Seq<CrontabResultQueryCondition>) -> Seq<(int, int, int, Seq<char>)>
    decreases cs.len(),
{
    if cs.len() == 0 {
        Seq::empty()
    } else {
        let prev = condition_filters(cs.drop_last());
        match condition_filter(cs.last()) {
            Some(f) => prev.push(filter_view(f)),
            None => prev,
        }
    }
}

/// The distinct cron names of the conditions, in order of first appearance.
pub open spec fn condition_cron_names(cs: Seq<CrontabResultQueryCondition>) -> Seq<Seq<char>>
    decreases cs.len(),
{
    if cs.len() == 0 {
        Seq::empty()
    } else {
        let prev = condition_cron_names(cs.drop_last());
        match cs.last() {
            CrontabResultQueryCondition::CronName(n) => if prev.contains(n@) { prev } else { prev.push(n@) },
            _ => prev,
        }
    }
}

/// Whether some condition is `Last`.
pub open spec fn has_last(cs: Seq<CrontabResultQueryCondition>) -> bool {
    exists|i: int| 0 <= i < cs.len() && cs[i] is Last
}

/// The value of the last `Limit` condition, if any.
pub open spec fn last_limit(cs: Seq<CrontabResultQueryCondition>) -> Option<u64>
    decreases cs.len(),
{
    if cs.len() == 0 {
        None
    } else {
        match cs.last() {
            CrontabResultQueryCondition::Limit(n) => Some(n),
            _ => last_limit(cs.drop_last()),
        }
    }
}

/// The number of rows a query returns: one for `Last`; else the last `Limit`
/// capped at `max_query_limit`; else the default.
pub open spec fn planned_limit(cs: Seq<CrontabResultQueryCondition>, max_query_limit: u64) -> u64 {
    if has_last(cs) {
        1
    } else {
        match last_limit(cs) {
            Some(n) => if n < max_query_limit { n } else { max_query_limit },
            None => DEFAULT_CRONTAB_RESULT_LIMIT,
        }
    }
}

fn copy_condition_filter(c: &CrontabResultQueryCondition) -> (r: Option<CrontabResultFilter>)
    ensures
        match condition_filter(*c) {
            Some(f) => r is Some && filter_view(r->0) == filter_view(f),
            None => r is None,
        },
{
    match c {
        CrontabResultQueryCondition::Id(id) => Some(CrontabResultFilter::Id(*id)),
        CrontabResultQueryCondition::CronId(id) => Some(CrontabResultFilter::CronId(*id)),
        CrontabResultQueryCondition::CronName(n) => Some(CrontabResultFilter::CronName(n.clone())),
        CrontabResultQueryCondition::RunTimeFromTo(a, b) => Some(CrontabResultFilter::RunTimeBetween(*a, *b)),
        CrontabResultQueryCondition::RunTimeFrom(a) => Some(CrontabResultFilter::RunTimeFrom(*a)),
        CrontabResultQueryCondition::RunTimeTo(b) => Some(CrontabResultFilter::RunTimeTo(*b)),
        CrontabResultQueryCondition::IsSuccess => Some(CrontabResultFilter::Success(true)),
        CrontabResultQueryCondition::IsFailure => Some(CrontabResultFilter::Success(false)),
        CrontabResultQueryCondition::Limit(_) => None,
        CrontabResultQueryCondition::Last => None,
    }
}

fn contains_name(names: &Vec<String>, name: &String) -> (r: bool)
    ensures
        r == names@.map_values(|s: String| s@).contains(name@),
{
    let mut i: usize = 0;
    while i < names.len()
        invariant
            i <= names@.len(),
            forall|j: int| 0 <= j < i ==> names@[j]@ != name@,
        decreases names@.len() - i,
    {
        if names[i] == *name {
            assert(names@.map_values(|s: String| s@)[i as int] == name@);
            return true;
        }
        i = i + 1;
    }
    proof {
        if names@.map_values(|s: String| s@).contains(name@) {
            let mapped = names@.map_values(|s: String| s@);
            let j = choose|j: int| 0 <= j < mapped.len() && #[trigger] mapped[j] == name@;
            assert(names@[j]@ == name@);
        }
    }
    false
}

/// Plans a crontab result query (see `CrontabResultQueryPlan`). Every
/// distinct cron name of the conditions needs a read permission; without
/// any, the permission on all names (`"*"`) is needed.
pub fn plan_crontab_result_query(conditions: &[CrontabResultQueryCondition], max_query_limit: u64) -> (r: CrontabResultQueryPlan)
    ensures
        r.filters@.map_values(|f: CrontabResultFilter| filter_view(f)) == condition_filters(conditions@),
        r.permission_names@.map_values(|s: String| s@) == (if condition_cron_names(conditions@).len() == 0 {
            seq!["*"@]
        } else {
            condition_cron_names(conditions@)
        }),
        r.limit == planned_limit(conditions@, max_query_limit),
{
    let mut filters: Vec<CrontabResultFilter> = Vec::new();
    let mut names: Vec<String> = Vec::new();
    let mut is_last = false;
    let mut limit_count: Option<u64> = None;
    let mut i: usize = 0;
    while i < conditions.len()
        invariant
            i <= conditions@.len(),
            filters@.map_values(|f: CrontabResultFilter| filter_view(f)) == condition_filters(conditions@.take(i as int)),
            names@.map_values(|s: String| s@) == condition_cron_names(conditions@.take(i as int)),
            is_last == has_last(conditions@.take(i as int)),
            limit_count == last_limit(conditions@.take(i as int)),
        decreases conditions@.len() - i,
    {
        let c = &conditions[i];
        let ghost prev = conditions@.take(i as int);
        let ghost cur = conditions@.take(i + 1);
        assert(cur.drop_last() =~= prev);
        assert(cur.last() == *c);
        match copy_condition_filter(c) {
            Some(f) => {
                filters.push(f);
            },
            None => {},
        }
        assert(filters@.map_values(|f: CrontabResultFilter| filter_view(f)) =~= condition_filters(cur));
        match c {
            CrontabResultQueryCondition::CronName(n) => {
                if !contains_name(&names, n) {
                    names.push(n.clone());
                }
                assert(names@.map_values(|s: String| s@) =~= condition_cron_names(cur));
            },
            CrontabResultQueryCondition::Limit(n) => {
                limit_count = Some(*n);
            },
            CrontabResultQueryCondition::Last => {
                is_last = true;
                assert(cur[i as int] is Last);
            },
            _ => {},
        }
        proof {
            if has_last(cur) && !(c is Last) {
                let k = choose|k: int| 0 <= k < cur.len() && cur[k] is Last;
                assert(prev[k] is Last);
            }
            if has_last(prev) {
                let k = choose|k: int| 0 <= k < prev.len() && prev[k] is Last;
                assert(cur[k] is Last);
            }
        }
        i = i + 1;
    }
    assert(conditions@.take(conditions@.len() as int) =~= conditions@);
    let permission_names = if names.len() == 0 {
        let mut all: Vec<String> = Vec::new();
        all.push("*".to_string());
        assert(all@.map_values(|s: String| s@) =~= seq!["*"@]);
        all
    } else {
        names
    };
    let limit = if is_last {
        1
    } else {
        match limit_count {
            Some(n) => if n < max_query_limit { n } else { max_query_limit },
            None => DEFAULT_CRONTAB_RESULT_LIMIT,
        }
    };
    CrontabResultQueryPlan { filters, permission_names, limit }
}

/// Law: a `Last` condition makes the query return one row, wherever it
/// stands among the other conditions (before or after any `Limit`).
pub proof fn law_last_takes_one_row(before: Seq<CrontabResultQueryCondition>, after: Seq<CrontabResultQueryCondition>, max_query_limit: u64)
    ensures
        planned_limit(before.push(CrontabResultQueryCondition::Last) + after, max_query_limit) == 1,
{
    let cs = before.push(CrontabResultQueryCondition::Last) + after;
    assert(cs[before.len() as int] is Last);
}

/// Law: without `Last`, an explicit `Limit` never returns more than
/// `max_query_limit` rows.
pub proof fn law_explicit_limit_is_capped(cs: Seq<CrontabResultQueryCondition>, max_query_limit: u64)
    requires
        !has_last(cs),
        last_limit(cs) is Some,
    ensures
        planned_limit(cs, max_query_limit) <= max_query_limit,
        planned_limit(cs, max_query_limit) <= last_limit(cs)->0,
{
}

/// A row of `crontab_result`, as the query's conditions read it.
pub struct CrontabResultRowView {
    pub id: i64,
    pub cron_id: i64,
    pub cron_name: Seq<char>,
    pub run_time: Option<i64>,
    pub success: Option<bool>,
}

/// Whether a row meets a condition of the query: `Id` is the result row's
/// own id, `CronId` the job's id, `CronName` the job's name; the run-time
/// bounds are inclusive and a row without a run time meets none of them;
/// `IsSuccess` / `IsFailure` need a recorded outcome; `Limit` and `Last`
/// select no rows by content.
pub open spec fn condition_holds(c: CrontabResultQueryCondition, row: CrontabResultRowView) -> bool {
    match c {
        CrontabResultQueryCondition::Id(x) => row.id == x,
        CrontabResultQueryCondition::CronId(x) => row.cron_id == x,
        CrontabResultQueryCondition::CronName(n) => row.cron_name == n@,
        CrontabResultQueryCondition::RunTimeFromTo(a, b) => row.run_time matches Some(t) && a <= t && t <= b,
        CrontabResultQueryCondition::RunTimeFrom(a) => row.run_time matches Some(t) && a <= t,
        CrontabResultQueryCondition::RunTimeTo(b) => row.run_time matches Some(t) && t <= b,
        CrontabResultQueryCondition::IsSuccess => row.success == Some(true),
        CrontabResultQueryCondition::IsFailure => row.success == Some(false),
        CrontabResultQueryCondition::Limit(_) => true,
        CrontabResultQueryCondition::Last => true,
    }
}

/// Whether a row passes a planned filter (given by `filter_view`).
pub open spec fn filter_view_holds(v: (int, int, int, Seq<char>), row: CrontabResultRowView) -> bool {
    if v.0 == 0 {
        row.id == v.1
    } else if v.0 == 1 {
        row.cron_id == v.1
    } else if v.0 == 2 {
        row.cron_name == v.3
    } else if v.0 == 3 {
        row.run_time matches Some(t) && v.1 <= t && t <= v.2
    } else if v.0 == 4 {
        row.run_time matches Some(t) && v.1 <= t
    } else if v.0 == 5 {
        row.run_time matches Some(t) && t <= v.1
    } else if v.0 == 6 {
        row.success == Some(v.1 == 1)
    } else {
        false
    }
}

proof fn lemma_condition_filter_meaning(c: CrontabResultQueryCondition, row: CrontabResultRowView)
    ensures
        match condition_filter(c) {
            Some(f) => filter_view_holds(filter_view(f), row) == condition_holds(c, row),
            None => condition_holds(c, row),
        },
{
}

/// Law: the planned filters select exactly the rows that meet every
/// condition of the query. In particular `Id(x)` keeps the result row `x`
/// (not the rows of job `x`), and the run-time and outcome conditions keep
/// their bounds and values.
pub proof fn law_filters_select_rows_meeting_conditions(cs: Seq<CrontabResultQueryCondition>, row: CrontabResultRowView)
    ensures
        (forall|i: int| 0 <= i < condition_filters(cs).len() ==> filter_view_holds(#[trigger] condition_filters(cs)[i], row))
            <==> (forall|i: int| 0 <= i < cs.len() ==> condition_holds(#[trigger] cs[i], row)),
    decreases cs.len(),
{
    if cs.len() > 0 {
        let prev = cs.drop_last();
        law_filters_select_rows_meeting_conditions(prev, row);
        lemma_condition_filter_meaning(cs.last(), row);
        let fs = condition_filters(cs);
        let pfs = condition_filters(prev);
        if forall|i: int| 0 <= i < cs.len() ==> condition_holds(#[trigger] cs[i], row) {
            assert forall|i: int| 0 <= i < prev.len() implies condition_holds(#[trigger] prev[i], row) by {
                assert(prev[i] == cs[i]);
            }
            assert(condition_holds(cs[cs.len() - 1], row));
            assert forall|i: int| 0 <= i < fs.len() implies filter_view_holds(#[trigger] fs[i], row) by {
                if i < pfs.len() {
                    assert(fs[i] == pfs[i]);
                }
            }
        }
        if forall|i: int| 0 <= i < fs.len() ==> filter_view_holds(#[trigger] fs[i], row) {
            assert forall|i: int| 0 <= i < pfs.len() implies filter_view_holds(#[trigger] pfs[i], row) by {
                assert(fs[i] == pfs[i]);
            }
            match condition_filter(cs.last()) {
                Some(f) => {
                    assert(fs[fs.len() - 1] == filter_view(f));
                },
                None => {},
            }
            assert forall|i: int| 0 <= i < cs.len() implies condition_holds(#[trigger] cs[i], row) by {
                if i < prev.len() {
                    assert(cs[i] == prev[i]);
                }
            }
        }
    }
}

/// Law: a query with neither `Limit` nor `Last` returns at most a thousand
/// rows; with a `Limit` and no `Last` it returns at most the last `Limit`
/// given.
pub proof fn law_default_and_explicit_limits(cs: Seq<CrontabResultQueryCondition>, max_query_limit: u64)
    ensures
        !has_last(cs) && last_limit(cs) is None ==> planned_limit(cs, max_query_limit) == 1000,
        !has_last(cs) && last_limit(cs) is Some ==> planned_limit(cs, max_query_limit) == (if last_limit(cs)->0 <= max_query_limit {
            last_limit(cs)->0
        } else {
            max_query_limit
        }),
{
}

/// Law: `last_limit` is the value of the last `Limit` condition: appending
/// `Limit(n)` makes it `n`, and appending any other condition keeps it.
pub proof fn law_last_limit_is_last_given(cs: Seq<CrontabResultQueryCondition>, c: CrontabResultQueryCondition, n: u64)
    ensures
        last_limit(cs.push(CrontabResultQueryCondition::Limit(n))) == Some(n),
        !(c is Limit) ==> last_limit(cs.push(c)) == last_limit(cs),
{
    assert(cs.push(CrontabResultQueryCondition::Limit(n)).drop_last() =~= cs);
    assert(cs.push(c).drop_last() =~= cs);
}

} // verus!
