//! Averaging of dynamic monitoring data over time buckets: query
//! validation, bucket assignment, per-bucket timestamp averages and the
//! PostgreSQL statement that does the same work in the database.
use vstd::prelude::*;
use crate::error::{NodegetError, is_invalid_input};

verus! {

/// A column group of the `dynamic_monitoring` table that a query can select.
#[derive(Clone, Copy, Debug, PartialEq, Eq, Structural)]
pub enum DynamicDataQueryField {
    Cpu,
    Ram,
    Load,
    System,
    Disk,
    Network,
    Gpu,
}

/// Column of `dynamic_monitoring` that holds the field.
pub open spec fn column_name_spec(f: DynamicDataQueryField) -> Seq<char> {
    match f {
        DynamicDataQueryField::Cpu => "cpu_data"@,
        DynamicDataQueryField::Ram => "ram_data"@,
        DynamicDataQueryField::Load => "load_data"@,
        DynamicDataQueryField::System => "system_data"@,
        DynamicDataQueryField::Disk => "disk_data"@,
        DynamicDataQueryField::Network => "network_data"@,
        DynamicDataQueryField::Gpu => "gpu_data"@,
    }
}

/// Key of the field in the JSON rows the query returns.
pub open spec fn json_key_spec(f: DynamicDataQueryField) -> Seq<char> {
    match f {
        DynamicDataQueryField::Cpu => "cpu"@,
        DynamicDataQueryField::Ram => "ram"@,
        DynamicDataQueryField::Load => "load"@,
        DynamicDataQueryField::System => "system"@,
        DynamicDataQueryField::Disk => "disk"@,
        DynamicDataQueryField::Network => "network"@,
        DynamicDataQueryField::Gpu => "gpu"@,
    }
}

impl DynamicDataQueryField {
    /// Column of `dynamic_monitoring` that holds the field.
    pub fn column_name(&self) -> (r: &'static str)
        ensures
            r@ == column_name_spec(*self),
    {
        match self {
            DynamicDataQueryField::Cpu => "cpu_data",
            DynamicDataQueryField::Ram => "ram_data",
            DynamicDataQueryField::Load => "load_data",
            DynamicDataQueryField::System => "system_data",
            DynamicDataQueryField::Disk => "disk_data",
            DynamicDataQueryField::Network => "network_data",
            DynamicDataQueryField::Gpu => "gpu_data",
        }
    }

    /// Key of the field in the JSON rows the query returns.
    pub fn json_key(&self) -> (r: &'static str)
        ensures
            r@ == json_key_spec(*self),
    {
        match self {
            DynamicDataQueryField::Cpu => "cpu",
            DynamicDataQueryField::Ram => "ram",
            DynamicDataQueryField::Load => "load",
            DynamicDataQueryField::System => "system",
            DynamicDataQueryField::Disk => "disk",
            DynamicDataQueryField::Network => "network",
            DynamicDataQueryField::Gpu => "gpu",
        }
    }
}

/// An averaged query over the dynamic monitoring data of one agent.
#[derive(Debug)]
pub struct DynamicDataAvgQuery {
    /// The agent, by the 128-bit value of its UUID.
    pub uuid: u128,
    pub fields: Vec<DynamicDataQueryField>,
    /// Number of time buckets (points) to average into.
    pub points: u64,
    pub timestamp_from: Option<i64>,
    pub timestamp_to: Option<i64>,
}

/// Rejects queries without fields, without points, or with an inverted time
/// range.
pub fn validate_avg_query(query: &DynamicDataAvgQuery) -> (r: Result<(), NodegetError>)
    ensures
        query.fields@.len() == 0 ==> is_invalid_input(r, "fields cannot be empty for dynamic_data_avg_query"@),
        query.fields@.len() != 0 && query.points == 0 ==> is_invalid_input(r, "points must be >= 1"@),
        query.fields@.len() != 0 && query.points != 0 && query.timestamp_from is Some
            && query.timestamp_to is Some && query.timestamp_from->0 > query.timestamp_to->0
            ==> is_invalid_input(r, "timestamp_from cannot be greater than timestamp_to"@),
        r is Ok <==> (query.fields@.len() != 0 && query.points != 0
            && !(query.timestamp_from is Some && query.timestamp_to is Some
                && query.timestamp_from->0 > query.timestamp_to->0)),
{
    if query.fields.len() == 0 {
        return Err(NodegetError::InvalidInput("fields cannot be empty for dynamic_data_avg_query".to_string()));
    }
    if query.points == 0 {
        return Err(NodegetError::InvalidInput("points must be >= 1".to_string()));
    }
    match (query.timestamp_from, query.timestamp_to) {
        (Some(start), Some(end)) => {
            if start > end {
                return Err(NodegetError::InvalidInput("timestamp_from cannot be greater than timestamp_to".to_string()));
            }
        },
        _ => {},
    }
    Ok(())
}

/// The bucket (out of `points`) that a row at `timestamp` falls into when the
/// rows span `min_timestamp ..= max_timestamp`: the span is cut into `points`
/// equal parts; timestamps outside the span are clamped onto it.
pub open spec fn bucket_index(timestamp: int, min_timestamp: int, max_timestamp: int, points: int) -> int {
    if points <= 1 || min_timestamp >= max_timestamp {
        0
    } else {
        let span = max_timestamp - min_timestamp + 1;
        let raw = timestamp - min_timestamp;
        let offset = if raw < 0 { 0 } else if raw > span - 1 { span - 1 } else { raw };
        let idx = (offset * points) / span;
        if idx < points - 1 { idx } else { points - 1 }
    }
}

/// The products that `calc_bucket_index` forms fit in an `i128`.
pub open spec fn bucket_arith_fits(min_timestamp: int, max_timestamp: int, points: int) -> bool {
    points <= 1 || min_timestamp >= max_timestamp || (max_timestamp - min_timestamp) * points <= i128::MAX
}

/// Index of the bucket of a row (see `bucket_index`).
pub fn calc_bucket_index(timestamp: i64, min_timestamp: i64, max_timestamp: i64, points: u64) -> (r: usize)
    requires
        points <= usize::MAX + 1,
        bucket_arith_fits(min_timestamp as int, max_timestamp as int, points as int),
    ensures
        r as int == bucket_index(timestamp as int, min_timestamp as int, max_timestamp as int, points as int),
        points >= 1 ==> r < points,
{
    if points <= 1 || min_timestamp >= max_timestamp {
        return 0;
    }
    let span: i128 = (max_timestamp as i128 - min_timestamp as i128) + 1;
    let raw: i128 = timestamp as i128 - min_timestamp as i128;
    let offset: i128 = if raw < 0 { 0 } else if raw > span - 1 { span - 1 } else { raw };
    let p: i128 = points as i128;
    assert(0 <= offset * p <= (span - 1) * p) by (nonlinear_arith)
        requires 0 <= offset <= span - 1, p >= 2;
    let prod: i128 = offset * p;
    let idx: i128 = prod / span;
    assert(idx >= 0) by (nonlinear_arith)
        requires idx == prod / span, prod >= 0, span > 0;
    if idx < p - 1 {
        idx as usize
    } else {
        (points - 1) as usize
    }
}

/// How a selected field is averaged.
#[derive(Clone, Copy, Debug, PartialEq, Eq, Structural)]
pub enum FieldAverageAccumulator {
    /// Field-by-field numeric averaging of the JSON value.
    Generic,
    /// Averaging of the process count of the `system` data.
    SystemProcessCount,
}

impl FieldAverageAccumulator {
    /// The averaging that `field` gets: the `system` data averages its process
    /// count, every other field is averaged generically.
    pub fn for_field(field: DynamicDataQueryField) -> (r: Self)
        ensures
            r == (if field == DynamicDataQueryField::System {
                FieldAverageAccumulator::SystemProcessCount
            } else {
                FieldAverageAccumulator::Generic
            }),
    {
        match field {
            DynamicDataQueryField::System => FieldAverageAccumulator::SystemProcessCount,
            DynamicDataQueryField::Cpu
            | DynamicDataQueryField::Ram
            | DynamicDataQueryField::Load
            | DynamicDataQueryField::Disk
            | DynamicDataQueryField::Network
            | DynamicDataQueryField::Gpu => FieldAverageAccumulator::Generic,
        }
    }
}

/// 2^63.
pub open spec fn two_pow_63() -> int {
    0x8000_0000_0000_0000
}

/// Integer division rounding toward zero (as Rust's `/` on signed integers).
pub open spec fn div_toward_zero(a: int, b: int) -> int {
    if a >= 0 { a / b } else { -((-a) / b) }
}

/// The rows of one bucket: sum and count of their timestamps, and the
/// averaging of each selected field.
#[derive(Debug)]
pub struct BucketAccumulator {
    timestamp_sum: i128,
    row_count: u64,
    fields: Vec<FieldAverageAccumulator>,
}

impl BucketAccumulator {
    /// Sum of the timestamps of the rows added.
    pub closed spec fn sum(&self) -> int {
        self.timestamp_sum as int
    }

    /// Number of rows added.
    pub closed spec fn count(&self) -> nat {
        self.row_count as nat
    }

    /// The averaging of each selected field, in the order of the selection.
    pub closed spec fn field_kinds(&self) -> Seq<FieldAverageAccumulator> {
        self.fields@
    }

    /// The sum stays within what `count` values of `i64` can add up to.
    pub open spec fn wf(&self) -> bool {
        -(self.count() * two_pow_63()) <= self.sum() <= self.count() * (two_pow_63() - 1)
    }

    /// An empty bucket for the selected fields.
    pub fn new(selected_fields: &[DynamicDataQueryField]) -> (b: Self)
        ensures
            b.wf(),
            b.sum() == 0,
            b.count() == 0,
            b.field_kinds().len() == selected_fields@.len(),
            forall|i: int| 0 <= i < selected_fields@.len() ==>
                #[trigger] b.field_kinds()[i] == (if selected_fields@[i] == DynamicDataQueryField::System {
                    FieldAverageAccumulator::SystemProcessCount
                } else {
                    FieldAverageAccumulator::Generic
                }),
    {
        let mut fields: Vec<FieldAverageAccumulator> = Vec::new();
        let mut i: usize = 0;
        while i < selected_fields.len()
            invariant
                i <= selected_fields@.len(),
                fields@.len() == i,
                forall|j: int| 0 <= j < i ==>
                    #[trigger] fields@[j] == (if selected_fields@[j] == DynamicDataQueryField::System {
                        FieldAverageAccumulator::SystemProcessCount
                    } else {
                        FieldAverageAccumulator::Generic
                    }),
            decreases selected_fields@.len() - i,
        {
            fields.push(FieldAverageAccumulator::for_field(selected_fields[i]));
            i = i + 1;
        }
        BucketAccumulator { timestamp_sum: 0, row_count: 0, fields }
    }

    /// Number of rows added.
    pub fn row_count(&self) -> (r: u64)
        ensures
            r == self.count(),
    {
        self.row_count
    }

    /// The averaging of each selected field.
    pub fn field_accumulators(&self) -> (r: &Vec<FieldAverageAccumulator>)
        ensures
            r@ == self.field_kinds(),
    {
        &self.fields
    }

    /// Adds a row with timestamp `timestamp` (its field values are averaged by
    /// the caller, per `field_kinds`).
    pub fn add_row(&mut self, timestamp: i64)
        requires
            old(self).wf(),
            old(self).count() < u64::MAX,
        ensures
            final(self).wf(),
            final(self).sum() == old(self).sum() + timestamp,
            final(self).count() == old(self).count() + 1,
            final(self).field_kinds() == old(self).field_kinds(),
    {
        proof {
            let c = self.row_count as int;
            let t = self.timestamp_sum as int;
            assert(-(c * two_pow_63()) <= t <= c * (two_pow_63() - 1));
            assert(i128::MIN <= t + timestamp <= i128::MAX) by (nonlinear_arith)
                requires
                    0 <= c <= u64::MAX - 1,
                    -(c * two_pow_63()) <= t <= c * (two_pow_63() - 1),
                    i64::MIN <= timestamp <= i64::MAX,
                    two_pow_63() == 0x8000_0000_0000_0000;
        }
        self.timestamp_sum = self.timestamp_sum + timestamp as i128;
        self.row_count = self.row_count + 1;
        proof {
            assert((self.row_count - 1) * two_pow_63() + two_pow_63() == self.row_count * two_pow_63()) by (nonlinear_arith);
            assert((self.row_count - 1) * (two_pow_63() - 1) + (two_pow_63() - 1) == self.row_count * (two_pow_63() - 1)) by (nonlinear_arith);
        }
    }

    /// Average timestamp of the rows added, rounded toward zero.
    pub fn average_timestamp(&self) -> (r: i64)
        requires
            self.wf(),
            self.count() > 0,
        ensures
            r as int == div_toward_zero(self.sum(), self.count() as int),
    {
        let c: i128 = self.row_count as i128;
        if self.timestamp_sum >= 0 {
            let q: i128 = self.timestamp_sum / c;
            assert(q <= two_pow_63() - 1) by (nonlinear_arith)
                requires q == self.timestamp_sum / c, self.timestamp_sum <= c * (two_pow_63() - 1), c > 0,
                    self.timestamp_sum >= 0;
            q as i64
        } else {
            let n: i128 = 0 - self.timestamp_sum;
            let q: i128 = n / c;
            assert(q <= two_pow_63()) by (nonlinear_arith)
                requires q == n / c, n <= c * two_pow_63(), c > 0, n >= 0;
            (0 - q) as i64
        }
    }
}

/// The time span that averaging uses: the smallest timestamp found and the
/// largest one (the smallest again when the largest is unknown); `None` when
/// no row was found.
pub fn resolve_time_range(min_timestamp: Option<i64>, max_timestamp: Option<i64>) -> (r: Option<(i64, i64)>)
    ensures
        r == (match min_timestamp {
            None => None,
            Some(lo) => Some((lo, match max_timestamp { Some(hi) => hi, None => lo })),
        }),
{
    match min_timestamp {
        None => None,
        Some(lo) => {
            let hi = match max_timestamp {
                Some(hi) => hi,
                None => lo,
            };
            Some((lo, hi))
        },
    }
}

/// The number of points as the `bigint` parameter of the PostgreSQL
/// statement; too large a number is an input error.
pub fn points_sql_param(points: u64) -> (r: Result<i64, NodegetError>)
    ensures
        points <= i64::MAX ==> r == Ok::<i64, NodegetError>(points as i64),
        points > i64::MAX ==> is_invalid_input(r, "points is too large"@),
{
    if points <= 9223372036854775807u64 {
        Ok(points as i64)
    } else {
        Err(NodegetError::InvalidInput("points is too large".to_string()))
    }
}

/// Sum and row count of each bucket (`None` for a bucket without rows).
pub open spec fn bucket_summary(b: Option<BucketAccumulator>) -> Option<(int, nat)> {
    match b {
        Some(a) => Some((a.sum(), a.count())),
        None => None,
    }
}

/// `(index, average timestamp)` of each bucket that has rows, in index order.
pub open spec fn bucket_averages(v: Seq<Option<(int, nat)>>) -> Seq<(int, int)>
    decreases v.len(),
{
    if v.len() == 0 {
        Seq::empty()
    } else {
        let prev = bucket_averages(v.drop_last());
        match v.last() {
            Some(sc) => prev.push(((v.len() - 1) as int, div_toward_zero(sc.0, sc.1 as int))),
            None => prev,
        }
    }
}

/// The buckets of an averaged query: `points` buckets over the time span of
/// the rows, each created on its first row.
#[derive(Debug)]
pub struct AvgBuckets {
    buckets: Vec<Option<BucketAccumulator>>,
    fields: Vec<DynamicDataQueryField>,
    min_timestamp: i64,
    max_timestamp: i64,
    points: u64,
    total_rows: u64,
}

impl AvgBuckets {
    /// Sum and row count of each bucket.
    pub closed spec fn summary(&self) -> Seq<Option<(int, nat)>> {
        self.buckets@.map_values(|b: Option<BucketAccumulator>| bucket_summary(b))
    }

    /// Rows added so far.
    pub closed spec fn rows(&self) -> nat {
        self.total_rows as nat
    }

    /// Smallest timestamp of the span.
    pub closed spec fn min_ts(&self) -> int {
        self.min_timestamp as int
    }

    /// Largest timestamp of the span.
    pub closed spec fn max_ts(&self) -> int {
        self.max_timestamp as int
    }

    /// Number of buckets.
    pub closed spec fn point_count(&self) -> int {
        self.points as int
    }

    /// The selected fields every bucket averages.
    pub closed spec fn selected(&self) -> Seq<DynamicDataQueryField> {
        self.fields@
    }

    /// Internal invariant.
    pub closed spec fn wf(&self) -> bool {
        &&& self.buckets@.len() == self.points
        &&& 1 <= self.points <= usize::MAX
        &&& bucket_arith_fits(self.min_timestamp as int, self.max_timestamp as int, self.points as int)
        &&& forall|i: int| 0 <= i < self.buckets@.len() && #[trigger] self.buckets@[i] is Some ==> {
            let b = self.buckets@[i]->0;
            &&& b.wf()
            &&& 1 <= b.count() <= self.total_rows
            &&& b.field_kinds().len() == self.fields@.len()
        }
    }

    /// `points` empty buckets over `min_timestamp ..= max_timestamp`.
    pub fn new(points: u64, min_timestamp: i64, max_timestamp: i64, fields: &[DynamicDataQueryField]) -> (r: Self)
        requires
            1 <= points <= usize::MAX,
            bucket_arith_fits(min_timestamp as int, max_timestamp as int, points as int),
        ensures
            r.wf(),
            r.summary() == Seq::new(points as nat, |i: int| None::<(int, nat)>),
            r.rows() == 0,
            r.min_ts() == min_timestamp,
            r.max_ts() == max_timestamp,
            r.point_count() == points,
            r.selected() == fields@,
    {
        let mut buckets: Vec<Option<BucketAccumulator>> = Vec::new();
        let n: usize = points as usize;
        let mut i: usize = 0;
        while i < n
            invariant
                i <= n,
                n == points,
                buckets@.len() == i,
                forall|j: int| 0 <= j < i ==> #[trigger] buckets@[j] is None,
            decreases n - i,
        {
            buckets.push(None);
            i = i + 1;
        }
        let mut sel: Vec<DynamicDataQueryField> = Vec::new();
        let mut k: usize = 0;
        while k < fields.len()
            invariant
                k <= fields@.len(),
                sel@ == fields@.take(k as int),
            decreases fields@.len() - k,
        {
            sel.push(fields[k]);
            k = k + 1;
            assert(sel@ =~= fields@.take(k as int));
        }
        assert(sel@ =~= fields@);
        let r = AvgBuckets {
            buckets,
            fields: sel,
            min_timestamp,
            max_timestamp,
            points,
            total_rows: 0,
        };
        assert(r.summary() =~= Seq::new(points as nat, |i: int| None::<(int, nat)>));
        r
    }

    /// Rows added so far.
    pub fn rows_added(&self) -> (r: u64)
        ensures
            r == self.rows(),
    {
        self.total_rows
    }

    /// Adds a row at `timestamp` to its bucket and returns the bucket's index.
    pub fn add_row(&mut self, timestamp: i64) -> (idx: usize)
        requires
            old(self).wf(),
            old(self).rows() < u64::MAX,
        ensures
            final(self).wf(),
            idx as int == bucket_index(timestamp as int, old(self).min_ts(), old(self).max_ts(), old(self).point_count()),
            idx < old(self).summary().len(),
            final(self).summary() == old(self).summary().update(idx as int, Some(match old(self).summary()[idx as int] {
                Some(sc) => (sc.0 + timestamp, sc.1 + 1),
                None => (timestamp as int, 1nat),
            })),
            final(self).rows() == old(self).rows() + 1,
            final(self).min_ts() == old(self).min_ts(),
            final(self).max_ts() == old(self).max_ts(),
            final(self).point_count() == old(self).point_count(),
            final(self).selected() == old(self).selected(),
    {
        let idx = calc_bucket_index(timestamp, self.min_timestamp, self.max_timestamp, self.points);
        let ghost old_buckets = self.buckets@;
        let mut slot: Option<BucketAccumulator> = None;
        std::mem::swap(&mut slot, &mut self.buckets[idx]);
        let mut bucket = match slot {
            Some(b) => b,
            None => BucketAccumulator::new(self.fields.as_slice()),
        };
        bucket.add_row(timestamp);
        self.buckets.set(idx, Some(bucket));
        self.total_rows = self.total_rows + 1;
        proof {
            assert(self.summary() =~= old(self).summary().update(idx as int, Some(match old(self).summary()[idx as int] {
                Some(sc) => (sc.0 + timestamp, sc.1 + 1),
                None => (timestamp as int, 1nat),
            })));
        }
        idx
    }

    /// `(index, average timestamp)` of each bucket that has rows, in index order.
    pub fn averages(&self) -> (r: Vec<(usize, i64)>)
        requires
            self.wf(),
        ensures
            r@.map_values(|p: (usize, i64)| (p.0 as int, p.1 as int)) == bucket_averages(self.summary()),
    {
        let mut r: Vec<(usize, i64)> = Vec::new();
        let mut i: usize = 0;
        while i < self.buckets.len()
            invariant
                self.wf(),
                i <= self.buckets@.len(),
                r@.map_values(|p: (usize, i64)| (p.0 as int, p.1 as int)) == bucket_averages(self.summary().take(i as int)),
            decreases self.buckets@.len() - i,
        {
            assert(self.summary().take(i + 1).drop_last() =~= self.summary().take(i as int));
            match &self.buckets[i] {
                Some(b) => {
                    let avg = b.average_timestamp();
                    r.push((i, avg));
                },
                None => {},
            }
            proof {
                assert(r@.map_values(|p: (usize, i64)| (p.0 as int, p.1 as int)) =~= bucket_averages(self.summary().take(i + 1)));
            }
            i = i + 1;
        }
        assert(self.summary().take(self.buckets@.len() as int) =~= self.summary());
        r
    }
}

/// Law: each field is stored in the column named after its JSON key with
/// `_data` appended (`load` in `load_data`, `disk` in `disk_data`, ...), so the
/// values averaged under a key are read from that key's own column.
pub proof fn law_field_column_is_key_data(f: DynamicDataQueryField)
    ensures
        column_name_spec(f) == json_key_spec(f) + "_data"@,
{
    reveal_strlit("_data");
    match f {
        DynamicDataQueryField::Cpu => {
            reveal_strlit("cpu_data");
            reveal_strlit("cpu");
            assert(column_name_spec(f) =~= json_key_spec(f) + "_data"@);
        },
        DynamicDataQueryField::Ram => {
            reveal_strlit("ram_data");
            reveal_strlit("ram");
            assert(column_name_spec(f) =~= json_key_spec(f) + "_data"@);
        },
        DynamicDataQueryField::Load => {
            reveal_strlit("load_data");
            reveal_strlit("load");
            assert(column_name_spec(f) =~= json_key_spec(f) + "_data"@);
        },
        DynamicDataQueryField::System => {
            reveal_strlit("system_data");
            reveal_strlit("system");
            assert(column_name_spec(f) =~= json_key_spec(f) + "_data"@);
        },
        DynamicDataQueryField::Disk => {
            reveal_strlit("disk_data");
            reveal_strlit("disk");
            assert(column_name_spec(f) =~= json_key_spec(f) + "_data"@);
        },
        DynamicDataQueryField::Network => {
            reveal_strlit("network_data");
            reveal_strlit("network");
            assert(column_name_spec(f) =~= json_key_spec(f) + "_data"@);
        },
        DynamicDataQueryField::Gpu => {
            reveal_strlit("gpu_data");
            reveal_strlit("gpu");
            assert(column_name_spec(f) =~= json_key_spec(f) + "_data"@);
        },
    }
}

/// Law: distinct fields have distinct columns and distinct JSON keys, so no
/// two selected fields read or report the same data.
pub proof fn law_fields_have_distinct_columns(f: DynamicDataQueryField, g: DynamicDataQueryField)
    requires
        f != g,
    ensures
        column_name_spec(f) != column_name_spec(g),
        json_key_spec(f) != json_key_spec(g),
{
    reveal_strlit("cpu_data");
    reveal_strlit("ram_data");
    reveal_strlit("load_data");
    reveal_strlit("system_data");
    reveal_strlit("disk_data");
    reveal_strlit("network_data");
    reveal_strlit("gpu_data");
    reveal_strlit("cpu");
    reveal_strlit("ram");
    reveal_strlit("load");
    reveal_strlit("system");
    reveal_strlit("disk");
    reveal_strlit("network");
    reveal_strlit("gpu");
    if column_name_spec(f) == column_name_spec(g) {
        assert(column_name_spec(f)[1] == column_name_spec(g)[1]);
        assert(column_name_spec(f)[0] == column_name_spec(g)[0]);
    }
    if json_key_spec(f) == json_key_spec(g) {
        assert(json_key_spec(f)[1] == json_key_spec(g)[1]);
        assert(json_key_spec(f)[0] == json_key_spec(g)[0]);
    }
}

/// Law: a bucket's average timestamp lies within the timestamps of its
/// rows: when `n` rows all lie in `lo ..= hi`, the average of their sum is in
/// `lo ..= hi` too; and the average of `n` equal timestamps is that
/// timestamp.
pub proof fn law_average_within_row_span(sum: int, n: int, lo: int, hi: int, t: int)
    requires
        n > 0,
    ensures
        lo * n <= sum <= hi * n ==> lo <= div_toward_zero(sum, n) <= hi,
        div_toward_zero(t * n, n) == t,
{
    if lo * n <= sum <= hi * n {
        if sum >= 0 {
            assert(sum / n <= hi) by (nonlinear_arith)
                requires sum <= hi * n, n > 0, sum >= 0;
            assert(lo <= sum / n) by (nonlinear_arith)
                requires lo * n <= sum, n > 0, sum >= 0;
        } else {
            let m = -sum;
            assert(-(lo * n) == (-lo) * n) by (nonlinear_arith);
            assert(-(hi * n) == (-hi) * n) by (nonlinear_arith);
            assert(m / n <= -lo) by (nonlinear_arith)
                requires m <= (-lo) * n, n > 0, m > 0;
            assert(-hi <= m / n) by (nonlinear_arith)
                requires (-hi) * n <= m, n > 0, m > 0;
        }
    }
    if t >= 0 {
        assert((t * n) / n == t) by (nonlinear_arith)
            requires n > 0;
        assert(t * n >= 0) by (nonlinear_arith)
            requires t >= 0, n > 0;
    } else {
        assert(t * n < 0) by (nonlinear_arith)
            requires t < 0, n > 0;
        assert((-(t * n)) / n == -t) by (nonlinear_arith)
            requires n > 0;
    }
}

/// Law: averages are rounded toward zero, the same way for negative and
/// positive sums.
pub proof fn law_average_rounds_toward_zero(sum: int, n: int)
    requires
        n > 0,
    ensures
        div_toward_zero(-sum, n) == -div_toward_zero(sum, n),
        sum >= 0 ==> div_toward_zero(sum, n) * n <= sum < (div_toward_zero(sum, n) + 1) * n,
{
    if sum >= 0 {
        assert((sum / n) * n <= sum < (sum / n + 1) * n) by (nonlinear_arith)
            requires n > 0, sum >= 0;
        if sum > 0 {
            assert(-(-sum) == sum);
        } else {
            assert(0int / n == 0) by (nonlinear_arith) requires n > 0;
        }
    }
}

/// Law: every row lands in one of the `points` buckets.
pub proof fn law_bucket_index_in_range(timestamp: int, min_timestamp: int, max_timestamp: int, points: int)
    requires
        points >= 1,
    ensures
        0 <= bucket_index(timestamp, min_timestamp, max_timestamp, points) < points,
{
    if !(points <= 1 || min_timestamp >= max_timestamp) {
        let span = max_timestamp - min_timestamp + 1;
        let raw = timestamp - min_timestamp;
        let offset = if raw < 0 { 0 } else if raw > span - 1 { span - 1 } else { raw };
        assert((offset * points) / span >= 0) by (nonlinear_arith)
            requires offset >= 0, points >= 0, span > 0;
    }
}

/// Law: a later row never lands in an earlier bucket.
pub proof fn law_bucket_index_monotone(t1: int, t2: int, min_timestamp: int, max_timestamp: int, points: int)
    requires
        t1 <= t2,
    ensures
        bucket_index(t1, min_timestamp, max_timestamp, points) <= bucket_index(t2, min_timestamp, max_timestamp, points),
{
    if !(points <= 1 || min_timestamp >= max_timestamp) {
        let span = max_timestamp - min_timestamp + 1;
        let r1 = t1 - min_timestamp;
        let r2 = t2 - min_timestamp;
        let o1 = if r1 < 0 { 0 } else if r1 > span - 1 { span - 1 } else { r1 };
        let o2 = if r2 < 0 { 0 } else if r2 > span - 1 { span - 1 } else { r2 };
        assert(o1 <= o2);
        assert(o1 * points <= o2 * points) by (nonlinear_arith)
            requires o1 <= o2, points >= 0;
        vstd::arithmetic::div_mod::lemma_div_is_ordered(o1 * points, o2 * points, span);
    }
}

/// Law: the first timestamp of the span is in the first bucket, and, when
/// there are no more buckets than instants in the span, the last timestamp is
/// in the last bucket.
pub proof fn law_bucket_index_span_ends(min_timestamp: int, max_timestamp: int, points: int)
    requires
        points >= 1,
    ensures
        bucket_index(min_timestamp, min_timestamp, max_timestamp, points) == 0,
        min_timestamp < max_timestamp && points <= max_timestamp - min_timestamp + 1 ==>
            bucket_index(max_timestamp, min_timestamp, max_timestamp, points) == points - 1,
{
    if !(points <= 1 || min_timestamp >= max_timestamp) {
        let span = max_timestamp - min_timestamp + 1;
        assert((0 * points) / span == 0) by (nonlinear_arith)
            requires span > 0;
        if points <= span {
            let q = ((span - 1) * points) / span;
            assert(q == points - 1) by (nonlinear_arith)
                requires q == ((span - 1) * points) / span, 1 <= points <= span, span > 1;
        }
    }
}

} // verus!
