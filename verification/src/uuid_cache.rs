//! Two-way cache between monitoring UUIDs and their small integer ids.
use vstd::prelude::*;
use std::collections::HashMap;
use vstd::std_specs::iter::IteratorSpec;
use crate::error::{NodegetError, database_error};
use crate::text::{decimal_text, push_decimal_i64, push_uuid, uuid_hyphenated};

verus! {

/// Checked narrowing of a `monitoring_uuid.id` (an `i32` in the database) to
/// the `i16` key used by the monitoring tables: `None` outside the `i16` range,
/// so that no id silently wraps onto another one.
pub fn try_id_i16(model_id: i32) -> (r: Option<i16>)
    ensures
        r == (if i16::MIN <= model_id <= i16::MAX { Some(model_id as i16) } else { None::<i16> }),
{
    if -32768 <= model_id && model_id <= 32767 {
        Some(model_id as i16)
    } else {
        None
    }
}


/// `s` is sorted in strictly ascending order.
pub open spec fn strictly_ascending(s: Seq<u128>) -> bool {
    forall|i: int, j: int| 0 <= i < j < s.len() ==> s[i] < s[j]
}

/// The first components of `s` are sorted in strictly ascending order.
pub open spec fn strictly_ascending_by_key(s: Seq<(u128, bool)>) -> bool {
    forall|i: int, j: int| 0 <= i < j < s.len() ==> s[i].0 < s[j].0
}

/// Inserts `x` into the strictly ascending `v` at its place.
fn insert_sorted(v: &mut Vec<u128>, x: u128)
    requires
        strictly_ascending(old(v)@),
        !old(v)@.contains(x),
    ensures
        strictly_ascending(final(v)@),
        final(v)@.to_set() == old(v)@.to_set().insert(x),
{
    let mut i: usize = 0;
    while i < v.len() && v[i] < x
        invariant
            i <= v.len(),
            forall|j: int| 0 <= j < i ==> v@[j] < x,
        decreases v.len() - i,
    {
        i = i + 1;
    }
    let ghost old_v = v@;
    v.insert(i, x);
    proof {
        assert(v@ =~= old_v.subrange(0, i as int).push(x) + old_v.subrange(i as int, old_v.len() as int));
        assert forall|j: int| i <= j < old_v.len() implies x < old_v[j] by {
            assert(old_v[i as int] >= x);
            if j > i {
                assert(old_v[i as int] < old_v[j]);
            }
            assert(old_v[j] != x);
        }
        assert forall|a: int, b: int| 0 <= a < b < v@.len() implies v@[a] < v@[b] by {
            if b < i {
            } else if a < i && b == i {
            } else if a < i {
                assert(v@[b] == old_v[b - 1]);
            } else if a == i {
                assert(v@[b] == old_v[b - 1]);
            } else {
                assert(v@[a] == old_v[a - 1]);
                assert(v@[b] == old_v[b - 1]);
            }
        }
        assert forall|y: u128| v@.to_set().contains(y) <==> old_v.to_set().insert(x).contains(y) by {
            if v@.contains(y) {
                let k = choose|k: int| 0 <= k < v@.len() && v@[k] == y;
                if k < i {
                    assert(old_v[k] == y);
                } else if k > i {
                    assert(old_v[k - 1] == y);
                }
            }
            if old_v.contains(y) {
                let k = choose|k: int| 0 <= k < old_v.len() && old_v[k] == y;
                if k < i {
                    assert(v@[k] == y);
                } else {
                    assert(v@[k + 1] == y);
                }
            }
            if y == x {
                assert(v@[i as int] == x);
            }
        }
        assert(v@.to_set() =~= old_v.to_set().insert(x));
    }
}

/// Inserts `x` into `v`, kept strictly ascending by first component.
fn insert_sorted_by_key(v: &mut Vec<(u128, bool)>, x: (u128, bool))
    requires
        strictly_ascending_by_key(old(v)@),
        forall|j: int| 0 <= j < old(v)@.len() ==> old(v)@[j].0 != x.0,
    ensures
        strictly_ascending_by_key(final(v)@),
        final(v)@.to_set() == old(v)@.to_set().insert(x),
{
    let mut i: usize = 0;
    while i < v.len() && v[i].0 < x.0
        invariant
            i <= v.len(),
            forall|j: int| 0 <= j < i ==> v@[j].0 < x.0,
        decreases v.len() - i,
    {
        i = i + 1;
    }
    let ghost old_v = v@;
    v.insert(i, x);
    proof {
        assert(v@ =~= old_v.subrange(0, i as int).push(x) + old_v.subrange(i as int, old_v.len() as int));
        assert forall|j: int| i <= j < old_v.len() implies x.0 < old_v[j].0 by {
            assert(old_v[i as int].0 >= x.0);
            if j > i {
                assert(old_v[i as int].0 < old_v[j].0);
            }
            assert(old_v[j].0 != x.0);
        }
        assert forall|a: int, b: int| 0 <= a < b < v@.len() implies v@[a].0 < v@[b].0 by {
            if b < i {
            } else if a < i && b == i {
            } else if a < i {
                assert(v@[b] == old_v[b - 1]);
            } else if a == i {
                assert(v@[b] == old_v[b - 1]);
            } else {
                assert(v@[a] == old_v[a - 1]);
                assert(v@[b] == old_v[b - 1]);
            }
        }
        assert forall|y: (u128, bool)| v@.to_set().contains(y) <==> old_v.to_set().insert(x).contains(y) by {
            if v@.contains(y) {
                let k = choose|k: int| 0 <= k < v@.len() && v@[k] == y;
                if k < i {
                    assert(old_v[k] == y);
                } else if k > i {
                    assert(old_v[k - 1] == y);
                }
            }
            if old_v.contains(y) {
                let k = choose|k: int| 0 <= k < old_v.len() && old_v[k] == y;
                if k < i {
                    assert(v@[k] == y);
                } else {
                    assert(v@[k + 1] == y);
                }
            }
            if y == x {
                assert(v@[i as int] == x);
            }
        }
        assert(v@.to_set() =~= old_v.to_set().insert(x));
    }
}

/// One row of the `monitoring_uuid` table: database id, the UUID (by its
/// 128-bit value) and the soft-delete mark.
#[derive(Clone, Copy, Debug, PartialEq, Eq)]
pub struct MonitoringUuidRow {
    pub id: i32,
    pub uuid: u128,
    pub soft_delete: bool,
}

/// Whether a database id can be held as an `i16` cache key.
pub open spec fn id_fits(id: i32) -> bool {
    i16::MIN <= id <= i16::MAX
}

/// The UUID-to-(id, soft_delete) map that a cache built from `rows` holds:
/// rows are taken in order, later rows overwrite earlier ones, rows whose id
/// does not fit in `i16` are skipped.
pub open spec fn rows_by_uuid(rows: Seq<MonitoringUuidRow>) -> Map<u128, (i16, bool)>
    decreases rows.len(),
{
    if rows.len() == 0 {
        Map::empty()
    } else {
        let r = rows.last();
        let m = rows_by_uuid(rows.drop_last());
        if id_fits(r.id) { m.insert(r.uuid, (r.id as i16, r.soft_delete)) } else { m }
    }
}

/// The id-to-(UUID, soft_delete) map that a cache built from `rows` holds.
pub open spec fn rows_by_id(rows: Seq<MonitoringUuidRow>) -> Map<i16, (u128, bool)>
    decreases rows.len(),
{
    if rows.len() == 0 {
        Map::empty()
    } else {
        let r = rows.last();
        let m = rows_by_id(rows.drop_last());
        if id_fits(r.id) { m.insert(r.id as i16, (r.uuid, r.soft_delete)) } else { m }
    }
}

/// The two maps agree: each entry of one is mirrored by the other, with the
/// same soft-delete mark.
pub open spec fn maps_consistent(by_uuid: Map<u128, (i16, bool)>, by_id: Map<i16, (u128, bool)>) -> bool {
    &&& forall|u: u128| #[trigger] by_uuid.contains_key(u) ==> {
        &&& by_id.contains_key(by_uuid[u].0)
        &&& by_id[by_uuid[u].0] == (u, by_uuid[u].1)
    }
    &&& forall|i: i16| #[trigger] by_id.contains_key(i) ==> {
        &&& by_uuid.contains_key(by_id[i].0)
        &&& by_uuid[by_id[i].0] == (i, by_id[i].1)
    }
}


/// What the database answered to the last step of `get_or_insert` or
/// `soft_delete`.
#[derive(Debug)]
pub enum CacheDbEvent {
    /// No database connection is configured.
    DbUnavailable,
    /// The row lookup failed with this error text.
    QueryFailed(String),
    /// The row lookup found this row.
    RowFound(MonitoringUuidRow),
    /// The row lookup found no row.
    RowMissing,
    /// Updating the soft-delete mark failed with this error text.
    UpdateFailed(String),
    /// The soft-delete mark was written.
    Updated,
    /// The new row was inserted with this id.
    Inserted(i32),
    /// The insert hit the UNIQUE(uuid) constraint; the error text.
    InsertConflict(String),
    /// The insert failed otherwise; the error text.
    InsertFailed(String),
}

/// Steps of `get_or_insert`: each is what the caller does next against the
/// database, or the final result.
#[derive(Debug)]
pub enum GetOrInsertStep {
    /// Look the row of the UUID up (`RowFound` / `RowMissing` / `QueryFailed` / `DbUnavailable`).
    QueryRow,
    /// Write `soft_delete = false` on this row (`Updated` / `UpdateFailed`).
    Resurrect(MonitoringUuidRow),
    /// Insert a new active row for the UUID (`Inserted` / `InsertConflict` / `InsertFailed`).
    InsertRow,
    /// The insert conflicted (with this error text): look the row up again.
    RequeryAfterConflict(String),
    /// Write `soft_delete = false` on the row found after the conflict.
    ResurrectAfterConflict(MonitoringUuidRow),
    /// The operation is over.
    Done(Result<i16, NodegetError>),
}

/// Steps of `soft_delete`.
#[derive(Debug)]
pub enum SoftDeleteStep {
    /// Look the row of the UUID up.
    QueryRow,
    /// Write `soft_delete = true` on this row.
    MarkDeleted(MonitoringUuidRow),
    /// The operation is over: `Ok(true)` marked (or already marked), `Ok(false)` no such UUID.
    Done(Result<bool, NodegetError>),
}

/// Whether `event` is an answer to the `get_or_insert` step `step`.
pub open spec fn answers_get_or_insert(step: GetOrInsertStep, event: CacheDbEvent) -> bool {
    match step {
        GetOrInsertStep::QueryRow => event is DbUnavailable || event is QueryFailed || event is RowFound || event is RowMissing,
        GetOrInsertStep::Resurrect(_) => event is Updated || event is UpdateFailed,
        GetOrInsertStep::InsertRow => event is Inserted || event is InsertConflict || event is InsertFailed,
        GetOrInsertStep::RequeryAfterConflict(_) => event is QueryFailed || event is RowFound || event is RowMissing,
        GetOrInsertStep::ResurrectAfterConflict(_) => event is Updated || event is UpdateFailed,
        GetOrInsertStep::Done(_) => false,
    }
}

/// Whether `event` is an answer to the `soft_delete` step `step`.
pub open spec fn answers_soft_delete(step: SoftDeleteStep, event: CacheDbEvent) -> bool {
    match step {
        SoftDeleteStep::QueryRow => event is DbUnavailable || event is QueryFailed || event is RowFound || event is RowMissing,
        SoftDeleteStep::MarkDeleted(_) => event is Updated || event is UpdateFailed,
        SoftDeleteStep::Done(_) => false,
    }
}

/// Message for an id that does not fit in `i16`.
pub open spec fn id_range_text(id: i32, uuid: u128) -> Seq<char> {
    "monitoring_uuid id "@ + decimal_text(id as int) + " for "@ + uuid_hyphenated(uuid)
        + " exceeds i16 range; migrate uuid_id columns to i32"@
}

/// Message for an inserted or re-read id that does not fit in `i16`.
pub open spec fn inserted_id_range_text(uuid: u128) -> Seq<char> {
    "monitoring_uuid id for "@ + uuid_hyphenated(uuid)
        + " exceeds i16 range after insert/conflict; migrate uuid_id columns to i32"@
}

/// `r` is a database error with message `m`.
pub open spec fn is_db_error<T>(r: Result<T, NodegetError>, m: Seq<char>) -> bool {
    r matches Err(e) && e is DatabaseError && e.message_view() == m
}

/// `CacheDbEvent` with its texts taken by value.
pub enum CacheDbEventView {
    DbUnavailable,
    QueryFailed(Seq<char>),
    RowFound(MonitoringUuidRow),
    RowMissing,
    UpdateFailed(Seq<char>),
    Updated,
    Inserted(i32),
    InsertConflict(Seq<char>),
    InsertFailed(Seq<char>),
}

impl View for CacheDbEvent {
    type V = CacheDbEventView;

    open spec fn view(&self) -> CacheDbEventView {
        match self {
            CacheDbEvent::DbUnavailable => CacheDbEventView::DbUnavailable,
            CacheDbEvent::QueryFailed(e) => CacheDbEventView::QueryFailed(e@),
            CacheDbEvent::RowFound(r) => CacheDbEventView::RowFound(*r),
            CacheDbEvent::RowMissing => CacheDbEventView::RowMissing,
            CacheDbEvent::UpdateFailed(e) => CacheDbEventView::UpdateFailed(e@),
            CacheDbEvent::Updated => CacheDbEventView::Updated,
            CacheDbEvent::Inserted(id) => CacheDbEventView::Inserted(*id),
            CacheDbEvent::InsertConflict(e) => CacheDbEventView::InsertConflict(e@),
            CacheDbEvent::InsertFailed(e) => CacheDbEventView::InsertFailed(e@),
        }
    }
}

/// `GetOrInsertStep` by value; a failure is given by its message (every
/// failure of `get_or_insert` is a `DatabaseError`).
pub enum GetOrInsertStepView {
    QueryRow,
    Resurrect(MonitoringUuidRow),
    InsertRow,
    RequeryAfterConflict(Seq<char>),
    ResurrectAfterConflict(MonitoringUuidRow),
    Done(Result<i16, Seq<char>>),
}

impl View for GetOrInsertStep {
    type V = GetOrInsertStepView;

    open spec fn view(&self) -> GetOrInsertStepView {
        match self {
            GetOrInsertStep::QueryRow => GetOrInsertStepView::QueryRow,
            GetOrInsertStep::Resurrect(r) => GetOrInsertStepView::Resurrect(*r),
            GetOrInsertStep::InsertRow => GetOrInsertStepView::InsertRow,
            GetOrInsertStep::RequeryAfterConflict(e) => GetOrInsertStepView::RequeryAfterConflict(e@),
            GetOrInsertStep::ResurrectAfterConflict(r) => GetOrInsertStepView::ResurrectAfterConflict(*r),
            GetOrInsertStep::Done(Ok(id)) => GetOrInsertStepView::Done(Ok(*id)),
            GetOrInsertStep::Done(Err(e)) => GetOrInsertStepView::Done(Err(e.message_view())),
        }
    }
}

/// `SoftDeleteStep` by value; a failure is given by its message.
pub enum SoftDeleteStepView {
    QueryRow,
    MarkDeleted(MonitoringUuidRow),
    Done(Result<bool, Seq<char>>),
}

impl View for SoftDeleteStep {
    type V = SoftDeleteStepView;

    open spec fn view(&self) -> SoftDeleteStepView {
        match self {
            SoftDeleteStep::QueryRow => SoftDeleteStepView::QueryRow,
            SoftDeleteStep::MarkDeleted(r) => SoftDeleteStepView::MarkDeleted(*r),
            SoftDeleteStep::Done(Ok(b)) => SoftDeleteStepView::Done(Ok(*b)),
            SoftDeleteStep::Done(Err(e)) => SoftDeleteStepView::Done(Err(e.message_view())),
        }
    }
}

/// The cache maps after recording `uuid <-> id` with mark `soft_delete`.
pub open spec fn recorded(
    m: (Map<u128, (i16, bool)>, Map<i16, (u128, bool)>),
    uuid: u128,
    id: i16,
    soft_delete: bool,
) -> (Map<u128, (i16, bool)>, Map<i16, (u128, bool)>) {
    (m.0.insert(uuid, (id, soft_delete)), m.1.insert(id, (uuid, soft_delete)))
}

/// First step of `get_or_insert(uuid)` on the cache maps `m`.
pub open spec fn get_or_insert_begin(m: (Map<u128, (i16, bool)>, Map<i16, (u128, bool)>), uuid: u128) -> GetOrInsertStepView {
    if m.0.contains_key(uuid) && !m.0[uuid].1 {
        GetOrInsertStepView::Done(Ok(m.0[uuid].0))
    } else {
        GetOrInsertStepView::QueryRow
    }
}

/// The next step of `get_or_insert(uuid)` and the cache maps after it, from
/// the maps `m`, the step `step` and the database's answer `ev`.
pub open spec fn get_or_insert_next(
    uuid: u128,
    m: (Map<u128, (i16, bool)>, Map<i16, (u128, bool)>),
    step: GetOrInsertStepView,
    ev: CacheDbEventView,
) -> (GetOrInsertStepView, (Map<u128, (i16, bool)>, Map<i16, (u128, bool)>)) {
    match (step, ev) {
        (GetOrInsertStepView::QueryRow, CacheDbEventView::DbUnavailable) =>
            (GetOrInsertStepView::Done(Err("Database connection not initialized"@)), m),
        (GetOrInsertStepView::QueryRow, CacheDbEventView::QueryFailed(e)) =>
            (GetOrInsertStepView::Done(Err("Failed to query monitoring_uuid: "@ + e)), m),
        (GetOrInsertStepView::RequeryAfterConflict(_), CacheDbEventView::QueryFailed(e)) =>
            (GetOrInsertStepView::Done(Err("Failed to query monitoring_uuid after unique conflict: "@ + e)), m),
        (GetOrInsertStepView::QueryRow, CacheDbEventView::RowFound(row)) =>
            if !id_fits(row.id) {
                (GetOrInsertStepView::Done(Err(id_range_text(row.id, uuid))), m)
            } else if row.soft_delete {
                (GetOrInsertStepView::Resurrect(row), m)
            } else {
                (GetOrInsertStepView::Done(Ok(row.id as i16)), recorded(m, uuid, row.id as i16, false))
            },
        (GetOrInsertStepView::RequeryAfterConflict(_), CacheDbEventView::RowFound(row)) =>
            if !id_fits(row.id) {
                (GetOrInsertStepView::Done(Err(inserted_id_range_text(uuid))), m)
            } else if row.soft_delete {
                (GetOrInsertStepView::ResurrectAfterConflict(row), m)
            } else {
                (GetOrInsertStepView::Done(Ok(row.id as i16)), recorded(m, uuid, row.id as i16, false))
            },
        (GetOrInsertStepView::QueryRow, CacheDbEventView::RowMissing) => (GetOrInsertStepView::InsertRow, m),
        (GetOrInsertStepView::RequeryAfterConflict(c), CacheDbEventView::RowMissing) =>
            (GetOrInsertStepView::Done(Err("monitoring_uuid insert conflicted but row not found: "@ + c)), m),
        (GetOrInsertStepView::Resurrect(_), CacheDbEventView::UpdateFailed(e)) =>
            (GetOrInsertStepView::Done(Err("Failed to resurrect monitoring_uuid: "@ + e)), m),
        (GetOrInsertStepView::ResurrectAfterConflict(_), CacheDbEventView::UpdateFailed(e)) =>
            (GetOrInsertStepView::Done(Err("Failed to resurrect monitoring_uuid after conflict: "@ + e)), m),
        (GetOrInsertStepView::Resurrect(row), CacheDbEventView::Updated) =>
            if id_fits(row.id) {
                (GetOrInsertStepView::Done(Ok(row.id as i16)), recorded(m, uuid, row.id as i16, false))
            } else {
                (GetOrInsertStepView::Done(Err(id_range_text(row.id, uuid))), m)
            },
        (GetOrInsertStepView::ResurrectAfterConflict(row), CacheDbEventView::Updated) =>
            if id_fits(row.id) {
                (GetOrInsertStepView::Done(Ok(row.id as i16)), recorded(m, uuid, row.id as i16, false))
            } else {
                (GetOrInsertStepView::Done(Err(id_range_text(row.id, uuid))), m)
            },
        (GetOrInsertStepView::InsertRow, CacheDbEventView::Inserted(id)) =>
            if id_fits(id) {
                (GetOrInsertStepView::Done(Ok(id as i16)), recorded(m, uuid, id as i16, false))
            } else {
                (GetOrInsertStepView::Done(Err(inserted_id_range_text(uuid))), m)
            },
        (GetOrInsertStepView::InsertRow, CacheDbEventView::InsertConflict(e)) =>
            (GetOrInsertStepView::RequeryAfterConflict(e), m),
        (GetOrInsertStepView::InsertRow, CacheDbEventView::InsertFailed(e)) =>
            (GetOrInsertStepView::Done(Err("Failed to insert monitoring_uuid: "@ + e)), m),
        _ => (step, m),
    }
}

/// The next step of `soft_delete(uuid)` and the cache maps after it.
pub open spec fn soft_delete_next(
    uuid: u128,
    m: (Map<u128, (i16, bool)>, Map<i16, (u128, bool)>),
    step: SoftDeleteStepView,
    ev: CacheDbEventView,
) -> (SoftDeleteStepView, (Map<u128, (i16, bool)>, Map<i16, (u128, bool)>)) {
    match (step, ev) {
        (SoftDeleteStepView::QueryRow, CacheDbEventView::DbUnavailable) =>
            (SoftDeleteStepView::Done(Err("Database connection not initialized"@)), m),
        (SoftDeleteStepView::QueryRow, CacheDbEventView::QueryFailed(e)) =>
            (SoftDeleteStepView::Done(Err("Failed to query monitoring_uuid for soft_delete: "@ + e)), m),
        (SoftDeleteStepView::QueryRow, CacheDbEventView::RowMissing) => (SoftDeleteStepView::Done(Ok(false)), m),
        (SoftDeleteStepView::QueryRow, CacheDbEventView::RowFound(row)) =>
            if row.soft_delete {
                (SoftDeleteStepView::Done(Ok(true)), m)
            } else if !id_fits(row.id) {
                (SoftDeleteStepView::Done(Err(id_range_text(row.id, uuid))), m)
            } else {
                (SoftDeleteStepView::MarkDeleted(row), m)
            },
        (SoftDeleteStepView::MarkDeleted(_), CacheDbEventView::UpdateFailed(e)) =>
            (SoftDeleteStepView::Done(Err("Failed to soft_delete monitoring_uuid: "@ + e)), m),
        (SoftDeleteStepView::MarkDeleted(row), CacheDbEventView::Updated) =>
            if id_fits(row.id) {
                (SoftDeleteStepView::Done(Ok(true)), recorded(m, uuid, row.id as i16, true))
            } else {
                (SoftDeleteStepView::Done(Err(id_range_text(row.id, uuid))), m)
            },
        _ => (step, m),
    }
}

fn id_range_error(id: i32, uuid: u128) -> (e: NodegetError)
    ensures
        e is DatabaseError,
        e.message_view() == id_range_text(id, uuid),
{
    let mut m = String::new();
    m.append("monitoring_uuid id ");
    push_decimal_i64(&mut m, id as i64);
    m.append(" for ");
    push_uuid(&mut m, uuid);
    m.append(" exceeds i16 range; migrate uuid_id columns to i32");
    assert(m@ =~= id_range_text(id, uuid));
    NodegetError::DatabaseError(m)
}

fn inserted_id_range_error(uuid: u128) -> (e: NodegetError)
    ensures
        e is DatabaseError,
        e.message_view() == inserted_id_range_text(uuid),
{
    let mut m = String::new();
    m.append("monitoring_uuid id for ");
    push_uuid(&mut m, uuid);
    m.append(" exceeds i16 range after insert/conflict; migrate uuid_id columns to i32");
    assert(m@ =~= inserted_id_range_text(uuid));
    NodegetError::DatabaseError(m)
}


/// Law: recording `uuid <-> id` keeps the two maps consistent as long as it
/// does not re-pair an already cached UUID or id with another partner.
pub proof fn law_record_keeps_consistent(
    by_uuid: Map<u128, (i16, bool)>,
    by_id: Map<i16, (u128, bool)>,
    uuid: u128,
    id: i16,
    soft_delete: bool,
)
    requires
        maps_consistent(by_uuid, by_id),
        by_uuid.contains_key(uuid) ==> by_uuid[uuid].0 == id,
        by_id.contains_key(id) ==> by_id[id].0 == uuid,
    ensures
        maps_consistent(by_uuid.insert(uuid, (id, soft_delete)), by_id.insert(id, (uuid, soft_delete))),
{
    let bu = by_uuid.insert(uuid, (id, soft_delete));
    let bi = by_id.insert(id, (uuid, soft_delete));
    assert forall|u: u128| #[trigger] bu.contains_key(u) implies bi.contains_key(bu[u].0) && bi[bu[u].0] == (u, bu[u].1) by {
        if u != uuid {
            assert(by_uuid.contains_key(u));
            assert(by_id.contains_key(by_uuid[u].0));
            if by_uuid[u].0 == id {
                assert(by_id[id].0 == u);
                assert(false);
            }
        }
    }
    assert forall|i: i16| #[trigger] bi.contains_key(i) implies bu.contains_key(bi[i].0) && bu[bi[i].0] == (i, bi[i].1) by {
        if i != id {
            assert(by_id.contains_key(i));
            assert(by_uuid.contains_key(by_id[i].0));
            if by_id[i].0 == uuid {
                assert(by_uuid[uuid].0 == i);
                assert(false);
            }
        }
    }
}

/// Every UUID in the map built from `rows` comes from some row.
pub proof fn lemma_rows_by_uuid_origin(rows: Seq<MonitoringUuidRow>, u: u128)
    requires
        rows_by_uuid(rows).contains_key(u),
    ensures
        exists|k: int| 0 <= k < rows.len() && rows[k].uuid == u,
    decreases rows.len(),
{
    let r = rows.last();
    if id_fits(r.id) && r.uuid == u {
        assert(rows[rows.len() - 1].uuid == u);
    } else {
        lemma_rows_by_uuid_origin(rows.drop_last(), u);
        let k = choose|k: int| 0 <= k < rows.drop_last().len() && rows.drop_last()[k].uuid == u;
        assert(rows[k].uuid == u);
    }
}

/// Every id in the map built from `rows` comes from some row whose id fits.
pub proof fn lemma_rows_by_id_origin(rows: Seq<MonitoringUuidRow>, i: i16)
    requires
        rows_by_id(rows).contains_key(i),
    ensures
        exists|k: int| 0 <= k < rows.len() && id_fits(rows[k].id) && rows[k].id as i16 == i,
    decreases rows.len(),
{
    let r = rows.last();
    if id_fits(r.id) && r.id as i16 == i {
        assert(rows[rows.len() - 1].id as i16 == i);
    } else {
        lemma_rows_by_id_origin(rows.drop_last(), i);
        let k = choose|k: int| 0 <= k < rows.drop_last().len() && id_fits(rows.drop_last()[k].id) && rows.drop_last()[k].id as i16 == i;
        assert(rows[k].id == rows.drop_last()[k].id);
    }
}

/// Law: a cache built from rows with distinct UUIDs and distinct ids (what
/// the table's primary key and UNIQUE(uuid) guarantee) is consistent.
pub proof fn law_build_from_unique_rows_is_consistent(rows: Seq<MonitoringUuidRow>)
    requires
        forall|a: int, b: int| 0 <= a < b < rows.len() ==> rows[a].uuid != rows[b].uuid,
        forall|a: int, b: int| 0 <= a < b < rows.len() ==> rows[a].id != rows[b].id,
    ensures
        maps_consistent(rows_by_uuid(rows), rows_by_id(rows)),
    decreases rows.len(),
{
    if rows.len() > 0 {
        let prefix = rows.drop_last();
        let r = rows.last();
        law_build_from_unique_rows_is_consistent(prefix);
        if id_fits(r.id) {
            let bu = rows_by_uuid(prefix);
            let bi = rows_by_id(prefix);
            if bu.contains_key(r.uuid) {
                lemma_rows_by_uuid_origin(prefix, r.uuid);
                let k = choose|k: int| 0 <= k < prefix.len() && prefix[k].uuid == r.uuid;
                assert(rows[k].uuid == rows[rows.len() - 1].uuid);
            }
            if bi.contains_key(r.id as i16) {
                lemma_rows_by_id_origin(prefix, r.id as i16);
                let k = choose|k: int| 0 <= k < prefix.len() && id_fits(prefix[k].id) && prefix[k].id as i16 == r.id as i16;
                assert(rows[k].id == rows[rows.len() - 1].id);
            }
            law_record_keeps_consistent(bu, bi, r.uuid, r.id as i16, r.soft_delete);
        }
    }
}

/// Law: reading back what `get_or_insert` or `soft_delete` recorded gives
/// the recorded pair: `get_id(uuid)` is the id, `get_uuid(id)` is the UUID,
/// and `is_active(uuid)` is the opposite of the recorded mark.
pub proof fn law_read_after_record(
    by_uuid: Map<u128, (i16, bool)>,
    by_id: Map<i16, (u128, bool)>,
    uuid: u128,
    id: i16,
    soft_delete: bool,
)
    ensures
        by_uuid.insert(uuid, (id, soft_delete)).contains_key(uuid),
        by_uuid.insert(uuid, (id, soft_delete))[uuid].0 == id,
        by_id.insert(id, (uuid, soft_delete)).contains_key(id),
        by_id.insert(id, (uuid, soft_delete))[id].0 == uuid,
        (by_uuid.insert(uuid, (id, soft_delete)).contains_key(uuid) && !by_uuid.insert(uuid, (id, soft_delete))[uuid].1) == !soft_delete,
{
}

/// Monitoring UUID cache: UUID <-> id in both directions, with the
/// soft-delete mark of each entry. Soft-deleted entries stay in the cache but
/// are not listed as active.
pub struct MonitoringUuidCache {
    by_uuid: HashMap<u128, (i16, bool)>,
    by_id: HashMap<i16, (u128, bool)>,
}

impl MonitoringUuidCache {
    /// The UUID-keyed side of the cache.
    pub closed spec fn uuid_map(&self) -> Map<u128, (i16, bool)> {
        self.by_uuid@
    }

    /// The id-keyed side of the cache.
    pub closed spec fn id_map(&self) -> Map<i16, (u128, bool)> {
        self.by_id@
    }

    /// Both sides agree with each other.
    pub open spec fn consistent(&self) -> bool {
        maps_consistent(self.uuid_map(), self.id_map())
    }

    /// The UUIDs that are present and not soft-deleted.
    pub open spec fn active_uuids(&self) -> Set<u128> {
        Set::new(|u: u128| self.uuid_map().contains_key(u) && !self.uuid_map()[u].1)
    }

    /// An empty cache.
    pub fn new() -> (c: Self)
        ensures
            c.uuid_map() == Map::<u128, (i16, bool)>::empty(),
            c.id_map() == Map::<i16, (u128, bool)>::empty(),
    {
        MonitoringUuidCache { by_uuid: HashMap::new(), by_id: HashMap::new() }
    }

    /// Records `uuid <-> id` with the given soft-delete mark on both sides.
    fn record(&mut self, uuid: u128, id: i16, soft_delete: bool)
        ensures
            final(self).uuid_map() == old(self).uuid_map().insert(uuid, (id, soft_delete)),
            final(self).id_map() == old(self).id_map().insert(id, (uuid, soft_delete)),
    {
        broadcast use vstd::std_specs::hash::group_hash_axioms;
        self.by_uuid.insert(uuid, (id, soft_delete));
        self.by_id.insert(id, (uuid, soft_delete));
    }

    /// Builds the maps of a cache from database rows (see `rows_by_uuid`).
    fn maps_from_rows(rows: &Vec<MonitoringUuidRow>) -> (r: (HashMap<u128, (i16, bool)>, HashMap<i16, (u128, bool)>))
        ensures
            r.0@ == rows_by_uuid(rows@),
            r.1@ == rows_by_id(rows@),
    {
        broadcast use vstd::std_specs::hash::group_hash_axioms;
        let mut by_uuid: HashMap<u128, (i16, bool)> = HashMap::with_capacity(rows.len());
        let mut by_id: HashMap<i16, (u128, bool)> = HashMap::with_capacity(rows.len());
        let mut k: usize = 0;
        while k < rows.len()
            invariant
                k <= rows.len(),
                by_uuid@ == rows_by_uuid(rows@.take(k as int)),
                by_id@ == rows_by_id(rows@.take(k as int)),
            decreases rows.len() - k,
        {
            let row = rows[k];
            assert(rows@.take(k + 1).drop_last() =~= rows@.take(k as int));
            match try_id_i16(row.id) {
                Some(id) => {
                    by_uuid.insert(row.uuid, (id, row.soft_delete));
                    by_id.insert(id, (row.uuid, row.soft_delete));
                },
                None => {},
            }
            k = k + 1;
        }
        assert(rows@.take(rows.len() as int) =~= rows@);
        (by_uuid, by_id)
    }

    /// Builds a cache from the rows of the `monitoring_uuid` table; rows whose
    /// id does not fit in `i16` are skipped.
    pub fn build_cache(rows: Vec<MonitoringUuidRow>) -> (c: Self)
        ensures
            c.uuid_map() == rows_by_uuid(rows@),
            c.id_map() == rows_by_id(rows@),
    {
        let (by_uuid, by_id) = Self::maps_from_rows(&rows);
        MonitoringUuidCache { by_uuid, by_id }
    }

    /// Replaces the whole content of the cache by the one built from `rows`.
    pub fn reload_from_models(&mut self, rows: Vec<MonitoringUuidRow>)
        ensures
            final(self).uuid_map() == rows_by_uuid(rows@),
            final(self).id_map() == rows_by_id(rows@),
    {
        let (by_uuid, by_id) = Self::maps_from_rows(&rows);
        self.by_uuid = by_uuid;
        self.by_id = by_id;
    }

    /// The id cached for `uuid`, soft-deleted or not.
    pub fn get_id(&self, uuid: u128) -> (r: Option<i16>)
        ensures
            r == (if self.uuid_map().contains_key(uuid) { Some(self.uuid_map()[uuid].0) } else { None::<i16> }),
    {
        broadcast use vstd::std_specs::hash::group_hash_axioms;
        match self.by_uuid.get(&uuid) {
            Some(e) => Some(e.0),
            None => None,
        }
    }

    /// The UUID cached for `id`, soft-deleted or not.
    pub fn get_uuid(&self, id: i16) -> (r: Option<u128>)
        ensures
            r == (if self.id_map().contains_key(id) { Some(self.id_map()[id].0) } else { None::<u128> }),
    {
        broadcast use vstd::std_specs::hash::group_hash_axioms;
        match self.by_id.get(&id) {
            Some(e) => Some(e.0),
            None => None,
        }
    }


    /// The active (not soft-deleted) UUIDs, in ascending order.
    pub fn list_all(&self) -> (r: Vec<u128>)
        ensures
            strictly_ascending(r@),
            r@.to_set() == self.active_uuids(),
    {
        broadcast use vstd::std_specs::hash::group_hash_axioms;
        let mut res: Vec<u128> = Vec::new();
        let ghost m = self.by_uuid@;
        let ghost entries = self.by_uuid.iter().remaining();
        proof {
            assert(res@.to_set() =~= Set::<u128>::empty());
        }
        for entry in it: self.by_uuid.iter()
            invariant
                m == self.by_uuid@,
                it.seq() == entries,
                entries.len() == m.dom().len(),
                entries.no_duplicates(),
                forall|i: int| 0 <= i < entries.len() ==> #[trigger] m.contains_key(*entries[i].0) && m[*entries[i].0] == *entries[i].1,
                forall|k: u128| #[trigger] m.contains_key(k) ==> entries.contains((&k, &m[k])),
                strictly_ascending(res@),
                forall|u: u128| res@.to_set().contains(u) <==> (exists|j: int| 0 <= j < it.index() && *entries[j].0 == u && !(*entries[j].1).1),
        {
            let (k, v) = entry;
            let ghost idx = it.index();
            proof {
                assert(entries[idx] == (k, v));
            }
            if !v.1 {
                proof {
                    if res@.contains(*k) {
                        assert(res@.to_set().contains(*k));
                        let j = choose|j: int| 0 <= j < idx && *entries[j].0 == *k && !(*entries[j].1).1;
                        assert(m[*entries[j].0] == *entries[j].1);
                        assert(entries[j] == entries[idx]);
                        assert(false);
                    }
                }
                insert_sorted(&mut res, *k);
            }
            proof {
                assert forall|u: u128| res@.to_set().contains(u) <==> (exists|j: int| 0 <= j < idx + 1 && *entries[j].0 == u && !(*entries[j].1).1) by {
                    if exists|j: int| 0 <= j < idx + 1 && *entries[j].0 == u && !(*entries[j].1).1 {
                        let j = choose|j: int| 0 <= j < idx + 1 && *entries[j].0 == u && !(*entries[j].1).1;
                        if j < idx {
                        } else {
                        }
                    }
                }
            }
        }
        proof {
            assert forall|u: u128| res@.to_set().contains(u) <==> self.active_uuids().contains(u) by {
                if self.active_uuids().contains(u) {
                    assert(m.contains_key(u));
                    assert(entries.contains((&u, &m[u])));
                    let j = choose|j: int| 0 <= j < entries.len() && entries[j] == (&u, &m[u]);
                    assert(*entries[j].0 == u);
                }
                if res@.to_set().contains(u) {
                    let j = choose|j: int| 0 <= j < entries.len() && *entries[j].0 == u && !(*entries[j].1).1;
                    assert(m.contains_key(*entries[j].0));
                }
            }
            assert(res@.to_set() =~= self.active_uuids());
        }
        res
    }

    /// Every cached UUID with its soft-delete mark, in ascending UUID order.
    pub fn list_all_with_agent_mode(&self) -> (r: Vec<(u128, bool)>)
        ensures
            strictly_ascending_by_key(r@),
            r@.to_set() == self.uuid_map().kv_pairs().map(|p: (u128, (i16, bool))| (p.0, p.1.1)),
    {
        broadcast use vstd::std_specs::hash::group_hash_axioms;
        let mut res: Vec<(u128, bool)> = Vec::new();
        let ghost m = self.by_uuid@;
        let ghost entries = self.by_uuid.iter().remaining();
        proof {
            assert(res@.to_set() =~= Set::<(u128, bool)>::empty());
        }
        for entry in it: self.by_uuid.iter()
            invariant
                m == self.by_uuid@,
                it.seq() == entries,
                entries.len() == m.dom().len(),
                entries.no_duplicates(),
                forall|i: int| 0 <= i < entries.len() ==> #[trigger] m.contains_key(*entries[i].0) && m[*entries[i].0] == *entries[i].1,
                forall|k: u128| #[trigger] m.contains_key(k) ==> entries.contains((&k, &m[k])),
                strictly_ascending_by_key(res@),
                forall|p: (u128, bool)| res@.to_set().contains(p) <==> (exists|j: int| 0 <= j < it.index() && *entries[j].0 == p.0 && (*entries[j].1).1 == p.1),
        {
            let (k, v) = entry;
            let ghost idx = it.index();
            proof {
                assert(entries[idx] == (k, v));
                assert forall|j: int| 0 <= j < res@.len() implies res@[j].0 != *k by {
                    if res@[j].0 == *k {
                        assert(res@.to_set().contains(res@[j]));
                        let i = choose|i: int| 0 <= i < idx && *entries[i].0 == res@[j].0 && (*entries[i].1).1 == res@[j].1;
                        assert(m[*entries[i].0] == *entries[i].1);
                        assert(entries[i] == entries[idx]);
                        assert(false);
                    }
                }
            }
            insert_sorted_by_key(&mut res, (*k, v.1));
            proof {
                assert forall|p: (u128, bool)| res@.to_set().contains(p) <==> (exists|j: int| 0 <= j < idx + 1 && *entries[j].0 == p.0 && (*entries[j].1).1 == p.1) by {
                    if exists|j: int| 0 <= j < idx + 1 && *entries[j].0 == p.0 && (*entries[j].1).1 == p.1 {
                        let j = choose|j: int| 0 <= j < idx + 1 && *entries[j].0 == p.0 && (*entries[j].1).1 == p.1;
                        if j < idx {
                        } else {
                        }
                    }
                }
            }
        }
        proof {
            let target = m.kv_pairs().map(|p: (u128, (i16, bool))| (p.0, p.1.1));
            assert forall|p: (u128, bool)| res@.to_set().contains(p) <==> target.contains(p) by {
                if target.contains(p) {
                    let q = choose|q: (u128, (i16, bool))| m.kv_pairs().contains(q) && (q.0, q.1.1) == p;
                    assert(m.contains_key(q.0));
                    assert(entries.contains((&q.0, &m[q.0])));
                    let j = choose|j: int| 0 <= j < entries.len() && entries[j] == (&q.0, &m[q.0]);
                    assert(*entries[j].0 == p.0);
                }
                if res@.to_set().contains(p) {
                    let j = choose|j: int| 0 <= j < entries.len() && *entries[j].0 == p.0 && (*entries[j].1).1 == p.1;
                    assert(m.contains_key(*entries[j].0));
                    let q = (p.0, m[p.0]);
                    assert(m.kv_pairs().contains(q));
                }
            }
            assert(res@.to_set() =~= target);
        }
        res
    }


    /// First step of `get_or_insert(uuid)`: a cached active UUID answers at
    /// once with its id; otherwise the row must be looked up.
    pub fn get_or_insert_start(&self, uuid: u128) -> (r: GetOrInsertStep)
        ensures
            r@ == get_or_insert_begin((self.uuid_map(), self.id_map()), uuid),
            if self.uuid_map().contains_key(uuid) && !self.uuid_map()[uuid].1 {
                r == GetOrInsertStep::Done(Ok(self.uuid_map()[uuid].0))
            } else {
                r is QueryRow
            },
    {
        match self.get_active_id(uuid) {
            Some(id) => GetOrInsertStep::Done(Ok(id)),
            None => GetOrInsertStep::QueryRow,
        }
    }

    /// One step of `get_or_insert(uuid)`: the UUID's id, inserting a row for
    /// it or resurrecting its soft-deleted row when needed.
    ///
    /// The caller begins with `get_or_insert_start`, then performs each returned
    /// step against the database and answers with what happened, until `Done`.
    /// An event that does not answer the given step changes nothing.
    pub fn get_or_insert_step(&mut self, uuid: u128, step: GetOrInsertStep, event: CacheDbEvent) -> (r: GetOrInsertStep)
        ensures
            (r@, (final(self).uuid_map(), final(self).id_map()))
                == get_or_insert_next(uuid, (old(self).uuid_map(), old(self).id_map()), step@, event@),
            r matches GetOrInsertStep::Done(Err(e)) ==> (e is DatabaseError || step is Done),
            // every success leaves the UUID cached as active with the returned id,
            // mirrored on the id side
            !(step is Done) ==> (r matches GetOrInsertStep::Done(Ok(id)) ==> final(self).uuid_map().contains_key(uuid)
                && final(self).uuid_map()[uuid] == (id, false)
                && final(self).id_map().contains_key(id) && final(self).id_map()[id] == (uuid, false)),
            !answers_get_or_insert(step, event) ==> r == step
                && final(self).uuid_map() == old(self).uuid_map() && final(self).id_map() == old(self).id_map(),
            (step is QueryRow && event is DbUnavailable) ==> r is Done && is_db_error(r->Done_0, "Database connection not initialized"@)
                && final(self).uuid_map() == old(self).uuid_map() && final(self).id_map() == old(self).id_map(),
            (step is QueryRow && event is QueryFailed) ==> is_db_error(r->Done_0, "Failed to query monitoring_uuid: "@ + event->QueryFailed_0@)
                && r is Done && final(self).uuid_map() == old(self).uuid_map() && final(self).id_map() == old(self).id_map(),
            (step is QueryRow && event is RowFound) ==> {
                let row = event->RowFound_0;
                if !id_fits(row.id) {
                    r is Done && is_db_error(r->Done_0, id_range_text(row.id, uuid))
                        && final(self).uuid_map() == old(self).uuid_map() && final(self).id_map() == old(self).id_map()
                } else if row.soft_delete {
                    r == GetOrInsertStep::Resurrect(row)
                        && final(self).uuid_map() == old(self).uuid_map() && final(self).id_map() == old(self).id_map()
                } else {
                    r == GetOrInsertStep::Done(Ok(row.id as i16))
                        && final(self).uuid_map() == old(self).uuid_map().insert(uuid, (row.id as i16, false))
                        && final(self).id_map() == old(self).id_map().insert(row.id as i16, (uuid, false))
                }
            },
            (step is QueryRow && event is RowMissing) ==> r is InsertRow
                && final(self).uuid_map() == old(self).uuid_map() && final(self).id_map() == old(self).id_map(),
            ((step is Resurrect || step is ResurrectAfterConflict) && event is Updated) ==> {
                let row = if step is Resurrect { step->Resurrect_0 } else { step->ResurrectAfterConflict_0 };
                if id_fits(row.id) {
                    r == GetOrInsertStep::Done(Ok(row.id as i16))
                        && final(self).uuid_map() == old(self).uuid_map().insert(uuid, (row.id as i16, false))
                        && final(self).id_map() == old(self).id_map().insert(row.id as i16, (uuid, false))
                } else {
                    r is Done && is_db_error(r->Done_0, id_range_text(row.id, uuid))
                        && final(self).uuid_map() == old(self).uuid_map() && final(self).id_map() == old(self).id_map()
                }
            },
            (step is Resurrect && event is UpdateFailed) ==> r is Done
                && is_db_error(r->Done_0, "Failed to resurrect monitoring_uuid: "@ + event->UpdateFailed_0@)
                && final(self).uuid_map() == old(self).uuid_map() && final(self).id_map() == old(self).id_map(),
            (step is InsertRow && event is Inserted) ==> {
                let id = event->Inserted_0;
                if id_fits(id) {
                    r == GetOrInsertStep::Done(Ok(id as i16))
                        && final(self).uuid_map() == old(self).uuid_map().insert(uuid, (id as i16, false))
                        && final(self).id_map() == old(self).id_map().insert(id as i16, (uuid, false))
                } else {
                    r is Done && is_db_error(r->Done_0, inserted_id_range_text(uuid))
                        && final(self).uuid_map() == old(self).uuid_map() && final(self).id_map() == old(self).id_map()
                }
            },
            (step is InsertRow && event is InsertFailed) ==> r is Done
                && is_db_error(r->Done_0, "Failed to insert monitoring_uuid: "@ + event->InsertFailed_0@)
                && final(self).uuid_map() == old(self).uuid_map() && final(self).id_map() == old(self).id_map(),
            (step is InsertRow && event is InsertConflict) ==> r is RequeryAfterConflict
                && r->RequeryAfterConflict_0@ == event->InsertConflict_0@
                && final(self).uuid_map() == old(self).uuid_map() && final(self).id_map() == old(self).id_map(),
            (step is RequeryAfterConflict && event is QueryFailed) ==> r is Done
                && is_db_error(r->Done_0, "Failed to query monitoring_uuid after unique conflict: "@ + event->QueryFailed_0@)
                && final(self).uuid_map() == old(self).uuid_map() && final(self).id_map() == old(self).id_map(),
            (step is RequeryAfterConflict && event is RowMissing) ==> r is Done
                && is_db_error(r->Done_0, "monitoring_uuid insert conflicted but row not found: "@ + step->RequeryAfterConflict_0@)
                && final(self).uuid_map() == old(self).uuid_map() && final(self).id_map() == old(self).id_map(),
            (step is RequeryAfterConflict && event is RowFound) ==> {
                let row = event->RowFound_0;
                if !id_fits(row.id) {
                    r is Done && is_db_error(r->Done_0, inserted_id_range_text(uuid))
                        && final(self).uuid_map() == old(self).uuid_map() && final(self).id_map() == old(self).id_map()
                } else if row.soft_delete {
                    r == GetOrInsertStep::ResurrectAfterConflict(row)
                        && final(self).uuid_map() == old(self).uuid_map() && final(self).id_map() == old(self).id_map()
                } else {
                    r == GetOrInsertStep::Done(Ok(row.id as i16))
                        && final(self).uuid_map() == old(self).uuid_map().insert(uuid, (row.id as i16, false))
                        && final(self).id_map() == old(self).id_map().insert(row.id as i16, (uuid, false))
                }
            },
            (step is ResurrectAfterConflict && event is UpdateFailed) ==> r is Done
                && is_db_error(r->Done_0, "Failed to resurrect monitoring_uuid after conflict: "@ + event->UpdateFailed_0@)
                && final(self).uuid_map() == old(self).uuid_map() && final(self).id_map() == old(self).id_map(),
    {
        match event {
            CacheDbEvent::DbUnavailable => {
                match step {
                    GetOrInsertStep::QueryRow => {
                        proof { reveal_strlit(""); }
                        let e = database_error("Database connection not initialized", "");
                        assert("Database connection not initialized"@ + ""@ =~= "Database connection not initialized"@);
                        GetOrInsertStep::Done(Err(e))
                    },
                    other => other,
                }
            },
            CacheDbEvent::QueryFailed(e) => {
                match step {
                    GetOrInsertStep::QueryRow => GetOrInsertStep::Done(
                        Err(database_error("Failed to query monitoring_uuid: ", e.as_str())),
                    ),
                    GetOrInsertStep::RequeryAfterConflict(c) => GetOrInsertStep::Done(
                        Err(database_error("Failed to query monitoring_uuid after unique conflict: ", e.as_str())),
                    ),
                    other => other,
                }
            },
            CacheDbEvent::RowFound(row) => {
                match step {
                    GetOrInsertStep::QueryRow => {
                        match try_id_i16(row.id) {
                            None => GetOrInsertStep::Done(Err(id_range_error(row.id, uuid))),
                            Some(id) => {
                                if row.soft_delete {
                                    GetOrInsertStep::Resurrect(row)
                                } else {
                                    self.record(uuid, id, false);
                                    GetOrInsertStep::Done(Ok(id))
                                }
                            },
                        }
                    },
                    GetOrInsertStep::RequeryAfterConflict(c) => {
                        match try_id_i16(row.id) {
                            None => GetOrInsertStep::Done(Err(inserted_id_range_error(uuid))),
                            Some(id) => {
                                if row.soft_delete {
                                    GetOrInsertStep::ResurrectAfterConflict(row)
                                } else {
                                    self.record(uuid, id, false);
                                    GetOrInsertStep::Done(Ok(id))
                                }
                            },
                        }
                    },
                    other => other,
                }
            },
            CacheDbEvent::RowMissing => {
                match step {
                    GetOrInsertStep::QueryRow => GetOrInsertStep::InsertRow,
                    GetOrInsertStep::RequeryAfterConflict(conflict) => GetOrInsertStep::Done(
                        Err(database_error("monitoring_uuid insert conflicted but row not found: ", conflict.as_str())),
                    ),
                    other => other,
                }
            },
            CacheDbEvent::UpdateFailed(e) => {
                match step {
                    GetOrInsertStep::Resurrect(rw) => GetOrInsertStep::Done(
                        Err(database_error("Failed to resurrect monitoring_uuid: ", e.as_str())),
                    ),
                    GetOrInsertStep::ResurrectAfterConflict(rw) => GetOrInsertStep::Done(
                        Err(database_error("Failed to resurrect monitoring_uuid after conflict: ", e.as_str())),
                    ),
                    other => other,
                }
            },
            CacheDbEvent::Updated => {
                match step {
                    GetOrInsertStep::Resurrect(row) | GetOrInsertStep::ResurrectAfterConflict(row) => {
                        match try_id_i16(row.id) {
                            None => GetOrInsertStep::Done(Err(id_range_error(row.id, uuid))),
                            Some(id) => {
                                self.record(uuid, id, false);
                                GetOrInsertStep::Done(Ok(id))
                            },
                        }
                    },
                    other => other,
                }
            },
            CacheDbEvent::Inserted(new_id) => {
                match step {
                    GetOrInsertStep::InsertRow => {
                        match try_id_i16(new_id) {
                            None => GetOrInsertStep::Done(Err(inserted_id_range_error(uuid))),
                            Some(id) => {
                                self.record(uuid, id, false);
                                GetOrInsertStep::Done(Ok(id))
                            },
                        }
                    },
                    other => other,
                }
            },
            CacheDbEvent::InsertConflict(e) => {
                match step {
                    GetOrInsertStep::InsertRow => GetOrInsertStep::RequeryAfterConflict(e),
                    other => other,
                }
            },
            CacheDbEvent::InsertFailed(e) => {
                match step {
                    GetOrInsertStep::InsertRow => GetOrInsertStep::Done(
                        Err(database_error("Failed to insert monitoring_uuid: ", e.as_str())),
                    ),
                    other => other,
                }
            },
        }
    }

    /// First step of `soft_delete(uuid)`: the row is always looked up.
    pub fn soft_delete_start(&self, uuid: u128) -> (r: SoftDeleteStep)
        ensures
            r is QueryRow,
            r@ == SoftDeleteStepView::QueryRow,
    {
        SoftDeleteStep::QueryRow
    }

    /// One step of `soft_delete(uuid)`: marks the UUID soft-deleted in the
    /// database and in the cache. `Ok(true)` when it is (or already was)
    /// marked, `Ok(false)` when the UUID has no row. An event that does not
    /// answer the given step changes nothing.
    pub fn soft_delete_step(&mut self, uuid: u128, step: SoftDeleteStep, event: CacheDbEvent) -> (r: SoftDeleteStep)
        ensures
            (r@, (final(self).uuid_map(), final(self).id_map()))
                == soft_delete_next(uuid, (old(self).uuid_map(), old(self).id_map()), step@, event@),
            r matches SoftDeleteStep::Done(Err(e)) ==> (e is DatabaseError || step is Done),
            !answers_soft_delete(step, event) ==> r == step
                && final(self).uuid_map() == old(self).uuid_map() && final(self).id_map() == old(self).id_map(),
            (step is QueryRow && event is DbUnavailable) ==> r is Done && is_db_error(r->Done_0, "Database connection not initialized"@)
                && final(self).uuid_map() == old(self).uuid_map() && final(self).id_map() == old(self).id_map(),
            (step is QueryRow && event is QueryFailed) ==> r is Done
                && is_db_error(r->Done_0, "Failed to query monitoring_uuid for soft_delete: "@ + event->QueryFailed_0@)
                && final(self).uuid_map() == old(self).uuid_map() && final(self).id_map() == old(self).id_map(),
            (step is QueryRow && event is RowMissing) ==> r == SoftDeleteStep::Done(Ok(false))
                && final(self).uuid_map() == old(self).uuid_map() && final(self).id_map() == old(self).id_map(),
            (step is QueryRow && event is RowFound) ==> {
                let row = event->RowFound_0;
                if row.soft_delete {
                    r == SoftDeleteStep::Done(Ok(true))
                        && final(self).uuid_map() == old(self).uuid_map() && final(self).id_map() == old(self).id_map()
                } else if !id_fits(row.id) {
                    r is Done && is_db_error(r->Done_0, id_range_text(row.id, uuid))
                        && final(self).uuid_map() == old(self).uuid_map() && final(self).id_map() == old(self).id_map()
                } else {
                    r == SoftDeleteStep::MarkDeleted(row)
                        && final(self).uuid_map() == old(self).uuid_map() && final(self).id_map() == old(self).id_map()
                }
            },
            (step is MarkDeleted && event is UpdateFailed) ==> r is Done
                && is_db_error(r->Done_0, "Failed to soft_delete monitoring_uuid: "@ + event->UpdateFailed_0@)
                && final(self).uuid_map() == old(self).uuid_map() && final(self).id_map() == old(self).id_map(),
            (step is MarkDeleted && event is Updated) ==> {
                let row = step->MarkDeleted_0;
                if id_fits(row.id) {
                    r == SoftDeleteStep::Done(Ok(true))
                        && final(self).uuid_map() == old(self).uuid_map().insert(uuid, (row.id as i16, true))
                        && final(self).id_map() == old(self).id_map().insert(row.id as i16, (uuid, true))
                } else {
                    r is Done && is_db_error(r->Done_0, id_range_text(row.id, uuid))
                        && final(self).uuid_map() == old(self).uuid_map() && final(self).id_map() == old(self).id_map()
                }
            },
    {
        match event {
            CacheDbEvent::DbUnavailable => {
                match step {
                    SoftDeleteStep::QueryRow => {
                        proof { reveal_strlit(""); }
                        let e = database_error("Database connection not initialized", "");
                        assert("Database connection not initialized"@ + ""@ =~= "Database connection not initialized"@);
                        SoftDeleteStep::Done(Err(e))
                    },
                    other => other,
                }
            },
            CacheDbEvent::QueryFailed(e) => {
                match step {
                    SoftDeleteStep::QueryRow => SoftDeleteStep::Done(
                        Err(database_error("Failed to query monitoring_uuid for soft_delete: ", e.as_str())),
                    ),
                    other => other,
                }
            },
            CacheDbEvent::RowMissing => {
                match step {
                    SoftDeleteStep::QueryRow => SoftDeleteStep::Done(Ok(false)),
                    other => other,
                }
            },
            CacheDbEvent::RowFound(row) => {
                match step {
                    SoftDeleteStep::QueryRow => {
                        if row.soft_delete {
                            SoftDeleteStep::Done(Ok(true))
                        } else {
                            match try_id_i16(row.id) {
                                None => SoftDeleteStep::Done(Err(id_range_error(row.id, uuid))),
                                Some(_) => SoftDeleteStep::MarkDeleted(row),
                            }
                        }
                    },
                    other => other,
                }
            },
            CacheDbEvent::UpdateFailed(e) => {
                match step {
                    SoftDeleteStep::MarkDeleted(_) => SoftDeleteStep::Done(
                        Err(database_error("Failed to soft_delete monitoring_uuid: ", e.as_str())),
                    ),
                    other => other,
                }
            },
            CacheDbEvent::Updated => {
                match step {
                    SoftDeleteStep::MarkDeleted(row) => {
                        match try_id_i16(row.id) {
                            None => SoftDeleteStep::Done(Err(id_range_error(row.id, uuid))),
                            Some(id) => {
                                self.record(uuid, id, true);
                                SoftDeleteStep::Done(Ok(true))
                            },
                        }
                    },
                    other => other,
                }
            },
            CacheDbEvent::Inserted(_) | CacheDbEvent::InsertConflict(_) | CacheDbEvent::InsertFailed(_) => step,
        }
    }

    /// The cached id of `uuid` when it is cached and active.
    fn get_active_id(&self, uuid: u128) -> (r: Option<i16>)
        ensures
            r == (if self.uuid_map().contains_key(uuid) && !self.uuid_map()[uuid].1 {
                Some(self.uuid_map()[uuid].0)
            } else {
                None::<i16>
            }),
    {
        broadcast use vstd::std_specs::hash::group_hash_axioms;
        match self.by_uuid.get(&uuid) {
            Some(e) => if !e.1 { Some(e.0) } else { None },
            None => None,
        }
    }

    /// Whether `uuid` is cached and not soft-deleted.
    pub fn is_active(&self, uuid: u128) -> (r: bool)
        ensures
            r == (self.uuid_map().contains_key(uuid) && !self.uuid_map()[uuid].1),
    {
        broadcast use vstd::std_specs::hash::group_hash_axioms;
        match self.by_uuid.get(&uuid) {
            Some(e) => !e.1,
            None => false,
        }
    }

    /// Whether `uuid` is cached, soft-deleted entries included.
    pub fn uuid_exists(&self, uuid: u128) -> (r: bool)
        ensures
            r == self.uuid_map().contains_key(uuid),
    {
        broadcast use vstd::std_specs::hash::group_hash_axioms;
        self.by_uuid.contains_key(&uuid)
    }
}

/// Law: soft-deleting an active UUID and then asking for it again gives back
/// the same id. The database row `(id, uuid)` is found active by
/// `soft_delete`, marked, then found soft-deleted by `get_or_insert`, which
/// revives it without inserting a new row; the cache ends with the UUID
/// active under the same id, exactly as before the deletion.
pub proof fn law_soft_delete_then_get_or_insert_keeps_id(
    m: (Map<u128, (i16, bool)>, Map<i16, (u128, bool)>),
    uuid: u128,
    id: i16,
)
    requires
        maps_consistent(m.0, m.1),
        m.0.contains_key(uuid),
        m.0[uuid] == (id, false),
    ensures ({
        let active = MonitoringUuidRow { id: id as i32, uuid, soft_delete: false };
        let deleted = MonitoringUuidRow { id: id as i32, uuid, soft_delete: true };
        let s1 = soft_delete_next(uuid, m, SoftDeleteStepView::QueryRow, CacheDbEventView::RowFound(active));
        let s2 = soft_delete_next(uuid, s1.1, s1.0, CacheDbEventView::Updated);
        let g0 = get_or_insert_begin(s2.1, uuid);
        let g1 = get_or_insert_next(uuid, s2.1, g0, CacheDbEventView::RowFound(deleted));
        let g2 = get_or_insert_next(uuid, g1.1, g1.0, CacheDbEventView::Updated);
        &&& s1.0 == SoftDeleteStepView::MarkDeleted(active)
        &&& s2.0 == SoftDeleteStepView::Done(Ok(true))
        &&& s2.1.0[uuid] == (id, true)
        &&& g0 == GetOrInsertStepView::QueryRow
        &&& g1.0 == GetOrInsertStepView::Resurrect(deleted)
        &&& g2.0 == GetOrInsertStepView::Done(Ok(id))
        &&& g2.1.0 == m.0
        &&& g2.1.1 == m.1
    }),
{
    let s2m = recorded(m, uuid, id, true);
    let g2m = recorded(s2m, uuid, id, false);
    assert(m.1.contains_key(id) && m.1[id] == (uuid, false));
    assert(g2m.0 =~= m.0);
    assert(g2m.1 =~= m.1);
}

/// Law: two concurrent first registrations of the same UUID agree. Both miss
/// the cache and find no row; one insert wins with the row id `id`, the other
/// hits UNIQUE(uuid), reads the row back (found active, or soft-deleted by a
/// concurrent deletion and then revived) and returns the same id; each call
/// leaves the UUID cached as active under that id, whatever the cache held.
pub proof fn law_concurrent_first_registrations_agree(
    m_winner: (Map<u128, (i16, bool)>, Map<i16, (u128, bool)>),
    m_loser: (Map<u128, (i16, bool)>, Map<i16, (u128, bool)>),
    uuid: u128,
    id: i32,
    conflict: Seq<char>,
    row_soft_deleted: bool,
)
    requires
        id_fits(id),
    ensures ({
        let row = MonitoringUuidRow { id, uuid, soft_delete: row_soft_deleted };
        let w1 = get_or_insert_next(uuid, m_winner, GetOrInsertStepView::QueryRow, CacheDbEventView::RowMissing);
        let w2 = get_or_insert_next(uuid, w1.1, w1.0, CacheDbEventView::Inserted(id));
        let l1 = get_or_insert_next(uuid, m_loser, GetOrInsertStepView::QueryRow, CacheDbEventView::RowMissing);
        let l2 = get_or_insert_next(uuid, l1.1, l1.0, CacheDbEventView::InsertConflict(conflict));
        let l3 = get_or_insert_next(uuid, l2.1, l2.0, CacheDbEventView::RowFound(row));
        let l4 = if row_soft_deleted { get_or_insert_next(uuid, l3.1, l3.0, CacheDbEventView::Updated) } else { l3 };
        &&& w2.0 == GetOrInsertStepView::Done(Ok(id as i16))
        &&& l4.0 == GetOrInsertStepView::Done(Ok(id as i16))
        &&& w2.1.0[uuid] == (id as i16, false) && w2.1.1[id as i16] == (uuid, false)
        &&& l4.1.0[uuid] == (id as i16, false) && l4.1.1[id as i16] == (uuid, false)
    }),
{
}

/// The database's `monitoring_uuid` rows, UUID to row id: ids are unique.
pub open spec fn db_ids_unique(db: Map<u128, i32>) -> bool {
    forall|a: u128, b: u128| db.contains_key(a) && db.contains_key(b) && #[trigger] db[a] == #[trigger] db[b] ==> a == b
}

/// Every cached UUID has its row in `db`, under the cached id.
pub open spec fn cache_agrees_with_db(m: (Map<u128, (i16, bool)>, Map<i16, (u128, bool)>), db: Map<u128, i32>) -> bool {
    forall|u: u128| #[trigger] m.0.contains_key(u) ==> db.contains_key(u) && id_fits(db[u]) && db[u] as i16 == m.0[u].0
}

/// A row of `uuid` that `db` holds.
pub open spec fn row_in_db(row: MonitoringUuidRow, uuid: u128, db: Map<u128, i32>) -> bool {
    row.uuid == uuid && db.contains_key(uuid) && db[uuid] == row.id
}

/// The database's answer describes `db`: found rows and inserted ids are
/// those of `uuid` in `db`.
pub open spec fn event_agrees_with_db(ev: CacheDbEventView, uuid: u128, db: Map<u128, i32>) -> bool {
    match ev {
        CacheDbEventView::RowFound(row) => row_in_db(row, uuid, db),
        CacheDbEventView::Inserted(id) => db.contains_key(uuid) && db[uuid] == id,
        _ => true,
    }
}

/// The rows a `get_or_insert` step carries are rows of `uuid` in `db`.
pub open spec fn get_or_insert_step_agrees(step: GetOrInsertStepView, uuid: u128, db: Map<u128, i32>) -> bool {
    match step {
        GetOrInsertStepView::Resurrect(row) => row_in_db(row, uuid, db),
        GetOrInsertStepView::ResurrectAfterConflict(row) => row_in_db(row, uuid, db),
        _ => true,
    }
}

/// The row a `soft_delete` step carries is the row of `uuid` in `db`.
pub open spec fn soft_delete_step_agrees(step: SoftDeleteStepView, uuid: u128, db: Map<u128, i32>) -> bool {
    match step {
        SoftDeleteStepView::MarkDeleted(row) => row_in_db(row, uuid, db),
        _ => true,
    }
}

/// Recording the database's own pair keeps the maps inverse and in
/// agreement with the database.
proof fn lemma_record_db_pair(
    m: (Map<u128, (i16, bool)>, Map<i16, (u128, bool)>),
    db: Map<u128, i32>,
    uuid: u128,
    soft_delete: bool,
)
    requires
        maps_consistent(m.0, m.1),
        cache_agrees_with_db(m, db),
        db_ids_unique(db),
        db.contains_key(uuid),
        id_fits(db[uuid]),
    ensures
        maps_consistent(recorded(m, uuid, db[uuid] as i16, soft_delete).0, recorded(m, uuid, db[uuid] as i16, soft_delete).1),
        cache_agrees_with_db(recorded(m, uuid, db[uuid] as i16, soft_delete), db),
{
    let id = db[uuid] as i16;
    if m.1.contains_key(id) {
        let other = m.1[id].0;
        assert(m.0.contains_key(other) && m.0[other].0 == id);
        assert(db.contains_key(other) && id_fits(db[other]) && db[other] as i16 == id);
        assert(db[other] == db[uuid]);
    }
    law_record_keeps_consistent(m.0, m.1, uuid, id, soft_delete);
    let r = recorded(m, uuid, id, soft_delete);
    assert forall|u: u128| #[trigger] r.0.contains_key(u) implies db.contains_key(u) && id_fits(db[u]) && db[u] as i16 == r.0[u].0 by {
        if u != uuid {
            assert(m.0.contains_key(u));
        }
    }
}

/// Law: the cache's two maps stay inverse to each other through every step
/// of `get_or_insert` and `soft_delete`, as long as the cache agrees with the
/// database (whose row ids are unique) and the database's answers describe
/// it. So `get_id(u) == Some(i)` always goes with `get_uuid(i) == Some(u)`,
/// and no two UUIDs ever share an id.
pub proof fn law_steps_keep_maps_inverse(
    m: (Map<u128, (i16, bool)>, Map<i16, (u128, bool)>),
    db: Map<u128, i32>,
    uuid: u128,
    goi_step: GetOrInsertStepView,
    sd_step: SoftDeleteStepView,
    ev: CacheDbEventView,
)
    requires
        maps_consistent(m.0, m.1),
        cache_agrees_with_db(m, db),
        db_ids_unique(db),
        event_agrees_with_db(ev, uuid, db),
        get_or_insert_step_agrees(goi_step, uuid, db),
        soft_delete_step_agrees(sd_step, uuid, db),
    ensures
        maps_consistent(get_or_insert_next(uuid, m, goi_step, ev).1.0, get_or_insert_next(uuid, m, goi_step, ev).1.1),
        cache_agrees_with_db(get_or_insert_next(uuid, m, goi_step, ev).1, db),
        get_or_insert_step_agrees(get_or_insert_next(uuid, m, goi_step, ev).0, uuid, db),
        maps_consistent(soft_delete_next(uuid, m, sd_step, ev).1.0, soft_delete_next(uuid, m, sd_step, ev).1.1),
        cache_agrees_with_db(soft_delete_next(uuid, m, sd_step, ev).1, db),
        soft_delete_step_agrees(soft_delete_next(uuid, m, sd_step, ev).0, uuid, db),
{
    if db.contains_key(uuid) && id_fits(db[uuid]) {
        lemma_record_db_pair(m, db, uuid, false);
        lemma_record_db_pair(m, db, uuid, true);
    }
}

/// Law: agreement with the database survives rows added to it (ids never
/// change once given).
pub proof fn law_agreement_survives_new_rows(
    m: (Map<u128, (i16, bool)>, Map<i16, (u128, bool)>),
    db: Map<u128, i32>,
    later: Map<u128, i32>,
)
    requires
        cache_agrees_with_db(m, db),
        forall|u: u128| #[trigger] db.contains_key(u) ==> later.contains_key(u) && later[u] == db[u],
    ensures
        cache_agrees_with_db(m, later),
{
    assert forall|u: u128| #[trigger] m.0.contains_key(u) implies later.contains_key(u) && id_fits(later[u]) && later[u] as i16 == m.0[u].0 by {
        assert(db.contains_key(u));
    }
}

/// Law: a cache built from the database's rows (distinct UUIDs, distinct
/// ids) agrees with the database they describe.
pub proof fn law_build_agrees_with_db(rows: Seq<MonitoringUuidRow>, db: Map<u128, i32>)
    requires
        forall|k: int| #![trigger rows[k]] 0 <= k < rows.len() ==> db.contains_key(rows[k].uuid) && db[rows[k].uuid] == rows[k].id,
    ensures
        cache_agrees_with_db((rows_by_uuid(rows), rows_by_id(rows)), db),
    decreases rows.len(),
{
    if rows.len() > 0 {
        let prefix = rows.drop_last();
        assert forall|k: int| #![trigger prefix[k]] 0 <= k < prefix.len() implies db.contains_key(prefix[k].uuid) && db[prefix[k].uuid] == prefix[k].id by {
            assert(prefix[k] == rows[k]);
        }
        law_build_agrees_with_db(prefix, db);
        let last = rows[rows.len() - 1];
        assert(db.contains_key(last.uuid) && db[last.uuid] == last.id);
        let bu = rows_by_uuid(rows);
        let pu = rows_by_uuid(prefix);
        assert(rows.drop_last() == prefix && rows.last() == last);
        assert(bu == (if id_fits(last.id) { pu.insert(last.uuid, (last.id as i16, last.soft_delete)) } else { pu }));
        assert forall|u: u128| #[trigger] bu.contains_key(u) implies db.contains_key(u) && id_fits(db[u]) && db[u] as i16 == bu[u].0 by {
            if !(id_fits(last.id) && u == last.uuid) {
                let pm = (pu, rows_by_id(prefix));
                assert(pm.0.contains_key(u));
                assert(bu[u] == pu[u]);
            }
        }
    }
}

/// One answered step of `get_or_insert` or `soft_delete` on a UUID: the
/// UUID, the step and the database's answer.
pub enum CacheStepView {
    GetOrInsert(u128, GetOrInsertStepView, CacheDbEventView),
    SoftDelete(u128, SoftDeleteStepView, CacheDbEventView),
}

/// The cache maps after one answered step.
pub open spec fn apply_cache_step(
    m: (Map<u128, (i16, bool)>, Map<i16, (u128, bool)>),
    st: CacheStepView,
) -> (Map<u128, (i16, bool)>, Map<i16, (u128, bool)>) {
    match st {
        CacheStepView::GetOrInsert(u, step, ev) => get_or_insert_next(u, m, step, ev).1,
        CacheStepView::SoftDelete(u, step, ev) => soft_delete_next(u, m, step, ev).1,
    }
}

/// The cache maps after a run of answered steps, in order.
pub open spec fn apply_cache_steps(
    m: (Map<u128, (i16, bool)>, Map<i16, (u128, bool)>),
    steps: Seq<CacheStepView>,
) -> (Map<u128, (i16, bool)>, Map<i16, (u128, bool)>)
    decreases steps.len(),
{
    if steps.len() == 0 {
        m
    } else {
        apply_cache_step(apply_cache_steps(m, steps.drop_last()), steps.last())
    }
}

/// The step and its answer describe `db`.
pub open spec fn cache_step_agrees(st: CacheStepView, db: Map<u128, i32>) -> bool {
    match st {
        CacheStepView::GetOrInsert(u, step, ev) => event_agrees_with_db(ev, u, db) && get_or_insert_step_agrees(step, u, db),
        CacheStepView::SoftDelete(u, step, ev) => event_agrees_with_db(ev, u, db) && soft_delete_step_agrees(step, u, db),
    }
}

proof fn lemma_run_keeps_maps_inverse(
    m: (Map<u128, (i16, bool)>, Map<i16, (u128, bool)>),
    db: Map<u128, i32>,
    steps: Seq<CacheStepView>,
)
    requires
        maps_consistent(m.0, m.1),
        cache_agrees_with_db(m, db),
        db_ids_unique(db),
        forall|i: int| 0 <= i < steps.len() ==> cache_step_agrees(#[trigger] steps[i], db),
    ensures
        maps_consistent(apply_cache_steps(m, steps).0, apply_cache_steps(m, steps).1),
        cache_agrees_with_db(apply_cache_steps(m, steps), db),
    decreases steps.len(),
{
    if steps.len() > 0 {
        let prefix = steps.drop_last();
        assert forall|i: int| 0 <= i < prefix.len() implies cache_step_agrees(#[trigger] prefix[i], db) by {
            assert(prefix[i] == steps[i]);
        }
        lemma_run_keeps_maps_inverse(m, db, prefix);
        let before = apply_cache_steps(m, prefix);
        let last = steps[steps.len() - 1];
        assert(cache_step_agrees(last, db));
        match last {
            CacheStepView::GetOrInsert(u, step, ev) => {
                law_steps_keep_maps_inverse(before, db, u, step, SoftDeleteStepView::QueryRow, ev);
            },
            CacheStepView::SoftDelete(u, step, ev) => {
                law_steps_keep_maps_inverse(before, db, u, GetOrInsertStepView::QueryRow, step, ev);
            },
        }
    }
}

/// Law: over a whole run, the cache's two maps stay inverse. A cache built
/// from the table's rows (distinct UUIDs and ids) and then changed only by
/// answered `get_or_insert` / `soft_delete` steps keeps `get_id(u) == Some(i)`
/// together with `get_uuid(i) == Some(u)`, so no two UUIDs share an id.
/// `db` is the table at the end of the run: row ids are unique and never
/// change, and rows are not removed, so every answer given during the run
/// also describes it.
pub proof fn law_run_keeps_maps_inverse(rows: Seq<MonitoringUuidRow>, db: Map<u128, i32>, steps: Seq<CacheStepView>)
    requires
        forall|a: int, b: int| 0 <= a < b < rows.len() ==> rows[a].uuid != rows[b].uuid,
        forall|a: int, b: int| 0 <= a < b < rows.len() ==> rows[a].id != rows[b].id,
        forall|k: int| #![trigger rows[k]] 0 <= k < rows.len() ==> db.contains_key(rows[k].uuid) && db[rows[k].uuid] == rows[k].id,
        db_ids_unique(db),
        forall|i: int| 0 <= i < steps.len() ==> cache_step_agrees(#[trigger] steps[i], db),
    ensures ({
        let last = apply_cache_steps((rows_by_uuid(rows), rows_by_id(rows)), steps);
        &&& maps_consistent(last.0, last.1)
        &&& forall|u: u128| #[trigger] last.0.contains_key(u) ==>
                last.1.contains_key(last.0[u].0) && last.1[last.0[u].0].0 == u
        &&& forall|u1: u128, u2: u128| #[trigger] last.0.contains_key(u1) && #[trigger] last.0.contains_key(u2)
                && last.0[u1].0 == last.0[u2].0 ==> u1 == u2
    }),
{
    law_build_from_unique_rows_is_consistent(rows);
    law_build_agrees_with_db(rows, db);
    let m = (rows_by_uuid(rows), rows_by_id(rows));
    lemma_run_keeps_maps_inverse(m, db, steps);
    let last = apply_cache_steps(m, steps);
    assert forall|u1: u128, u2: u128| #[trigger] last.0.contains_key(u1) && #[trigger] last.0.contains_key(u2)
        && last.0[u1].0 == last.0[u2].0 implies u1 == u2 by {
        assert(last.1[last.0[u1].0].0 == u1);
        assert(last.1[last.0[u2].0].0 == u2);
    }
}

} // verus!
