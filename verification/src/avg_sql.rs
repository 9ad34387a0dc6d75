//! The PostgreSQL statement that averages dynamic monitoring data into
//! time buckets inside the database.
use vstd::prelude::*;
use crate::dynamic_avg::{DynamicDataQueryField, column_name_spec, json_key_spec};

verus! {
pub const AVG_SQL_FILTER_HEAD: &'static str = r#"
WITH filtered AS MATERIALIZED (
    SELECT timestamp"#;
pub const AVG_SQL_BUCKETED_HEAD: &'static str = r#"
    FROM dynamic_monitoring
    WHERE uuid = CAST($1 AS uuid)
      AND ($2::bigint IS NULL OR timestamp >= $2)
      AND ($3::bigint IS NULL OR timestamp <= $3)
),
bounds AS MATERIALIZED (
    SELECT MIN(timestamp) AS min_ts, MAX(timestamp) AS max_ts
    FROM filtered
),
bucketed AS MATERIALIZED (
    SELECT
        CASE
            WHEN bounds.min_ts IS NULL THEN NULL
            WHEN bounds.min_ts = bounds.max_ts OR $4::bigint <= 1 THEN 0
            ELSE LEAST(
                $4::bigint - 1,
                ((filtered.timestamp - bounds.min_ts) * $4::bigint) / ((bounds.max_ts - bounds.min_ts) + 1)
            )
        END AS bucket,
        filtered.timestamp"#;
pub const AVG_SQL_AGG_HEAD: &'static str = r#"
    FROM filtered
    CROSS JOIN bounds
),
agg AS (
    SELECT
        bucketed.bucket AS bucket,
        AVG(bucketed.timestamp)::bigint AS timestamp"#;
pub const AVG_SQL_RESULT_HEAD: &'static str = r#"
    FROM bucketed
    WHERE bucketed.bucket IS NOT NULL
    GROUP BY bucketed.bucket
    ORDER BY bucketed.bucket
)
SELECT COALESCE(
    jsonb_agg(
        jsonb_build_object(
            'uuid', $1::text,
            'timestamp', agg.timestamp"#;
pub const AVG_SQL_TAIL: &'static str = r#"
        )
        ORDER BY agg.bucket
    ),
    '[]'::jsonb
) AS data
FROM agg
"#;
pub const CPU_AGGREGATE_SQL: &'static str = r#"
jsonb_build_object(
    'per_core',
    (
        SELECT COALESCE(jsonb_agg(per_core.obj ORDER BY per_core.idx), '[]'::jsonb)
        FROM (
            SELECT
                arr.ord AS idx,
                jsonb_build_object(
                    'id', MIN(NULLIF(arr.elem->>'id', '')::numeric),
                    'cpu_usage', AVG(NULLIF(arr.elem->>'cpu_usage', '')::numeric),
                    'frequency_mhz', AVG(NULLIF(arr.elem->>'frequency_mhz', '')::numeric)
                ) AS obj
            FROM bucketed AS b2
            CROSS JOIN LATERAL jsonb_array_elements(COALESCE(b2.cpu_data->'per_core', '[]'::jsonb)) WITH ORDINALITY AS arr(elem, ord)
            WHERE b2.bucket = bucketed.bucket
            GROUP BY arr.ord
        ) AS per_core
    ),
    'total_cpu_usage', AVG(NULLIF(bucketed.cpu_data->>'total_cpu_usage', '')::numeric)
) AS cpu"#;
pub const RAM_AGGREGATE_SQL: &'static str = r#"
jsonb_build_object(
    'total_memory', AVG(NULLIF(bucketed.ram_data->>'total_memory', '')::numeric),
    'available_memory', AVG(NULLIF(bucketed.ram_data->>'available_memory', '')::numeric),
    'used_memory', AVG(NULLIF(bucketed.ram_data->>'used_memory', '')::numeric),
    'total_swap', AVG(NULLIF(bucketed.ram_data->>'total_swap', '')::numeric),
    'used_swap', AVG(NULLIF(bucketed.ram_data->>'used_swap', '')::numeric)
) AS ram"#;
pub const LOAD_AGGREGATE_SQL: &'static str = r#"
jsonb_build_object(
    'one', AVG(NULLIF(bucketed.load_data->>'one', '')::numeric),
    'five', AVG(NULLIF(bucketed.load_data->>'five', '')::numeric),
    'fifteen', AVG(NULLIF(bucketed.load_data->>'fifteen', '')::numeric)
) AS load"#;
pub const SYSTEM_AGGREGATE_SQL: &'static str = r#"
jsonb_build_object(
    'process_count', AVG(NULLIF(bucketed.system_data->>'process_count', '')::numeric)
) AS system"#;
pub const DISK_AGGREGATE_SQL: &'static str = r#"
jsonb_build_object(
    'items',
    (
        SELECT COALESCE(jsonb_agg(disks.obj ORDER BY disks.idx), '[]'::jsonb)
        FROM (
            SELECT
                arr.ord AS idx,
                jsonb_build_object(
                    'kind', NULL,
                    'name', NULL,
                    'file_system', NULL,
                    'mount_point', NULL,
                    'total_space', AVG(NULLIF(arr.elem->>'total_space', '')::numeric),
                    'available_space', AVG(NULLIF(arr.elem->>'available_space', '')::numeric),
                    'is_removable', NULL,
                    'is_read_only', NULL,
                    'read_speed', AVG(NULLIF(arr.elem->>'read_speed', '')::numeric),
                    'write_speed', AVG(NULLIF(arr.elem->>'write_speed', '')::numeric)
                ) AS obj
            FROM bucketed AS b2
            CROSS JOIN LATERAL jsonb_array_elements(COALESCE(b2.disk_data, '[]'::jsonb)) WITH ORDINALITY AS arr(elem, ord)
            WHERE b2.bucket = bucketed.bucket
            GROUP BY arr.ord
        ) AS disks
    )
)->'items' AS disk"#;
pub const NETWORK_AGGREGATE_SQL: &'static str = r#"
jsonb_build_object(
    'interfaces',
    (
        SELECT COALESCE(jsonb_agg(interfaces.obj ORDER BY interfaces.idx), '[]'::jsonb)
        FROM (
            SELECT
                arr.ord AS idx,
                jsonb_build_object(
                    'interface_name', NULL,
                    'total_received', AVG(NULLIF(arr.elem->>'total_received', '')::numeric),
                    'total_transmitted', AVG(NULLIF(arr.elem->>'total_transmitted', '')::numeric),
                    'receive_speed', AVG(NULLIF(arr.elem->>'receive_speed', '')::numeric),
                    'transmit_speed', AVG(NULLIF(arr.elem->>'transmit_speed', '')::numeric)
                ) AS obj
            FROM bucketed AS b2
            CROSS JOIN LATERAL jsonb_array_elements(COALESCE(b2.network_data->'interfaces', '[]'::jsonb)) WITH ORDINALITY AS arr(elem, ord)
            WHERE b2.bucket = bucketed.bucket
            GROUP BY arr.ord
        ) AS interfaces
    ),
    'udp_connections', AVG(NULLIF(bucketed.network_data->>'udp_connections', '')::numeric),
    'tcp_connections', AVG(NULLIF(bucketed.network_data->>'tcp_connections', '')::numeric)
) AS network"#;
pub const GPU_AGGREGATE_SQL: &'static str = r#"
jsonb_build_object(
    'items',
    (
        SELECT COALESCE(jsonb_agg(gpus.obj ORDER BY gpus.idx), '[]'::jsonb)
        FROM (
            SELECT
                arr.ord AS idx,
                jsonb_build_object(
                    'id', MIN(NULLIF(arr.elem->>'id', '')::numeric),
                    'used_memory', AVG(NULLIF(arr.elem->>'used_memory', '')::numeric),
                    'total_memory', AVG(NULLIF(arr.elem->>'total_memory', '')::numeric),
                    'graphics_clock_mhz', AVG(NULLIF(arr.elem->>'graphics_clock_mhz', '')::numeric),
                    'sm_clock_mhz', AVG(NULLIF(arr.elem->>'sm_clock_mhz', '')::numeric),
                    'memory_clock_mhz', AVG(NULLIF(arr.elem->>'memory_clock_mhz', '')::numeric),
                    'video_clock_mhz', AVG(NULLIF(arr.elem->>'video_clock_mhz', '')::numeric),
                    'utilization_gpu', AVG(NULLIF(arr.elem->>'utilization_gpu', '')::numeric),
                    'utilization_memory', AVG(NULLIF(arr.elem->>'utilization_memory', '')::numeric),
                    'temperature', AVG(NULLIF(arr.elem->>'temperature', '')::numeric)
                ) AS obj
            FROM bucketed AS b2
            CROSS JOIN LATERAL jsonb_array_elements(COALESCE(b2.gpu_data, '[]'::jsonb)) WITH ORDINALITY AS arr(elem, ord)
            WHERE b2.bucket = bucketed.bucket
            GROUP BY arr.ord
        ) AS gpus
    )
)->'items' AS gpu"#;

/// Separator between aggregate columns in the statement.
pub const AGGREGATE_SEPARATOR: &'static str = ",\n            ";

/// The aggregate expression (an `AVG` per numeric member, per array
/// element where the data is an array) that averages one field inside a
/// bucket.
pub open spec fn field_aggregate_sql(f: DynamicDataQueryField) -> Seq<char> {
    match f {
        DynamicDataQueryField::Cpu => CPU_AGGREGATE_SQL@,
        DynamicDataQueryField::Ram => RAM_AGGREGATE_SQL@,
        DynamicDataQueryField::Load => LOAD_AGGREGATE_SQL@,
        DynamicDataQueryField::System => SYSTEM_AGGREGATE_SQL@,
        DynamicDataQueryField::Disk => DISK_AGGREGATE_SQL@,
        DynamicDataQueryField::Network => NETWORK_AGGREGATE_SQL@,
        DynamicDataQueryField::Gpu => GPU_AGGREGATE_SQL@,
    }
}

/// `, <column>` for each selected field.
pub open spec fn select_columns_sql(fs: Seq<DynamicDataQueryField>) -> Seq<char>
    decreases fs.len(),
{
    if fs.len() == 0 {
        Seq::empty()
    } else {
        select_columns_sql(fs.drop_last()) + ", "@ + column_name_spec(fs.last())
    }
}

/// The aggregate expressions of the selected fields, separated by
/// `AGGREGATE_SEPARATOR`.
pub open spec fn aggregate_join_sql(fs: Seq<DynamicDataQueryField>) -> Seq<char>
    decreases fs.len(),
{
    if fs.len() == 0 {
        Seq::empty()
    } else if fs.len() == 1 {
        field_aggregate_sql(fs[0])
    } else {
        aggregate_join_sql(fs.drop_last()) + AGGREGATE_SEPARATOR@ + field_aggregate_sql(fs.last())
    }
}

/// `, '<key>', agg.<key>` for each selected field.
pub open spec fn final_json_fields_sql(fs: Seq<DynamicDataQueryField>) -> Seq<char>
    decreases fs.len(),
{
    if fs.len() == 0 {
        Seq::empty()
    } else {
        final_json_fields_sql(fs.drop_last()) + ", '"@ + json_key_spec(fs.last()) + "', agg."@ + json_key_spec(fs.last())
    }
}

/// The whole averaging statement for the selected fields. Its parameters:
/// `$1` the agent UUID, `$2` / `$3` the optional time bounds, `$4` the number
/// of points.
pub open spec fn dynamic_avg_sql(fs: Seq<DynamicDataQueryField>) -> Seq<char> {
    let join = aggregate_join_sql(fs);
    let aggregate_columns = if join.len() == 0 { Seq::empty() } else { AGGREGATE_SEPARATOR@ + join };
    AVG_SQL_FILTER_HEAD@ + select_columns_sql(fs) + AVG_SQL_BUCKETED_HEAD@ + select_columns_sql(fs)
        + AVG_SQL_AGG_HEAD@ + aggregate_columns + AVG_SQL_RESULT_HEAD@ + final_json_fields_sql(fs)
        + AVG_SQL_TAIL@
}

/// The aggregate expression that averages `field` inside a bucket.
pub fn build_postgres_dynamic_field_aggregate_sql(field: &DynamicDataQueryField) -> (r: String)
    ensures
        r@ == field_aggregate_sql(*field),
{
    match field {
        DynamicDataQueryField::Cpu => CPU_AGGREGATE_SQL.to_string(),
        DynamicDataQueryField::Ram => RAM_AGGREGATE_SQL.to_string(),
        DynamicDataQueryField::Load => LOAD_AGGREGATE_SQL.to_string(),
        DynamicDataQueryField::System => SYSTEM_AGGREGATE_SQL.to_string(),
        DynamicDataQueryField::Disk => DISK_AGGREGATE_SQL.to_string(),
        DynamicDataQueryField::Network => NETWORK_AGGREGATE_SQL.to_string(),
        DynamicDataQueryField::Gpu => GPU_AGGREGATE_SQL.to_string(),
    }
}

/// The averaging statement for the selected fields (see `dynamic_avg_sql`).
pub fn build_postgres_dynamic_avg_sql(fields: &[DynamicDataQueryField]) -> (r: String)
    ensures
        r@ == dynamic_avg_sql(fields@),
{
    let mut select_columns = String::new();
    let mut aggregate_join = String::new();
    let mut final_json_fields = String::new();
    let mut i: usize = 0;
    while i < fields.len()
        invariant
            i <= fields@.len(),
            select_columns@ == select_columns_sql(fields@.take(i as int)),
            aggregate_join@ == aggregate_join_sql(fields@.take(i as int)),
            final_json_fields@ == final_json_fields_sql(fields@.take(i as int)),
        decreases fields@.len() - i,
    {
        let f = fields[i];
        assert(fields@.take(i + 1).drop_last() =~= fields@.take(i as int));
        assert(fields@.take(i + 1).last() == f);
        select_columns.append(", ");
        select_columns.append(f.column_name());
        if i > 0 {
            aggregate_join.append(AGGREGATE_SEPARATOR);
        }
        let agg = build_postgres_dynamic_field_aggregate_sql(&f);
        aggregate_join.append(agg.as_str());
        final_json_fields.append(", '");
        final_json_fields.append(f.json_key());
        final_json_fields.append("', agg.");
        final_json_fields.append(f.json_key());
        proof {
            if i == 0 {
                assert(fields@.take(1)[0] == f);
                assert(aggregate_join@ =~= field_aggregate_sql(f));
            }
        }
        i = i + 1;
    }
    assert(fields@.take(fields@.len() as int) =~= fields@);
    let mut aggregate_columns = String::new();
    if !aggregate_join.as_str().is_empty() {
        aggregate_columns.append(AGGREGATE_SEPARATOR);
        aggregate_columns.append(aggregate_join.as_str());
    }
    let mut sql = String::new();
    sql.append(AVG_SQL_FILTER_HEAD);
    sql.append(select_columns.as_str());
    sql.append(AVG_SQL_BUCKETED_HEAD);
    sql.append(select_columns.as_str());
    sql.append(AVG_SQL_AGG_HEAD);
    sql.append(aggregate_columns.as_str());
    sql.append(AVG_SQL_RESULT_HEAD);
    sql.append(final_json_fields.as_str());
    sql.append(AVG_SQL_TAIL);
    proof {
        let join = aggregate_join_sql(fields@);
        if join.len() == 0 {
            assert(aggregate_columns@ =~= Seq::<char>::empty());
        } else {
            assert(aggregate_columns@ =~= AGGREGATE_SEPARATOR@ + join);
        }
        assert(sql@ =~= dynamic_avg_sql(fields@));
    }
    sql
}

/// Law: the aggregate of each field reads that field's own column and names
/// its result after the field's JSON key (`... AS <key>`), so a field is
/// never averaged from another field's data or reported under another key.
pub proof fn law_aggregate_reads_own_column(f: DynamicDataQueryField)
    ensures
        exists|i: int| 0 <= i && i + column_name_spec(f).len() <= field_aggregate_sql(f).len()
            && #[trigger] field_aggregate_sql(f).subrange(i, i + column_name_spec(f).len()) == column_name_spec(f),
        field_aggregate_sql(f).len() >= json_key_spec(f).len() + 4,
        field_aggregate_sql(f).skip(field_aggregate_sql(f).len() - json_key_spec(f).len() - 4) == " AS "@ + json_key_spec(f),
{
    reveal_strlit(" AS ");
    let sql = field_aggregate_sql(f);
    match f {
        DynamicDataQueryField::Cpu => {
            reveal_strlit(r#"
jsonb_build_object(
    'per_core',
    (
        SELECT COALESCE(jsonb_agg(per_core.obj ORDER BY per_core.idx), '[]'::jsonb)
        FROM (
            SELECT
                arr.ord AS idx,
                jsonb_build_object(
                    'id', MIN(NULLIF(arr.elem->>'id', '')::numeric),
                    'cpu_usage', AVG(NULLIF(arr.elem->>'cpu_usage', '')::numeric),
                    'frequency_mhz', AVG(NULLIF(arr.elem->>'frequency_mhz', '')::numeric)
                ) AS obj
            FROM bucketed AS b2
            CROSS JOIN LATERAL jsonb_array_elements(COALESCE(b2.cpu_data->'per_core', '[]'::jsonb)) WITH ORDINALITY AS arr(elem, ord)
            WHERE b2.bucket = bucketed.bucket
            GROUP BY arr.ord
        ) AS per_core
    ),
    'total_cpu_usage', AVG(NULLIF(bucketed.cpu_data->>'total_cpu_usage', '')::numeric)
) AS cpu"#);
            reveal_strlit("cpu_data");
            reveal_strlit("cpu");
            assert(sql.subrange(592, 600) =~= column_name_spec(f));
            assert(field_aggregate_sql(f).subrange(592int, 592int + column_name_spec(f).len()) == column_name_spec(f));
            assert(sql.skip(854) =~= " AS "@ + json_key_spec(f));
        },
        DynamicDataQueryField::Ram => {
            reveal_strlit(r#"
jsonb_build_object(
    'total_memory', AVG(NULLIF(bucketed.ram_data->>'total_memory', '')::numeric),
    'available_memory', AVG(NULLIF(bucketed.ram_data->>'available_memory', '')::numeric),
    'used_memory', AVG(NULLIF(bucketed.ram_data->>'used_memory', '')::numeric),
    'total_swap', AVG(NULLIF(bucketed.ram_data->>'total_swap', '')::numeric),
    'used_swap', AVG(NULLIF(bucketed.ram_data->>'used_swap', '')::numeric)
) AS ram"#);
            reveal_strlit("ram_data");
            reveal_strlit("ram");
            assert(sql.subrange(61, 69) =~= column_name_spec(f));
            assert(field_aggregate_sql(f).subrange(61int, 61int + column_name_spec(f).len()) == column_name_spec(f));
            assert(sql.skip(427) =~= " AS "@ + json_key_spec(f));
        },
        DynamicDataQueryField::Load => {
            reveal_strlit(r#"
jsonb_build_object(
    'one', AVG(NULLIF(bucketed.load_data->>'one', '')::numeric),
    'five', AVG(NULLIF(bucketed.load_data->>'five', '')::numeric),
    'fifteen', AVG(NULLIF(bucketed.load_data->>'fifteen', '')::numeric)
) AS load"#);
            reveal_strlit("load_data");
            reveal_strlit("load");
            assert(sql.subrange(52, 61) =~= column_name_spec(f));
            assert(field_aggregate_sql(f).subrange(52int, 52int + column_name_spec(f).len()) == column_name_spec(f));
            assert(sql.skip(226) =~= " AS "@ + json_key_spec(f));
        },
        DynamicDataQueryField::System => {
            reveal_strlit(r#"
jsonb_build_object(
    'process_count', AVG(NULLIF(bucketed.system_data->>'process_count', '')::numeric)
) AS system"#);
            reveal_strlit("system_data");
            reveal_strlit("system");
            assert(sql.subrange(62, 73) =~= column_name_spec(f));
            assert(field_aggregate_sql(f).subrange(62int, 62int + column_name_spec(f).len()) == column_name_spec(f));
            assert(sql.skip(108) =~= " AS "@ + json_key_spec(f));
        },
        DynamicDataQueryField::Disk => {
            reveal_strlit(r#"
jsonb_build_object(
    'items',
    (
        SELECT COALESCE(jsonb_agg(disks.obj ORDER BY disks.idx), '[]'::jsonb)
        FROM (
            SELECT
                arr.ord AS idx,
                jsonb_build_object(
                    'kind', NULL,
                    'name', NULL,
                    'file_system', NULL,
                    'mount_point', NULL,
                    'total_space', AVG(NULLIF(arr.elem->>'total_space', '')::numeric),
                    'available_space', AVG(NULLIF(arr.elem->>'available_space', '')::numeric),
                    'is_removable', NULL,
                    'is_read_only', NULL,
                    'read_speed', AVG(NULLIF(arr.elem->>'read_speed', '')::numeric),
                    'write_speed', AVG(NULLIF(arr.elem->>'write_speed', '')::numeric)
                ) AS obj
            FROM bucketed AS b2
            CROSS JOIN LATERAL jsonb_array_elements(COALESCE(b2.disk_data, '[]'::jsonb)) WITH ORDINALITY AS arr(elem, ord)
            WHERE b2.bucket = bucketed.bucket
            GROUP BY arr.ord
        ) AS disks
    )
)->'items' AS disk"#);
            reveal_strlit("disk_data");
            reveal_strlit("disk");
            assert(sql.subrange(928, 937) =~= column_name_spec(f));
            assert(field_aggregate_sql(f).subrange(928int, 928int + column_name_spec(f).len()) == column_name_spec(f));
            assert(sql.skip(1097) =~= " AS "@ + json_key_spec(f));
        },
        DynamicDataQueryField::Network => {
            reveal_strlit(r#"
jsonb_build_object(
    'interfaces',
    (
        SELECT COALESCE(jsonb_agg(interfaces.obj ORDER BY interfaces.idx), '[]'::jsonb)
        FROM (
            SELECT
                arr.ord AS idx,
                jsonb_build_object(
                    'interface_name', NULL,
                    'total_received', AVG(NULLIF(arr.elem->>'total_received', '')::numeric),
                    'total_transmitted', AVG(NULLIF(arr.elem->>'total_transmitted', '')::numeric),
                    'receive_speed', AVG(NULLIF(arr.elem->>'receive_speed', '')::numeric),
                    'transmit_speed', AVG(NULLIF(arr.elem->>'transmit_speed', '')::numeric)
                ) AS obj
            FROM bucketed AS b2
            CROSS JOIN LATERAL jsonb_array_elements(COALESCE(b2.network_data->'interfaces', '[]'::jsonb)) WITH ORDINALITY AS arr(elem, ord)
            WHERE b2.bucket = bucketed.bucket
            GROUP BY arr.ord
        ) AS interfaces
    ),
    'udp_connections', AVG(NULLIF(bucketed.network_data->>'udp_connections', '')::numeric),
    'tcp_connections', AVG(NULLIF(bucketed.network_data->>'tcp_connections', '')::numeric)
) AS network"#);
            reveal_strlit("network_data");
            reveal_strlit("network");
            assert(sql.subrange(775, 787) =~= column_name_spec(f));
            assert(field_aggregate_sql(f).subrange(775int, 775int + column_name_spec(f).len()) == column_name_spec(f));
            assert(sql.skip(1141) =~= " AS "@ + json_key_spec(f));
        },
        DynamicDataQueryField::Gpu => {
            reveal_strlit(r#"
jsonb_build_object(
    'items',
    (
        SELECT COALESCE(jsonb_agg(gpus.obj ORDER BY gpus.idx), '[]'::jsonb)
        FROM (
            SELECT
                arr.ord AS idx,
                jsonb_build_object(
                    'id', MIN(NULLIF(arr.elem->>'id', '')::numeric),
                    'used_memory', AVG(NULLIF(arr.elem->>'used_memory', '')::numeric),
                    'total_memory', AVG(NULLIF(arr.elem->>'total_memory', '')::numeric),
                    'graphics_clock_mhz', AVG(NULLIF(arr.elem->>'graphics_clock_mhz', '')::numeric),
                    'sm_clock_mhz', AVG(NULLIF(arr.elem->>'sm_clock_mhz', '')::numeric),
                    'memory_clock_mhz', AVG(NULLIF(arr.elem->>'memory_clock_mhz', '')::numeric),
                    'video_clock_mhz', AVG(NULLIF(arr.elem->>'video_clock_mhz', '')::numeric),
                    'utilization_gpu', AVG(NULLIF(arr.elem->>'utilization_gpu', '')::numeric),
                    'utilization_memory', AVG(NULLIF(arr.elem->>'utilization_memory', '')::numeric),
                    'temperature', AVG(NULLIF(arr.elem->>'temperature', '')::numeric)
                ) AS obj
            FROM bucketed AS b2
            CROSS JOIN LATERAL jsonb_array_elements(COALESCE(b2.gpu_data, '[]'::jsonb)) WITH ORDINALITY AS arr(elem, ord)
            WHERE b2.bucket = bucketed.bucket
            GROUP BY arr.ord
        ) AS gpus
    )
)->'items' AS gpu"#);
            reveal_strlit("gpu_data");
            reveal_strlit("gpu");
            assert(sql.subrange(1248, 1256) =~= column_name_spec(f));
            assert(field_aggregate_sql(f).subrange(1248int, 1248int + column_name_spec(f).len()) == column_name_spec(f));
            assert(sql.skip(1415) =~= " AS "@ + json_key_spec(f));
        },
    }
}

} // verus!
