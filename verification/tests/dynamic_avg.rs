use nodeget::avg_sql::{build_postgres_dynamic_avg_sql, build_postgres_dynamic_field_aggregate_sql};
use nodeget::dynamic_avg::{
    calc_bucket_index, points_sql_param, resolve_time_range, validate_avg_query, AvgBuckets, BucketAccumulator,
    DynamicDataAvgQuery, DynamicDataQueryField, FieldAverageAccumulator,
};
use nodeget::error::NodegetError;

const ALL: [DynamicDataQueryField; 7] = [
    DynamicDataQueryField::Cpu,
    DynamicDataQueryField::Ram,
    DynamicDataQueryField::Load,
    DynamicDataQueryField::System,
    DynamicDataQueryField::Disk,
    DynamicDataQueryField::Network,
    DynamicDataQueryField::Gpu,
];

fn expected_aggregate(field: &DynamicDataQueryField) -> String {
    match field {
        DynamicDataQueryField::Cpu => r#"
jsonb_build_object(
    'per_core',
    (
        SELECT COALESCE(jsonb_agg(per_core.obj ORDER BY per_core.idx), '[]'::jsonb)
        FROM (
            SELECT
                arr.ord AS idx,
                jsonb_build_object(
                    'id', MIN(NULLIF(arr.elem->>'id', '')::numeric),
                    'cpu_usage', AVG(NULLIF(arr.elem->>'cpu_usage', '')::numeric),
                    'frequency_mhz', AVG(NULLIF(arr.elem->>'frequency_mhz', '')::numeric)
                ) AS obj
            FROM bucketed AS b2
            CROSS JOIN LATERAL jsonb_array_elements(COALESCE(b2.cpu_data->'per_core', '[]'::jsonb)) WITH ORDINALITY AS arr(elem, ord)
            WHERE b2.bucket = bucketed.bucket
            GROUP BY arr.ord
        ) AS per_core
    ),
    'total_cpu_usage', AVG(NULLIF(bucketed.cpu_data->>'total_cpu_usage', '')::numeric)
) AS cpu"#.to_owned(),
        DynamicDataQueryField::Ram => r#"
jsonb_build_object(
    'total_memory', AVG(NULLIF(bucketed.ram_data->>'total_memory', '')::numeric),
    'available_memory', AVG(NULLIF(bucketed.ram_data->>'available_memory', '')::numeric),
    'used_memory', AVG(NULLIF(bucketed.ram_data->>'used_memory', '')::numeric),
    'total_swap', AVG(NULLIF(bucketed.ram_data->>'total_swap', '')::numeric),
    'used_swap', AVG(NULLIF(bucketed.ram_data->>'used_swap', '')::numeric)
) AS ram"#.to_owned(),
        DynamicDataQueryField::Load => r#"
jsonb_build_object(
    'one', AVG(NULLIF(bucketed.load_data->>'one', '')::numeric),
    'five', AVG(NULLIF(bucketed.load_data->>'five', '')::numeric),
    'fifteen', AVG(NULLIF(bucketed.load_data->>'fifteen', '')::numeric)
) AS load"#.to_owned(),
        DynamicDataQueryField::System => r#"
jsonb_build_object(
    'process_count', AVG(NULLIF(bucketed.system_data->>'process_count', '')::numeric)
) AS system"#.to_owned(),
        DynamicDataQueryField::Disk => r#"
jsonb_build_object(
    'items',
    (
        SELECT COALESCE(jsonb_agg(disks.obj ORDER BY disks.idx), '[]'::jsonb)
        FROM (
            SELECT
                arr.ord AS idx,
                jsonb_build_object(
                    'kind', NULL,
                    'name', NULL,
                    'file_system', NULL,
                    'mount_point', NULL,
                    'total_space', AVG(NULLIF(arr.elem->>'total_space', '')::numeric),
                    'available_space', AVG(NULLIF(arr.elem->>'available_space', '')::numeric),
                    'is_removable', NULL,
                    'is_read_only', NULL,
                    'read_speed', AVG(NULLIF(arr.elem->>'read_speed', '')::numeric),
                    'write_speed', AVG(NULLIF(arr.elem->>'write_speed', '')::numeric)
                ) AS obj
            FROM bucketed AS b2
            CROSS JOIN LATERAL jsonb_array_elements(COALESCE(b2.disk_data, '[]'::jsonb)) WITH ORDINALITY AS arr(elem, ord)
            WHERE b2.bucket = bucketed.bucket
            GROUP BY arr.ord
        ) AS disks
    )
)->'items' AS disk"#.to_owned(),
        DynamicDataQueryField::Network => r#"
jsonb_build_object(
    'interfaces',
    (
        SELECT COALESCE(jsonb_agg(interfaces.obj ORDER BY interfaces.idx), '[]'::jsonb)
        FROM (
            SELECT
                arr.ord AS idx,
                jsonb_build_object(
                    'interface_name', NULL,
                    'total_received', AVG(NULLIF(arr.elem->>'total_received', '')::numeric),
                    'total_transmitted', AVG(NULLIF(arr.elem->>'total_transmitted', '')::numeric),
                    'receive_speed', AVG(NULLIF(arr.elem->>'receive_speed', '')::numeric),
                    'transmit_speed', AVG(NULLIF(arr.elem->>'transmit_speed', '')::numeric)
                ) AS obj
            FROM bucketed AS b2
            CROSS JOIN LATERAL jsonb_array_elements(COALESCE(b2.network_data->'interfaces', '[]'::jsonb)) WITH ORDINALITY AS arr(elem, ord)
            WHERE b2.bucket = bucketed.bucket
            GROUP BY arr.ord
        ) AS interfaces
    ),
    'udp_connections', AVG(NULLIF(bucketed.network_data->>'udp_connections', '')::numeric),
    'tcp_connections', AVG(NULLIF(bucketed.network_data->>'tcp_connections', '')::numeric)
) AS network"#.to_owned(),
        DynamicDataQueryField::Gpu => r#"
jsonb_build_object(
    'items',
    (
        SELECT COALESCE(jsonb_agg(gpus.obj ORDER BY gpus.idx), '[]'::jsonb)
        FROM (
            SELECT
                arr.ord AS idx,
                jsonb_build_object(
                    'id', MIN(NULLIF(arr.elem->>'id', '')::numeric),
                    'used_memory', AVG(NULLIF(arr.elem->>'used_memory', '')::numeric),
                    'total_memory', AVG(NULLIF(arr.elem->>'total_memory', '')::numeric),
                    'graphics_clock_mhz', AVG(NULLIF(arr.elem->>'graphics_clock_mhz', '')::numeric),
                    'sm_clock_mhz', AVG(NULLIF(arr.elem->>'sm_clock_mhz', '')::numeric),
                    'memory_clock_mhz', AVG(NULLIF(arr.elem->>'memory_clock_mhz', '')::numeric),
                    'video_clock_mhz', AVG(NULLIF(arr.elem->>'video_clock_mhz', '')::numeric),
                    'utilization_gpu', AVG(NULLIF(arr.elem->>'utilization_gpu', '')::numeric),
                    'utilization_memory', AVG(NULLIF(arr.elem->>'utilization_memory', '')::numeric),
                    'temperature', AVG(NULLIF(arr.elem->>'temperature', '')::numeric)
                ) AS obj
            FROM bucketed AS b2
            CROSS JOIN LATERAL jsonb_array_elements(COALESCE(b2.gpu_data, '[]'::jsonb)) WITH ORDINALITY AS arr(elem, ord)
            WHERE b2.bucket = bucketed.bucket
            GROUP BY arr.ord
        ) AS gpus
    )
)->'items' AS gpu"#.to_owned(),
    }
}

fn expected_sql(fields: &[DynamicDataQueryField]) -> String {
    let select_columns = fields.iter().map(|field| format!(", {}", field.column_name())).collect::<String>();
    let aggregate_columns = fields.iter().map(expected_aggregate).collect::<Vec<_>>().join(",\n            ");
    let final_json_fields =
        fields.iter().map(|field| format!(", '{}', agg.{}", field.json_key(), field.json_key())).collect::<String>();
    let aggregate_columns =
        if aggregate_columns.is_empty() { String::new() } else { format!(",\n            {aggregate_columns}") };
    format!(
        r#"
WITH filtered AS MATERIALIZED (
    SELECT timestamp{select_columns}
    FROM dynamic_monitoring
    WHERE uuid = CAST($1 AS uuid)
      AND ($2::bigint IS NULL OR timestamp >= $2)
      AND ($3::bigint IS NULL OR timestamp <= $3)
),
bounds AS MATERIALIZED (
    SELECT MIN(timestamp) AS min_ts, MAX(timestamp) AS max_ts
    FROM filtered
),
bucketed AS MATERIALIZED (
    SELECT
        CASE
            WHEN bounds.min_ts IS NULL THEN NULL
            WHEN bounds.min_ts = bounds.max_ts OR $4::bigint <= 1 THEN 0
            ELSE LEAST(
                $4::bigint - 1,
                ((filtered.timestamp - bounds.min_ts) * $4::bigint) / ((bounds.max_ts - bounds.min_ts) + 1)
            )
        END AS bucket,
        filtered.timestamp{select_columns}
    FROM filtered
    CROSS JOIN bounds
),
agg AS (
    SELECT
        bucketed.bucket AS bucket,
        AVG(bucketed.timestamp)::bigint AS timestamp{aggregate_columns}
    FROM bucketed
    WHERE bucketed.bucket IS NOT NULL
    GROUP BY bucketed.bucket
    ORDER BY bucketed.bucket
)
SELECT COALESCE(
    jsonb_agg(
        jsonb_build_object(
            'uuid', $1::text,
            'timestamp', agg.timestamp{final_json_fields}
        )
        ORDER BY agg.bucket
    ),
    '[]'::jsonb
) AS data
FROM agg
"#
    )
}

fn query(fields: Vec<DynamicDataQueryField>, points: u64, from: Option<i64>, to: Option<i64>) -> DynamicDataAvgQuery {
    DynamicDataAvgQuery { uuid: 1, fields, points, timestamp_from: from, timestamp_to: to }
}

fn invalid_input(r: Result<(), NodegetError>) -> String {
    match r {
        Err(NodegetError::InvalidInput(m)) => m,
        other => panic!("unexpected {other:?}"),
    }
}

#[test]
fn validate_avg_query_errors() {
    assert_eq!(invalid_input(validate_avg_query(&query(vec![], 5, None, None))), "fields cannot be empty for dynamic_data_avg_query");
    assert_eq!(invalid_input(validate_avg_query(&query(vec![DynamicDataQueryField::Cpu], 0, None, None))), "points must be >= 1");
    assert_eq!(
        invalid_input(validate_avg_query(&query(vec![DynamicDataQueryField::Cpu], 3, Some(10), Some(5)))),
        "timestamp_from cannot be greater than timestamp_to"
    );
    assert!(validate_avg_query(&query(vec![DynamicDataQueryField::Cpu], 3, Some(5), Some(5))).is_ok());
    assert!(validate_avg_query(&query(vec![DynamicDataQueryField::Ram], 1, Some(10), None)).is_ok());
}

#[test]
fn calc_bucket_index_values() {
    assert_eq!(calc_bucket_index(5, 0, 9, 1), 0);
    assert_eq!(calc_bucket_index(5, 3, 3, 4), 0);
    assert_eq!(calc_bucket_index(0, 0, 9, 5), 0);
    assert_eq!(calc_bucket_index(1, 0, 9, 5), 0);
    assert_eq!(calc_bucket_index(2, 0, 9, 5), 1);
    assert_eq!(calc_bucket_index(9, 0, 9, 5), 4);
    assert_eq!(calc_bucket_index(-100, 0, 9, 5), 0);
    assert_eq!(calc_bucket_index(1000, 0, 9, 5), 4);
    assert_eq!(calc_bucket_index(1, 0, 2, 10), 3);
    assert_eq!(calc_bucket_index(2, 0, 2, 10), 6);
}

#[test]
fn bucket_index_is_monotone_on_samples() {
    let mut last = 0;
    for t in -5..120 {
        let i = calc_bucket_index(t, 0, 99, 7);
        assert!(i >= last && i < 7);
        last = i;
    }
}

#[test]
fn field_average_kinds() {
    for f in ALL {
        let k = FieldAverageAccumulator::for_field(f);
        if f == DynamicDataQueryField::System {
            assert_eq!(k, FieldAverageAccumulator::SystemProcessCount);
        } else {
            assert_eq!(k, FieldAverageAccumulator::Generic);
        }
    }
    let b = BucketAccumulator::new(&[DynamicDataQueryField::Cpu, DynamicDataQueryField::System]);
    assert_eq!(b.field_accumulators(), &vec![FieldAverageAccumulator::Generic, FieldAverageAccumulator::SystemProcessCount]);
    assert_eq!(b.row_count(), 0);
}

#[test]
fn bucket_average_rounds_toward_zero() {
    let mut b = BucketAccumulator::new(&[DynamicDataQueryField::Cpu]);
    b.add_row(1);
    b.add_row(2);
    assert_eq!(b.average_timestamp(), 1);
    let mut n = BucketAccumulator::new(&[]);
    n.add_row(-1);
    n.add_row(-2);
    assert_eq!(n.average_timestamp(), -1);
    let mut big = BucketAccumulator::new(&[]);
    big.add_row(i64::MAX);
    big.add_row(i64::MAX);
    assert_eq!(big.average_timestamp(), i64::MAX);
}

#[test]
fn avg_buckets_fill_and_average() {
    let mut b = AvgBuckets::new(3, 0, 8, &[DynamicDataQueryField::Load]);
    assert_eq!(b.add_row(0), 0);
    assert_eq!(b.add_row(2), 0);
    assert_eq!(b.add_row(8), 2);
    assert_eq!(b.rows_added(), 3);
    assert_eq!(b.averages(), vec![(0, 1), (2, 8)]);
}

#[test]
fn time_range_and_points_param() {
    assert_eq!(resolve_time_range(None, Some(3)), None);
    assert_eq!(resolve_time_range(Some(2), None), Some((2, 2)));
    assert_eq!(resolve_time_range(Some(2), Some(9)), Some((2, 9)));
    assert_eq!(points_sql_param(12).unwrap(), 12);
    match points_sql_param(u64::MAX) {
        Err(NodegetError::InvalidInput(m)) => assert_eq!(m, "points is too large"),
        other => panic!("unexpected {other:?}"),
    }
}

#[test]
fn field_names() {
    assert_eq!(DynamicDataQueryField::Network.column_name(), "network_data");
    assert_eq!(DynamicDataQueryField::Network.json_key(), "network");
    assert_eq!(DynamicDataQueryField::Cpu.column_name(), "cpu_data");
}

#[test]
fn aggregate_sql_matches_expected() {
    for f in ALL {
        assert_eq!(build_postgres_dynamic_field_aggregate_sql(&f), expected_aggregate(&f));
    }
}

#[test]
fn avg_sql_matches_expected() {
    assert_eq!(build_postgres_dynamic_avg_sql(&[]), expected_sql(&[]));
    assert_eq!(build_postgres_dynamic_avg_sql(&[DynamicDataQueryField::Cpu]), expected_sql(&[DynamicDataQueryField::Cpu]));
    assert_eq!(build_postgres_dynamic_avg_sql(&ALL), expected_sql(&ALL));
    let sql = build_postgres_dynamic_avg_sql(&[DynamicDataQueryField::Ram, DynamicDataQueryField::Gpu]);
    assert!(sql.contains("SELECT timestamp, ram_data, gpu_data"));
    assert!(sql.contains("'timestamp', agg.timestamp, 'ram', agg.ram, 'gpu', agg.gpu"));
}
