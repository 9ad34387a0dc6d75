//! Verified core of the NodeGet server: the monitoring UUID cache, the
//! dynamic-monitoring averaging logic, crontab dispatch bookkeeping, task
//! session routing, and the small text formats the server produces.

pub mod avg_sql;
pub mod crontab_dispatch;
pub mod crontab_result_query;
pub mod crontab_schedule;
pub mod dynamic_avg;
pub mod error;
pub mod kv_settings;
pub mod migrations;
pub mod rpc;
pub mod server_args;
pub mod task_create;
pub mod task_sessions;
pub mod text;
pub mod token_delete;
pub mod uuid_cache;
