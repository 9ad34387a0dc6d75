//! The RPC endpoints' own decisions: the error codes and messages agents
//! get when a report cannot be stored.
use vstd::prelude::*;

verus! {

/// The `agent` RPC namespace (`report_static`, `report_dynamic`).
pub struct AgentRpcImpl;

/// The `crontab` RPC namespace (`create`, `get`).
pub struct CrontabRpcImpl;

/// Why a monitoring report was not stored.
#[derive(Debug)]
pub enum ReportFailure {
    /// The database connection is not initialized.
    DbUnavailable,
    /// The report's JSON does not have the report's shape; the parser's message.
    ParseFailed(String),
    /// A part of the report could not be turned into JSON; the message.
    SerializeFailed(String),
    /// The insert failed; the database's message.
    InsertFailed(String),
}

/// The error code and message of a failed report.
pub open spec fn report_error_spec(f: ReportFailure) -> (i64, Seq<char>) {
    match f {
        ReportFailure::DbUnavailable => (102, "DB not initialized"@),
        ReportFailure::ParseFailed(e) => (101, "Unable to parse json data: "@ + e@),
        ReportFailure::SerializeFailed(e) => (101, "Serialization error: "@ + e@),
        ReportFailure::InsertFailed(e) => (103, "Database insert error: "@ + e@),
    }
}

impl AgentRpcImpl {
    /// The error code and message a failed report is answered with.
    pub fn report_error(failure: &ReportFailure) -> (r: (i64, String))
        ensures
            r.0 == report_error_spec(*failure).0,
            r.1@ == report_error_spec(*failure).1,
    {
        let mut m = String::new();
        match failure {
            ReportFailure::DbUnavailable => {
                m.append("DB not initialized");
                assert(m@ =~= "DB not initialized"@);
                (102, m)
            },
            ReportFailure::ParseFailed(e) => {
                m.append("Unable to parse json data: ");
                m.append(e.as_str());
                assert(m@ =~= "Unable to parse json data: "@ + e@);
                (101, m)
            },
            ReportFailure::SerializeFailed(e) => {
                m.append("Serialization error: ");
                m.append(e.as_str());
                assert(m@ =~= "Serialization error: "@ + e@);
                (101, m)
            },
            ReportFailure::InsertFailed(e) => {
                m.append("Database insert error: ");
                m.append(e.as_str());
                assert(m@ =~= "Database insert error: "@ + e@);
                (103, m)
            },
        }
    }
}

/// The `task` RPC namespace of the single-binary server (`create_task`,
/// `register_task`).
pub struct TaskRpcImpl;

/// Why that server's `create_task` failed.
#[derive(Debug)]
pub enum TaskCreateFailure {
    /// The database connection is not initialized.
    DbUnavailable,
    /// The task kind could not be turned into JSON; the message.
    SerializeFailed(String),
    /// The insert failed; the database's message.
    InsertFailed(String),
    /// The event could not be sent: the session table's code and message.
    SendFailed(u32, String),
}

/// The error code and message of a failed task creation.
pub open spec fn task_create_error_spec(f: TaskCreateFailure) -> (int, Seq<char>) {
    match f {
        TaskCreateFailure::DbUnavailable => (102, "DB not initialized"@),
        TaskCreateFailure::SerializeFailed(e) => (101, "Serialization error: "@ + e@),
        TaskCreateFailure::InsertFailed(e) => (103, "Database insert error: "@ + e@),
        TaskCreateFailure::SendFailed(code, e) => (code as int, "Error sending task event: "@ + e@),
    }
}

impl TaskRpcImpl {
    /// The error code and message a failed task creation is answered with;
    /// a failed send keeps the session table's code.
    pub fn create_task_error(failure: &TaskCreateFailure) -> (r: (u32, String))
        ensures
            r.0 == task_create_error_spec(*failure).0,
            r.1@ == task_create_error_spec(*failure).1,
    {
        let mut m = String::new();
        match failure {
            TaskCreateFailure::DbUnavailable => {
                m.append("DB not initialized");
                assert(m@ =~= "DB not initialized"@);
                (102, m)
            },
            TaskCreateFailure::SerializeFailed(e) => {
                m.append("Serialization error: ");
                m.append(e.as_str());
                assert(m@ =~= "Serialization error: "@ + e@);
                (101, m)
            },
            TaskCreateFailure::InsertFailed(e) => {
                m.append("Database insert error: ");
                m.append(e.as_str());
                assert(m@ =~= "Database insert error: "@ + e@);
                (103, m)
            },
            TaskCreateFailure::SendFailed(code, e) => {
                m.append("Error sending task event: ");
                m.append(e.as_str());
                assert(m@ =~= "Error sending task event: "@ + e@);
                (*code, m)
            },
        }
    }
}

/// Law: a report that could not be read or written as JSON fails with code
/// 101, one that found no database with 102, one whose insert failed with
/// 103; every message with a cause ends with that cause.
pub proof fn law_report_error_codes(f: ReportFailure)
    ensures
        report_error_spec(f).0 == (match f {
            ReportFailure::DbUnavailable => 102int,
            ReportFailure::InsertFailed(_) => 103int,
            _ => 101int,
        }),
        f matches ReportFailure::ParseFailed(e) ==> report_error_spec(f).1.skip(report_error_spec(f).1.len() - e@.len()) == e@,
        f matches ReportFailure::SerializeFailed(e) ==> report_error_spec(f).1.skip(report_error_spec(f).1.len() - e@.len()) == e@,
        f matches ReportFailure::InsertFailed(e) ==> report_error_spec(f).1.skip(report_error_spec(f).1.len() - e@.len()) == e@,
{
    match f {
        ReportFailure::ParseFailed(e) => {
            assert(report_error_spec(f).1.skip(report_error_spec(f).1.len() - e@.len()) =~= e@);
        },
        ReportFailure::SerializeFailed(e) => {
            assert(report_error_spec(f).1.skip(report_error_spec(f).1.len() - e@.len()) =~= e@);
        },
        ReportFailure::InsertFailed(e) => {
            assert(report_error_spec(f).1.skip(report_error_spec(f).1.len() - e@.len()) =~= e@);
        },
        _ => {},
    }
}

/// Law: a failed send keeps the session table's code and reason; a missing
/// database is 102, an unserialisable task 101, a failed insert 103.
pub proof fn law_task_create_error_codes(f: TaskCreateFailure)
    ensures
        f matches TaskCreateFailure::SendFailed(code, e) ==> task_create_error_spec(f).0 == code
            && task_create_error_spec(f).1.skip(task_create_error_spec(f).1.len() - e@.len()) == e@,
        f is DbUnavailable ==> task_create_error_spec(f).0 == 102,
        f is SerializeFailed ==> task_create_error_spec(f).0 == 101,
        f is InsertFailed ==> task_create_error_spec(f).0 == 103,
{
    if let TaskCreateFailure::SendFailed(_, e) = f {
        assert(task_create_error_spec(f).1.skip(task_create_error_spec(f).1.len() - e@.len()) =~= e@);
    }
}

} // verus!
