//! Validation and replies of task creation.
use vstd::prelude::*;
use crate::error::NodegetError;
use crate::text::{decimal_text, push_decimal_i64};

verus! {

/// The command of an `execute` task.
#[derive(Debug)]
pub struct ExecuteTask {
    pub cmd: String,
}

/// The kinds of task an agent runs. Only the command of `Execute` is read
/// by the server's checks; the other kinds' parameters travel unread.
#[derive(Debug)]
pub enum TaskEventType {
    Ping,
    TcpPing,
    HttpPing,
    WebShell,
    Execute(ExecuteTask),
    Ip,
}

/// Name of a task kind, as permissions name it.
pub open spec fn task_name_spec(t: TaskEventType) -> Seq<char> {
    match t {
        TaskEventType::Ping => "ping"@,
        TaskEventType::TcpPing => "tcp_ping"@,
        TaskEventType::HttpPing => "http_ping"@,
        TaskEventType::WebShell => "web_shell"@,
        TaskEventType::Execute(_) => "execute"@,
        TaskEventType::Ip => "ip"@,
    }
}

impl TaskEventType {
    /// Name of the task kind, as permissions name it.
    pub fn task_name(&self) -> (r: &'static str)
        ensures
            r@ == task_name_spec(*self),
    {
        match self {
            TaskEventType::Ping => "ping",
            TaskEventType::TcpPing => "tcp_ping",
            TaskEventType::HttpPing => "http_ping",
            TaskEventType::WebShell => "web_shell",
            TaskEventType::Execute(_) => "execute",
            TaskEventType::Ip => "ip",
        }
    }
}

/// Unicode `White_Space` (what `char::is_whitespace` accepts).
pub open spec fn is_unicode_whitespace(c: char) -> bool {
    let v = c as u32;
    (0x9 <= v <= 0xd) || v == 0x20 || v == 0x85 || v == 0xa0 || v == 0x1680 || (0x2000 <= v <= 0x200a)
        || v == 0x2028 || v == 0x2029 || v == 0x202f || v == 0x205f || v == 0x3000
}

/// Whether `c` is Unicode white space.
pub fn is_whitespace_char(c: char) -> (r: bool)
    ensures
        r == is_unicode_whitespace(c),
{
    let v = c as u32;
    (0x9 <= v && v <= 0xd) || v == 0x20 || v == 0x85 || v == 0xa0 || v == 0x1680 || (0x2000 <= v && v <= 0x200a)
        || v == 0x2028 || v == 0x2029 || v == 0x202f || v == 0x205f || v == 0x3000
}

/// Whether the text is empty once trimmed: every character is white space.
pub fn is_blank(s: &str) -> (r: bool)
    ensures
        r == (forall|i: int| 0 <= i < s@.len() ==> is_unicode_whitespace(#[trigger] s@[i])),
{
    broadcast use vstd::string::group_string_axioms;
    let mut all = true;
    for c in it: s.chars()
        invariant
            it.seq() == s@,
            all == (forall|i: int| 0 <= i < it.index() ==> is_unicode_whitespace(#[trigger] s@[i])),
    {
        proof {
            assert(s@[it.index() as int] == c);
        }
        if !is_whitespace_char(c) {
            all = false;
        }
    }
    all
}

/// Rejects an `execute` task whose command is blank.
pub fn validate_task_type(task_type: &TaskEventType) -> (r: Result<(), NodegetError>)
    ensures
        r is Ok <==> !(task_type is Execute
            && forall|i: int| 0 <= i < task_type->Execute_0.cmd@.len()
                ==> is_unicode_whitespace(#[trigger] task_type->Execute_0.cmd@[i])),
        r matches Err(e) ==> e is InvalidInput && e.message_view() == "Execute cmd cannot be empty"@,
{
    match task_type {
        TaskEventType::Execute(execute_task) => {
            if is_blank(execute_task.cmd.as_str()) {
                return Err(NodegetError::InvalidInput("Execute cmd cannot be empty".to_string()));
            }
        },
        _ => {},
    }
    Ok(())
}

/// Message of a missing `Task::Create` permission.
pub open spec fn task_permission_denied_text(task_name: Seq<char>) -> Seq<char> {
    "Permission Denied: Missing Task Create ("@ + task_name + ") permission for this Agent"@
}

/// The error for a token without the `Task::Create` permission of the kind.
pub fn task_permission_denied(task_type: &TaskEventType) -> (e: NodegetError)
    ensures
        e is PermissionDenied,
        e.message_view() == task_permission_denied_text(task_name_spec(*task_type)),
{
    let mut m = String::new();
    m.append("Permission Denied: Missing Task Create (");
    m.append(task_type.task_name());
    m.append(") permission for this Agent");
    assert(m@ =~= task_permission_denied_text(task_name_spec(*task_type)));
    NodegetError::PermissionDenied(m)
}

/// Reply of a created task: `{"id":<task_id>}`.
pub open spec fn task_created_json_text(task_id: i64) -> Seq<char> {
    "{\"id\":"@ + decimal_text(task_id as int) + "}"@
}

/// Reply of a created task.
pub fn task_created_json(task_id: i64) -> (r: String)
    ensures
        r@ == task_created_json_text(task_id),
{
    let mut r = String::new();
    r.append("{\"id\":");
    push_decimal_i64(&mut r, task_id);
    r.append("}");
    assert(r@ =~= task_created_json_text(task_id));
    r
}

/// Message of a task event that could not be sent (after its row was rolled
/// back, or not when `rollback_failed`).
pub open spec fn task_send_failure_text(detail: Seq<char>, rollback_failed: bool) -> Seq<char> {
    let base = "Error sending task event: "@ + detail;
    if rollback_failed {
        base + "; rollback also failed, see logs (task row may need manual cleanup)"@
    } else {
        base
    }
}

/// The error of a task event that could not be sent to its agent.
pub fn task_send_failure(detail: &str, rollback_failed: bool) -> (e: NodegetError)
    ensures
        e is AgentConnectionError,
        e.message_view() == task_send_failure_text(detail@, rollback_failed),
{
    let mut m = String::new();
    m.append("Error sending task event: ");
    m.append(detail);
    if rollback_failed {
        m.append("; rollback also failed, see logs (task row may need manual cleanup)");
    }
    assert(m@ =~= task_send_failure_text(detail@, rollback_failed));
    NodegetError::AgentConnectionError(m)
}

/// Where the creation of a task stands. Each step but `Done` is what the
/// caller does next; `Done` holds the reply (`{"id":..}`) or the error.
#[derive(Debug)]
pub enum CreateTaskStep {
    /// Check the token's `Task::Create` permission for the task's kind and agent.
    Authorize,
    /// Insert the task row.
    Insert,
    /// Make sure the agent is registered among the monitored UUIDs (the
    /// outcome is only logged).
    Register(i64),
    /// Push the task event to the agent's session.
    Send(i64),
    /// The event could not be sent (for this reason): delete the task row.
    Rollback(i64, String),
    /// The creation is over.
    Done(Result<String, NodegetError>),
}

/// What happened at the last step of a task creation.
#[derive(Debug)]
pub enum CreateTaskEvent {
    /// The token does not parse; the parser's message.
    TokenInvalid(String),
    /// No permission checker is configured.
    CheckerMissing,
    /// The permission check failed with this error.
    CheckFailed(NodegetError),
    /// The permission check answered.
    Allowed(bool),
    /// No database connection; the error.
    DbUnavailable(NodegetError),
    /// The task row was inserted with this id.
    Inserted(i64),
    /// The insert failed; the database's message.
    InsertFailed(String),
    /// The agent's registration was attempted (success or not).
    Registered,
    /// The event reached the agent's session.
    Sent,
    /// The event could not be sent; the reason.
    SendFailed(String),
    /// The task row was deleted.
    RolledBack,
    /// Deleting the task row failed.
    RollbackFailed,
}

/// First step of creating a task of `task_type`: a blank `execute` command
/// is refused at once, anything else goes to the permission check.
pub fn create_task_start(task_type: &TaskEventType) -> (r: CreateTaskStep)
    ensures
        match validate_task_type_spec(*task_type) {
            true => r is Authorize,
            false => r matches CreateTaskStep::Done(Err(e)) && e is InvalidInput
                && e.message_view() == "Execute cmd cannot be empty"@,
        },
{
    match validate_task_type(task_type) {
        Ok(()) => CreateTaskStep::Authorize,
        Err(e) => CreateTaskStep::Done(Err(e)),
    }
}

/// Whether `validate_task_type` accepts a task kind.
pub open spec fn validate_task_type_spec(t: TaskEventType) -> bool {
    !(t is Execute && forall|i: int| 0 <= i < t->Execute_0.cmd@.len()
        ==> is_unicode_whitespace(#[trigger] t->Execute_0.cmd@[i]))
}

/// The next step of creating a task of `task_type` after `event`. An event
/// that does not answer the step changes nothing.
pub fn create_task_step(task_type: &TaskEventType, step: CreateTaskStep, event: CreateTaskEvent) -> (r: CreateTaskStep)
    ensures
        (step is Authorize && event is TokenInvalid) ==> (r matches CreateTaskStep::Done(Err(e)) && e is ParseError
            && e.message_view() == "Failed to parse token: "@ + event->TokenInvalid_0@),
        (step is Authorize && event is CheckerMissing) ==> (r matches CreateTaskStep::Done(Err(e)) && e is ConfigNotFound
            && e.message_view() == "PermissionChecker not initialized"@),
        (step is Authorize && event is CheckFailed) ==> r == CreateTaskStep::Done(Err(event->CheckFailed_0)),
        (step is Authorize && event is Allowed) ==> (if event->Allowed_0 {
            r is Insert
        } else {
            r matches CreateTaskStep::Done(Err(e)) && e is PermissionDenied
                && e.message_view() == task_permission_denied_text(task_name_spec(*task_type))
        }),
        (step is Insert && event is DbUnavailable) ==> r == CreateTaskStep::Done(Err(event->DbUnavailable_0)),
        (step is Insert && event is InsertFailed) ==> (r matches CreateTaskStep::Done(Err(e)) && e is DatabaseError
            && e.message_view() == "Database insert error: "@ + event->InsertFailed_0@),
        (step is Insert && event is Inserted) ==> r == CreateTaskStep::Register(event->Inserted_0),
        (step is Register && event is Registered) ==> r == CreateTaskStep::Send(step->Register_0),
        (step is Send && event is Sent) ==> (r matches CreateTaskStep::Done(Ok(j))
            && j@ == task_created_json_text(step->Send_0)),
        (step is Send && event is SendFailed) ==> (r matches CreateTaskStep::Rollback(id, d)
            && id == step->Send_0 && d@ == event->SendFailed_0@),
        (step is Rollback && (event is RolledBack || event is RollbackFailed)) ==> (r matches CreateTaskStep::Done(Err(e))
            && e is AgentConnectionError
            && e.message_view() == task_send_failure_text(step->Rollback_1@, event is RollbackFailed)),
        !((step is Authorize && (event is TokenInvalid || event is CheckerMissing || event is CheckFailed || event is Allowed))
            || (step is Insert && (event is DbUnavailable || event is InsertFailed || event is Inserted))
            || (step is Register && event is Registered)
            || (step is Send && (event is Sent || event is SendFailed))
            || (step is Rollback && (event is RolledBack || event is RollbackFailed))) ==> r == step,
{
    match (step, event) {
        (CreateTaskStep::Authorize, CreateTaskEvent::TokenInvalid(m)) => {
            let mut text = String::new();
            text.append("Failed to parse token: ");
            text.append(m.as_str());
            assert(text@ =~= "Failed to parse token: "@ + m@);
            CreateTaskStep::Done(Err(NodegetError::ParseError(text)))
        },
        (CreateTaskStep::Authorize, CreateTaskEvent::CheckerMissing) => CreateTaskStep::Done(
            Err(NodegetError::ConfigNotFound("PermissionChecker not initialized".to_string())),
        ),
        (CreateTaskStep::Authorize, CreateTaskEvent::CheckFailed(e)) => CreateTaskStep::Done(Err(e)),
        (CreateTaskStep::Authorize, CreateTaskEvent::Allowed(allowed)) => {
            if allowed {
                CreateTaskStep::Insert
            } else {
                CreateTaskStep::Done(Err(task_permission_denied(task_type)))
            }
        },
        (CreateTaskStep::Insert, CreateTaskEvent::DbUnavailable(e)) => CreateTaskStep::Done(Err(e)),
        (CreateTaskStep::Insert, CreateTaskEvent::InsertFailed(m)) => {
            let mut text = String::new();
            text.append("Database insert error: ");
            text.append(m.as_str());
            assert(text@ =~= "Database insert error: "@ + m@);
            CreateTaskStep::Done(Err(NodegetError::DatabaseError(text)))
        },
        (CreateTaskStep::Insert, CreateTaskEvent::Inserted(id)) => CreateTaskStep::Register(id),
        (CreateTaskStep::Register(id), CreateTaskEvent::Registered) => CreateTaskStep::Send(id),
        (CreateTaskStep::Send(id), CreateTaskEvent::Sent) => CreateTaskStep::Done(Ok(task_created_json(id))),
        (CreateTaskStep::Send(id), CreateTaskEvent::SendFailed(d)) => CreateTaskStep::Rollback(id, d),
        (CreateTaskStep::Rollback(_, d), CreateTaskEvent::RolledBack) => CreateTaskStep::Done(Err(task_send_failure(d.as_str(), false))),
        (CreateTaskStep::Rollback(_, d), CreateTaskEvent::RollbackFailed) => CreateTaskStep::Done(Err(task_send_failure(d.as_str(), true))),
        (other, _) => other,
    }
}

/// Law: distinct task kinds have distinct names, so a permission for one
/// kind never grants another; `execute` is the name of every command task.
pub proof fn law_task_names_distinct(a: TaskEventType, b: TaskEventType)
    ensures
        task_name_spec(a) == task_name_spec(b) ==> (a is Ping <==> b is Ping) && (a is TcpPing <==> b is TcpPing)
            && (a is HttpPing <==> b is HttpPing) && (a is WebShell <==> b is WebShell)
            && (a is Execute <==> b is Execute) && (a is Ip <==> b is Ip),
        a is Execute ==> task_name_spec(a) == "exec"@ + "ute"@,
{
    reveal_strlit("ping");
    reveal_strlit("tcp_ping");
    reveal_strlit("http_ping");
    reveal_strlit("web_shell");
    reveal_strlit("execute");
    reveal_strlit("ip");
    reveal_strlit("exec");
    reveal_strlit("ute");
    assert("exec"@ + "ute"@ =~= "execute"@);
    if task_name_spec(a) == task_name_spec(b) {
        assert(task_name_spec(a).len() == task_name_spec(b).len());
        assert(task_name_spec(a)[0] == task_name_spec(b)[0]);
        assert(task_name_spec(a)[1] == task_name_spec(b)[1]);
    }
}

/// Law: the ASCII blanks (space, tab, line feed, vertical tab, form feed,
/// carriage return) count as whitespace and no printable ASCII character
/// does, so a command of only blanks is refused and any command with a
/// visible character passes.
pub proof fn law_whitespace_in_ascii(c: char)
    requires
        (c as u32) < 128,
    ensures
        is_unicode_whitespace(c) <==> (c == ' ' || c == '\t' || c == '\n' || c == '\r' || (c as u32) == 0x0b || (c as u32) == 0x0c),
{
}

} // verus!
