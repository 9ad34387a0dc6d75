use nodeget::error::NodegetError;
use nodeget::rpc::{TaskCreateFailure, TaskRpcImpl};
use nodeget::task_create::{
    create_task_start, create_task_step, is_blank, task_created_json, task_permission_denied, task_send_failure,
    validate_task_type, CreateTaskEvent, CreateTaskStep, ExecuteTask, TaskEventType,
};

#[test]
fn blank_execute_command_is_rejected() {
    let t = TaskEventType::Execute(ExecuteTask { cmd: " \t\n\u{3000}".to_owned() });
    match validate_task_type(&t) {
        Err(NodegetError::InvalidInput(m)) => assert_eq!(m, "Execute cmd cannot be empty"),
        other => panic!("unexpected {other:?}"),
    }
    assert!(validate_task_type(&TaskEventType::Execute(ExecuteTask { cmd: "".to_owned() })).is_err());
    assert!(validate_task_type(&TaskEventType::Execute(ExecuteTask { cmd: " ls ".to_owned() })).is_ok());
    assert!(validate_task_type(&TaskEventType::Ping).is_ok());
}

#[test]
fn blank_matches_trim() {
    for s in ["", " ", "a", " a ", "\u{a0}", "\u{200b}", "\u{2029}x", "\u{85}\u{1680}"] {
        assert_eq!(is_blank(s), s.trim().is_empty(), "{s:?}");
    }
}

#[test]
fn task_names_and_messages() {
    assert_eq!(TaskEventType::TcpPing.task_name(), "tcp_ping");
    assert_eq!(TaskEventType::WebShell.task_name(), "web_shell");
    assert_eq!(
        task_permission_denied(&TaskEventType::Ip).message(),
        "Permission Denied: Missing Task Create (ip) permission for this Agent"
    );
    assert_eq!(task_created_json(42), "{\"id\":42}");
    assert_eq!(task_created_json(-3), "{\"id\":-3}");
    assert_eq!(task_send_failure("Uuid not found", false).message(), "Error sending task event: Uuid not found");
    assert_eq!(
        task_send_failure("x", true).message(),
        "Error sending task event: x; rollback also failed, see logs (task row may need manual cleanup)"
    );
}

#[test]
fn create_task_steps_success_and_rollback() {
    let t = TaskEventType::Ping;
    let step = create_task_start(&t);
    assert!(matches!(step, CreateTaskStep::Authorize));
    let step = create_task_step(&t, step, CreateTaskEvent::Allowed(true));
    assert!(matches!(step, CreateTaskStep::Insert));
    let step = create_task_step(&t, step, CreateTaskEvent::Inserted(42));
    assert!(matches!(step, CreateTaskStep::Register(42)));
    let step = create_task_step(&t, step, CreateTaskEvent::Registered);
    assert!(matches!(step, CreateTaskStep::Send(42)));
    match create_task_step(&t, CreateTaskStep::Send(42), CreateTaskEvent::Sent) {
        CreateTaskStep::Done(Ok(json)) => assert_eq!(json, "{\"id\":42}"),
        other => panic!("unexpected {other:?}"),
    }
    let step = create_task_step(&t, CreateTaskStep::Send(7), CreateTaskEvent::SendFailed("Uuid not found".to_owned()));
    assert!(matches!(&step, CreateTaskStep::Rollback(7, d) if d == "Uuid not found"));
    match create_task_step(&t, step, CreateTaskEvent::RollbackFailed) {
        CreateTaskStep::Done(Err(NodegetError::AgentConnectionError(m))) => assert_eq!(
            m,
            "Error sending task event: Uuid not found; rollback also failed, see logs (task row may need manual cleanup)"
        ),
        other => panic!("unexpected {other:?}"),
    }
}

#[test]
fn create_task_steps_refusals() {
    let blank = TaskEventType::Execute(ExecuteTask { cmd: " \t".to_owned() });
    assert!(matches!(create_task_start(&blank), CreateTaskStep::Done(Err(NodegetError::InvalidInput(_)))));
    let t = TaskEventType::WebShell;
    match create_task_step(&t, CreateTaskStep::Authorize, CreateTaskEvent::Allowed(false)) {
        CreateTaskStep::Done(Err(NodegetError::PermissionDenied(m))) => {
            assert_eq!(m, "Permission Denied: Missing Task Create (web_shell) permission for this Agent")
        }
        other => panic!("unexpected {other:?}"),
    }
    assert!(matches!(
        create_task_step(&t, CreateTaskStep::Authorize, CreateTaskEvent::CheckerMissing),
        CreateTaskStep::Done(Err(NodegetError::ConfigNotFound(_)))
    ));
    match create_task_step(&t, CreateTaskStep::Insert, CreateTaskEvent::InsertFailed("disk full".to_owned())) {
        CreateTaskStep::Done(Err(NodegetError::DatabaseError(m))) => assert_eq!(m, "Database insert error: disk full"),
        other => panic!("unexpected {other:?}"),
    }
    assert!(matches!(
        create_task_step(&t, CreateTaskStep::Insert, CreateTaskEvent::Sent),
        CreateTaskStep::Insert
    ));
}

#[test]
fn legacy_create_task_errors() {
    assert_eq!(TaskRpcImpl::create_task_error(&TaskCreateFailure::DbUnavailable), (102, "DB not initialized".to_owned()));
    assert_eq!(
        TaskRpcImpl::create_task_error(&TaskCreateFailure::SendFailed(104, "Error sending event".to_owned())),
        (104, "Error sending task event: Error sending event".to_owned())
    );
    assert_eq!(
        TaskRpcImpl::create_task_error(&TaskCreateFailure::InsertFailed("x".to_owned())),
        (103, "Database insert error: x".to_owned())
    );
}
