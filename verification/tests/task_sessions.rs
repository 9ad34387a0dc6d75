use nodeget::task_sessions::{send_result, TaskManager};

#[test]
fn sessions_route_to_current_registration() {
    let mut m: TaskManager<&str> = TaskManager::new();
    m.add_session(1, 100, "first");
    m.add_session(1, 200, "second");
    assert_eq!(*m.session_sender(1).unwrap(), "second");
    // the end of the older subscription leaves the newer one alone
    m.remove_session(1, 100);
    assert_eq!(*m.session_sender(1).unwrap(), "second");
    m.remove_session(1, 200);
    let e = m.session_sender(1).unwrap_err();
    assert_eq!(e, (103, "Uuid not found".to_owned()));
}

#[test]
fn send_results() {
    assert!(send_result(true).is_ok());
    assert_eq!(send_result(false).unwrap_err(), (104, "Error sending event".to_owned()));
}
