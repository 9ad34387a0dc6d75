use nodeget::error::NodegetError;
use nodeget::token_delete::{token_delete_reply, token_delete_start, token_delete_step, token_delete_target, TokenDeleteStep};

#[test]
fn only_super_token_with_target() {
    match token_delete_target(false, Some("k".to_owned())) {
        Err(NodegetError::PermissionDenied(m)) => assert_eq!(m, "Only SuperToken can delete tokens"),
        other => panic!("unexpected {other:?}"),
    }
    match token_delete_target(true, None) {
        Err(NodegetError::PermissionDenied(m)) => {
            assert_eq!(m, "Target token (key/username) is required for SuperToken deletion")
        }
        other => panic!("unexpected {other:?}"),
    }
    assert_eq!(token_delete_target(true, Some("k".to_owned())).unwrap(), "k");
}

#[test]
fn replies() {
    assert_eq!(
        token_delete_reply("abc", 1, 0),
        "{\"success\":true,\"message\":\"Token abc deleted successfully by SuperToken\",\"rows_affected\":1,\"matched_by\":\"token_key\"}"
    );
    assert_eq!(
        token_delete_reply("gm", 0, 2),
        "{\"success\":true,\"message\":\"Token gm deleted successfully by SuperToken\",\"rows_affected\":2,\"matched_by\":\"username\"}"
    );
    assert_eq!(token_delete_reply("nobody", 0, 0), "{\"success\":false,\"message\":\"Token nobody not found\"}");
    let v: serde_json::Value = serde_json::from_str(&token_delete_reply("abc", 3, 9)).unwrap();
    assert_eq!(v["rows_affected"], 3);
}

#[test]
fn delete_steps_try_key_then_username() {
    let step = token_delete_start(true, Some("alice".to_owned())).unwrap();
    assert!(matches!(&step, TokenDeleteStep::DeleteByKey(k) if k == "alice"));
    let step = token_delete_step(step, 0);
    assert!(matches!(&step, TokenDeleteStep::DeleteByUsername(u) if u == "alice"));
    match token_delete_step(step, 2) {
        TokenDeleteStep::Done(m) => assert_eq!(
            m,
            "{\"success\":true,\"message\":\"Token alice deleted successfully by SuperToken\",\"rows_affected\":2,\"matched_by\":\"username\"}"
        ),
        other => panic!("unexpected step {other:?}"),
    }
    let by_key = token_delete_step(TokenDeleteStep::DeleteByKey("k1".to_owned()), 1);
    assert!(matches!(&by_key, TokenDeleteStep::Done(m) if m.contains("\"matched_by\":\"token_key\"")));
    let missing = token_delete_step(TokenDeleteStep::DeleteByUsername("nobody".to_owned()), 0);
    assert!(matches!(&missing, TokenDeleteStep::Done(m) if m == "{\"success\":false,\"message\":\"Token nobody not found\"}"));
    assert!(token_delete_start(false, Some("x".to_owned())).is_err());
    assert!(token_delete_start(true, None).is_err());
}
