//! Deletion of tokens by the super token: who may delete, and the reply.
use vstd::prelude::*;
use crate::error::NodegetError;
use crate::text::{decimal_digits, push_decimal_u64};

verus! {

/// `r` failed with a `PermissionDenied` error with message `m`.
pub open spec fn is_permission_denied<T>(r: Result<T, NodegetError>, m: Seq<char>) -> bool {
    r matches Err(e) && e is PermissionDenied && e.message_view() == m
}

/// Only the super token deletes tokens, and it must name the token to delete
/// (by key or username); the name is handed back.
pub fn token_delete_target(is_super_token: bool, target_token: Option<String>) -> (r: Result<String, NodegetError>)
    ensures
        !is_super_token ==> is_permission_denied(r, "Only SuperToken can delete tokens"@),
        is_super_token && target_token is None ==>
            is_permission_denied(r, "Target token (key/username) is required for SuperToken deletion"@),
        is_super_token && target_token is Some ==> (r matches Ok(t) && t@ == target_token->0@),
{
    if !is_super_token {
        return Err(NodegetError::PermissionDenied("Only SuperToken can delete tokens".to_string()));
    }
    match target_token {
        None => Err(NodegetError::PermissionDenied(
            "Target token (key/username) is required for SuperToken deletion".to_string(),
        )),
        Some(t) => Ok(t),
    }
}

/// Reply of a deletion that removed `rows` tokens matched by `matched_by`.
pub open spec fn token_deleted_json(target: Seq<char>, rows: u64, matched_by: Seq<char>) -> Seq<char> {
    "{\"success\":true,\"message\":\"Token "@ + target + " deleted successfully by SuperToken\",\"rows_affected\":"@
        + decimal_digits(rows as nat) + ",\"matched_by\":\""@ + matched_by + "\"}"@
}

/// Reply of a deletion that matched no token.
pub open spec fn token_not_found_json(target: Seq<char>) -> Seq<char> {
    "{\"success\":false,\"message\":\"Token "@ + target + " not found\"}"@
}

/// The reply of a deletion: by token key when that removed rows, else by
/// username when that did, else not found. `by_username_rows` is only read
/// when the key matched nothing. The target is written into the reply as it
/// is.
pub fn token_delete_reply(target: &str, by_key_rows: u64, by_username_rows: u64) -> (r: String)
    ensures
        r@ == (if by_key_rows > 0 {
            token_deleted_json(target@, by_key_rows, "token_key"@)
        } else if by_username_rows > 0 {
            token_deleted_json(target@, by_username_rows, "username"@)
        } else {
            token_not_found_json(target@)
        }),
{
    let mut r = String::new();
    if by_key_rows > 0 || by_username_rows > 0 {
        let (rows, matched_by) = if by_key_rows > 0 { (by_key_rows, "token_key") } else { (by_username_rows, "username") };
        r.append("{\"success\":true,\"message\":\"Token ");
        r.append(target);
        r.append(" deleted successfully by SuperToken\",\"rows_affected\":");
        push_decimal_u64(&mut r, rows);
        r.append(",\"matched_by\":\"");
        r.append(matched_by);
        r.append("\"}");
        assert(r@ =~= token_deleted_json(target@, rows, matched_by@));
    } else {
        r.append("{\"success\":false,\"message\":\"Token ");
        r.append(target);
        r.append(" not found\"}");
        assert(r@ =~= token_not_found_json(target@));
    }
    r
}

/// Where a token deletion stands: the key lookup first, the username lookup
/// only when the key matched nothing, then the reply.
#[derive(Debug)]
pub enum TokenDeleteStep {
    /// Delete the tokens whose key is the target.
    DeleteByKey(String),
    /// The key matched nothing: delete the tokens whose username is the target.
    DeleteByUsername(String),
    /// The deletion is over; the reply.
    Done(String),
}

/// The first step of a deletion by `is_super_token`: the key lookup of the
/// named target, or the refusal of `token_delete_target`.
pub fn token_delete_start(is_super_token: bool, target_token: Option<String>) -> (r: Result<TokenDeleteStep, NodegetError>)
    ensures
        !is_super_token ==> is_permission_denied(r, "Only SuperToken can delete tokens"@),
        is_super_token && target_token is None ==>
            is_permission_denied(r, "Target token (key/username) is required for SuperToken deletion"@),
        is_super_token && target_token is Some ==>
            (r matches Ok(TokenDeleteStep::DeleteByKey(t)) && t@ == target_token->0@),
{
    match token_delete_target(is_super_token, target_token) {
        Ok(t) => Ok(TokenDeleteStep::DeleteByKey(t)),
        Err(e) => Err(e),
    }
}

/// The next step once the current lookup removed `rows_affected` tokens: a
/// key match answers at once, no key match moves on to the username, and a
/// username lookup always answers. A finished deletion stays as it is.
pub fn token_delete_step(step: TokenDeleteStep, rows_affected: u64) -> (r: TokenDeleteStep)
    ensures
        step matches TokenDeleteStep::DeleteByKey(t) ==> (if rows_affected > 0 {
            r matches TokenDeleteStep::Done(m) && m@ == token_deleted_json(t@, rows_affected, "token_key"@)
        } else {
            r matches TokenDeleteStep::DeleteByUsername(u) && u@ == t@
        }),
        step matches TokenDeleteStep::DeleteByUsername(t) ==> (if rows_affected > 0 {
            r matches TokenDeleteStep::Done(m) && m@ == token_deleted_json(t@, rows_affected, "username"@)
        } else {
            r matches TokenDeleteStep::Done(m) && m@ == token_not_found_json(t@)
        }),
        step is Done ==> r == step,
{
    match step {
        TokenDeleteStep::DeleteByKey(t) => {
            if rows_affected > 0 {
                TokenDeleteStep::Done(token_delete_reply(t.as_str(), rows_affected, 0))
            } else {
                TokenDeleteStep::DeleteByUsername(t)
            }
        },
        TokenDeleteStep::DeleteByUsername(t) => TokenDeleteStep::Done(token_delete_reply(t.as_str(), 0, rows_affected)),
        TokenDeleteStep::Done(m) => TokenDeleteStep::Done(m),
    }
}

/// Law: a deletion that removed tokens answers `"success":true` with the
/// number removed and how they matched; one that removed none answers
/// `"success":false`.
pub proof fn law_reply_reports_success(target: Seq<char>, rows: u64, matched_by: Seq<char>)
    ensures
        token_deleted_json(target, rows, matched_by).take(15) == "{\"success\":"@ + "true"@,
        token_not_found_json(target).take(16) == "{\"success\":"@ + "false"@,
{
    reveal_strlit("{\"success\":true,\"message\":\"Token ");
    reveal_strlit("{\"success\":false,\"message\":\"Token ");
    reveal_strlit("{\"success\":");
    reveal_strlit("true");
    reveal_strlit("false");
    assert(token_deleted_json(target, rows, matched_by).take(15) =~= "{\"success\":"@ + "true"@);
    assert(token_not_found_json(target).take(16) =~= "{\"success\":"@ + "false"@);
}

} // verus!
