//! The error kinds the server reports, each with its message.
use vstd::prelude::*;

verus! {

/// Errors of the NodeGet server, each carrying a human-readable message.
#[derive(Debug)]
pub enum NodegetError {
    DatabaseError(String),
    ParseError(String),
    PermissionDenied(String),
    SerializationError(String),
    InvalidInput(String),
    ConfigNotFound(String),
    AgentConnectionError(String),
}

impl NodegetError {
    /// The message the error carries.
    pub open spec fn message_view(&self) -> Seq<char> {
        match self {
            NodegetError::DatabaseError(m) => m@,
            NodegetError::ParseError(m) => m@,
            NodegetError::PermissionDenied(m) => m@,
            NodegetError::SerializationError(m) => m@,
            NodegetError::InvalidInput(m) => m@,
            NodegetError::ConfigNotFound(m) => m@,
            NodegetError::AgentConnectionError(m) => m@,
        }
    }

    /// The message the error carries.
    pub fn message(&self) -> (r: &String)
        ensures
            r@ == self.message_view(),
    {
        match self {
            NodegetError::DatabaseError(m) => m,
            NodegetError::ParseError(m) => m,
            NodegetError::PermissionDenied(m) => m,
            NodegetError::SerializationError(m) => m,
            NodegetError::InvalidInput(m) => m,
            NodegetError::ConfigNotFound(m) => m,
            NodegetError::AgentConnectionError(m) => m,
        }
    }
}

/// `r` failed with an `InvalidInput` error with message `m`.
pub open spec fn is_invalid_input<T>(r: Result<T, NodegetError>, m: Seq<char>) -> bool {
    r matches Err(e) && e is InvalidInput && e.message_view() == m
}

/// A `DatabaseError` whose message is `prefix` followed by `detail`.
pub fn database_error(prefix: &str, detail: &str) -> (e: NodegetError)
    ensures
        e is DatabaseError,
        e.message_view() == prefix@ + detail@,
{
    let mut m = String::new();
    m.append(prefix);
    m.append(detail);
    assert(Seq::<char>::empty() + prefix@ + detail@ =~= prefix@ + detail@);
    NodegetError::DatabaseError(m)
}

} // verus!
