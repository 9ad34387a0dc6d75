//! Routing of task events to the agents' live subscription sessions.
use vstd::prelude::*;
use std::collections::HashMap;

verus! {

/// Sessions after a disconnect of registration `reg_id` of agent `uuid`:
/// the agent's session goes away only when it is still that registration.
pub open spec fn sessions_after_remove<S>(m: Map<u128, (u128, S)>, uuid: u128, reg_id: u128) -> Map<u128, (u128, S)> {
    if m.contains_key(uuid) && m[uuid].0 == reg_id { m.remove(uuid) } else { m }
}

/// The live task sessions: for each agent (by UUID value), the registration
/// id of its current subscription and the sender that reaches it.
pub struct TaskManager<S> {
    peers: HashMap<u128, (u128, S)>,
}

impl<S> TaskManager<S> {
    /// Agent -> (registration id, sender).
    pub closed spec fn sessions(&self) -> Map<u128, (u128, S)> {
        self.peers@
    }

    /// No sessions.
    pub fn new() -> (m: Self)
        ensures
            m.sessions() == Map::<u128, (u128, S)>::empty(),
    {
        TaskManager { peers: HashMap::new() }
    }

    /// Registers (or replaces) the session of `uuid`.
    pub fn add_session(&mut self, uuid: u128, reg_id: u128, tx: S)
        ensures
            final(self).sessions() == old(self).sessions().insert(uuid, (reg_id, tx)),
    {
        broadcast use vstd::std_specs::hash::group_hash_axioms;
        self.peers.insert(uuid, (reg_id, tx));
    }

    /// Ends the session of `uuid` registered as `reg_id`; a newer registration
    /// of the same agent is left alone.
    pub fn remove_session(&mut self, uuid: u128, reg_id: u128)
        ensures
            final(self).sessions() == sessions_after_remove(old(self).sessions(), uuid, reg_id),
    {
        broadcast use vstd::std_specs::hash::group_hash_axioms;
        let current = match self.peers.get(&uuid) {
            Some(entry) => Some(entry.0),
            None => None,
        };
        match current {
            Some(current_reg_id) => {
                if current_reg_id == reg_id {
                    self.peers.remove(&uuid);
                }
            },
            None => {},
        }
    }

    /// The sender of the session of `uuid`, or the "not found" error
    /// `(103, "Uuid not found")` when the agent has no session.
    pub fn session_sender(&self, uuid: u128) -> (r: Result<&S, (u32, String)>)
        ensures
            self.sessions().contains_key(uuid) ==> (r matches Ok(tx) && *tx == self.sessions()[uuid].1),
            !self.sessions().contains_key(uuid) ==> (r matches Err(e) && e.0 == 103 && e.1@ == "Uuid not found"@),
    {
        broadcast use vstd::std_specs::hash::group_hash_axioms;
        match self.peers.get(&uuid) {
            Some(entry) => Ok(&entry.1),
            None => Err((103, "Uuid not found".to_string())),
        }
    }
}

/// Result of `send_event` once the sender was found: `Ok` when the event was
/// handed to the session, `(104, "Error sending event")` when the session is
/// gone.
pub fn send_result(delivered: bool) -> (r: Result<(), (u32, String)>)
    ensures
        delivered ==> r is Ok,
        !delivered ==> (r matches Err(e) && e.0 == 104 && e.1@ == "Error sending event"@),
{
    if delivered {
        Ok(())
    } else {
        Err((104, "Error sending event".to_string()))
    }
}

/// Law: when an agent re-registers before its old subscription ends, the end
/// of the old one does not remove the new session.
pub proof fn law_stale_disconnect_keeps_new_session<S>(
    m: Map<u128, (u128, S)>,
    uuid: u128,
    old_reg: u128,
    old_tx: S,
    new_reg: u128,
    new_tx: S,
)
    requires
        old_reg != new_reg,
    ensures
        sessions_after_remove(m.insert(uuid, (old_reg, old_tx)).insert(uuid, (new_reg, new_tx)), uuid, old_reg)
            == m.insert(uuid, (new_reg, new_tx)),
{
    assert(m.insert(uuid, (old_reg, old_tx)).insert(uuid, (new_reg, new_tx)) =~= m.insert(uuid, (new_reg, new_tx)));
}

/// Law: the end of the current subscription removes the agent's session and
/// touches no other agent's.
pub proof fn law_disconnect_removes_own_session<S>(m: Map<u128, (u128, S)>, uuid: u128, reg: u128, tx: S)
    ensures
        !sessions_after_remove(m.insert(uuid, (reg, tx)), uuid, reg).contains_key(uuid),
        forall|other: u128| other != uuid ==>
            (#[trigger] sessions_after_remove(m.insert(uuid, (reg, tx)), uuid, reg).contains_key(other)) == m.contains_key(other),
{
}

} // verus!
