//! The control actor: owner of the authoritative routing table and of the
//! sessions that have finished the version handshake but not authenticated.

use vstd::prelude::*;
use crate::protocol::ServerPacket;
use crate::routing_table::{RoutingTable, TableModel, TableError};
use crate::sink::ClientSink;

verus! {

broadcast use vstd::std_specs::hash::group_hash_axioms;

/// A session that finished the version handshake: its client version and
/// the send end of its client-bound queue.
#[derive(Debug)]
pub struct UnAuthSession {
    pub version: u32,
    pub send: ClientSink,
}

/// Messages on the control actor's queue.
#[derive(Debug)]
pub enum ControlMessage {
    /// A control packet received by session `id`'s actor.
    Packet(u32, ServerPacket),
    /// Session `id` finished the version handshake.
    AddSession(u32, UnAuthSession),
    /// Session `id` terminated.
    RemoveSession(u32),
    /// Graceful shutdown.
    Shutdown,
}

/// Protocol violations, logged and dropped.
#[derive(Clone, Copy, Debug, PartialEq, Eq)]
pub enum ControlError {
    /// A session that has not authenticated sent something else than
    /// `Authenticate`.
    UnauthenticatedPacket(u32),
    /// A packet came from a session that is neither authenticated nor
    /// waiting to authenticate.
    UnknownSession(u32),
    /// Removal of a session that is neither authenticated nor waiting.
    UnknownRemoval(u32),
    /// A session that is already authenticated declared itself again.
    AlreadyAuthenticated(u32),
}

/// What the control actor's runtime must do after one message.
#[derive(Debug)]
pub enum ControlOutcome {
    /// The routing table changed: send this snapshot to the routing actor.
    Publish(RoutingTable),
    /// Nothing to do.
    Unchanged,
    /// A protocol violation to log; the state is unchanged.
    Violation(ControlError),
    /// Close the queue, handle what is still buffered, then tell the
    /// routing actor to shut down.
    Close,
}

/// Kind of a control outcome, without the snapshot.
pub enum ControlEffect {
    Publish,
    Unchanged,
    Violation(ControlError),
    Close,
}

/// Kind of an outcome.
pub open spec fn effect_of(o: ControlOutcome) -> ControlEffect {
    match o {
        ControlOutcome::Publish(_) => ControlEffect::Publish,
        ControlOutcome::Unchanged => ControlEffect::Unchanged,
        ControlOutcome::Violation(e) => ControlEffect::Violation(e),
        ControlOutcome::Close => ControlEffect::Close,
    }
}

/// Abstract state of the control actor.
pub struct ControlModel {
    pub unauth: Map<u32, UnAuthSession>,
    pub table: TableModel,
}

impl ControlModel {
    /// The invariants: those of the routing table, and no session both
    /// waiting to authenticate and authenticated.
    pub open spec fn wf(self) -> bool {
        &&& self.table.wf()
        &&& forall|id: u32| #[trigger]
            self.unauth.contains_key(id) ==> !self.table.sessions.contains_key(id)
    }

    /// State after handling `msg`.
    pub open spec fn next(self, msg: ControlMessage) -> ControlModel {
        match msg {
            ControlMessage::AddSession(id, u) => {
                if self.table.sessions.contains_key(id) {
                    self
                } else {
                    ControlModel { unauth: self.unauth.insert(id, u), table: self.table }
                }
            },
            ControlMessage::Packet(id, p) => {
                if !self.table.sessions.contains_key(id) && self.unauth.contains_key(id)
                    && p is Authenticate {
                    let u = self.unauth[id];
                    ControlModel {
                        unauth: self.unauth.remove(id),
                        table: self.table.enrolled(id, u.version, u.send),
                    }
                } else {
                    self
                }
            },
            ControlMessage::RemoveSession(id) => {
                if self.unauth.contains_key(id) {
                    ControlModel { unauth: self.unauth.remove(id), table: self.table }
                } else {
                    ControlModel { unauth: self.unauth, table: self.table.without(id) }
                }
            },
            ControlMessage::Shutdown => self,
        }
    }

    /// What the runtime must do after handling `msg`.
    pub open spec fn effect(self, msg: ControlMessage) -> ControlEffect {
        match msg {
            ControlMessage::AddSession(id, _) => {
                if self.table.sessions.contains_key(id) {
                    ControlEffect::Violation(ControlError::AlreadyAuthenticated(id))
                } else {
                    ControlEffect::Unchanged
                }
            },
            ControlMessage::Packet(id, p) => {
                if self.table.sessions.contains_key(id) {
                    ControlEffect::Unchanged
                } else if !self.unauth.contains_key(id) {
                    ControlEffect::Violation(ControlError::UnknownSession(id))
                } else if p is Authenticate {
                    ControlEffect::Publish
                } else {
                    ControlEffect::Violation(ControlError::UnauthenticatedPacket(id))
                }
            },
            ControlMessage::RemoveSession(id) => {
                if self.unauth.contains_key(id) {
                    ControlEffect::Unchanged
                } else if self.table.sessions.contains_key(id) {
                    ControlEffect::Publish
                } else {
                    ControlEffect::Violation(ControlError::UnknownRemoval(id))
                }
            },
            ControlMessage::Shutdown => ControlEffect::Close,
        }
    }
}

/// State after handling each message of `msgs` in turn.
pub open spec fn run(m: ControlModel, msgs: Seq<ControlMessage>) -> ControlModel
    decreases msgs.len(),
{
    if msgs.len() == 0 {
        m
    } else {
        run(m, msgs.drop_last()).next(msgs.last())
    }
}

/// One message keeps the invariants.
pub proof fn lemma_next_keeps_invariants(m: ControlModel, msg: ControlMessage)
    requires
        m.wf(),
    ensures
        m.next(msg).wf(),
{
    match msg {
        ControlMessage::Packet(id, p) => {
            if !m.table.sessions.contains_key(id) && m.unauth.contains_key(id) && p is Authenticate {
                let u = m.unauth[id];
                crate::routing_table::lemma_placed_wf(
                    m.table,
                    id,
                    crate::routing_table::Session { room_id: 0, version: u.version, sink: u.send },
                );
            }
        },
        ControlMessage::RemoveSession(id) => {
            crate::routing_table::lemma_without_wf(m.table, id);
        },
        _ => {},
    }
}

/// Whatever sequence of messages the control actor handles, the routing
/// table invariants hold at every message boundary, and no session is ever
/// both waiting and authenticated.
pub proof fn lemma_invariants_hold(m: ControlModel, msgs: Seq<ControlMessage>)
    requires
        m.wf(),
    ensures
        forall|i: int| 0 <= i <= msgs.len() ==> (#[trigger] run(m, msgs.take(i))).wf(),
    decreases msgs.len(),
{
    if msgs.len() > 0 {
        let pre = msgs.drop_last();
        lemma_invariants_hold(m, pre);
        assert forall|i: int| 0 <= i <= msgs.len() implies (#[trigger] run(m, msgs.take(i))).wf() by {
            if i < msgs.len() {
                assert(msgs.take(i) =~= pre.take(i));
            } else {
                assert(msgs.take(i) =~= msgs);
                assert(pre.take(pre.len() as int) =~= pre);
                lemma_next_keeps_invariants(run(m, pre), msgs.last());
            }
        }
    }
}

/// The control actor's state.
pub struct ControlActor {
    unauth: std::collections::HashMap<u32, UnAuthSession>,
    table: RoutingTable,
}

impl View for ControlActor {
    type V = ControlModel;

    closed spec fn view(&self) -> ControlModel {
        ControlModel { unauth: self.unauth@, table: self.table@ }
    }
}

impl ControlActor {
    #[verifier::type_invariant]
    closed spec fn inv(self) -> bool {
        &&& self.table.wf()
        &&& forall|id: u32| #[trigger]
            self.unauth@.contains_key(id) ==> !self.table@.sessions.contains_key(id)
    }

    /// The invariants hold of every control actor: those of its routing
    /// table, and no session both waiting and authenticated. (No run-time
    /// effect: it makes the invariants known to a verified caller.)
    pub fn lemma_invariants(&self)
        ensures
            self@.wf(),
    {
        proof {
            use_type_invariant(self);
            self.table.lemma_model_wf();
        }
    }

    /// A control actor with no sessions.
    pub fn new() -> (c: ControlActor)
        ensures
            c@.unauth == Map::<u32, UnAuthSession>::empty(),
            c@.table.sessions == Map::<u32, crate::routing_table::Session>::empty(),
            c@.table.rooms == Map::<u32, Set<u32>>::empty(),
            c@.wf(),
    {
        let c = ControlActor { unauth: std::collections::HashMap::new(), table: RoutingTable::new() };
        proof {
            c.table.lemma_model_wf();
        }
        c
    }

    /// Handles one message of the control queue, giving the next state and
    /// what the runtime must do.
    pub fn handle(self, msg: ControlMessage) -> (r: (ControlActor, ControlOutcome))
        ensures
            r.0@ == self@.next(msg),
            effect_of(r.1) == self@.effect(msg),
            r.1 matches ControlOutcome::Publish(t) ==> t@ == r.0@.table,
            r.0@.wf(),
    {
        proof {
            use_type_invariant(&self);
            self.table.lemma_model_wf();
        }
        let ghost u0 = self@.unauth;
        let ControlActor { mut unauth, mut table } = self;
        let out = match msg {
            ControlMessage::AddSession(id, u) => {
                if table.holds_session(id) {
                    ControlOutcome::Violation(ControlError::AlreadyAuthenticated(id))
                } else {
                    unauth.insert(id, u);
                    ControlOutcome::Unchanged
                }
            },
            ControlMessage::Packet(id, p) => {
                if table.holds_session(id) {
                    ControlOutcome::Unchanged
                } else if !unauth.contains_key(&id) {
                    ControlOutcome::Violation(ControlError::UnknownSession(id))
                } else if let ServerPacket::Authenticate = p {
                    let u = unauth.remove(&id).unwrap();
                    table.enroll_session(id, u.version, u.send);
                    ControlOutcome::Publish(table.snapshot())
                } else {
                    ControlOutcome::Violation(ControlError::UnauthenticatedPacket(id))
                }
            },
            ControlMessage::RemoveSession(id) => {
                if unauth.remove(&id).is_some() {
                    ControlOutcome::Unchanged
                } else {
                    assert(unauth@ =~= u0);
                    match table.expel_session(id) {
                        Ok(()) => ControlOutcome::Publish(table.snapshot()),
                        Err(TableError::UnknownSession(_)) => {
                            proof {
                                table.lemma_model_wf();
                                crate::routing_table::lemma_without_absent(table@, id);
                            }
                            ControlOutcome::Violation(ControlError::UnknownRemoval(id))
                        },
                    }
                }
            },
            ControlMessage::Shutdown => ControlOutcome::Close,
        };
        proof {
            table.lemma_model_wf();
        }
        let next = ControlActor { unauth, table };
        (next, out)
    }
}

} // verus!
