//! The acceptor's decisions: session id allocation and the start of the
//! graceful shutdown.

use vstd::prelude::*;

verus! {

/// Something that happened to the acceptor.
#[derive(Clone, Copy, Debug, PartialEq, Eq)]
pub enum AcceptEvent {
    /// A connection was accepted.
    Connection,
    /// Accepting failed; treated as terminal.
    AcceptFailed,
    /// The stop notification fired.
    Stop,
}

/// What the acceptor's runtime must do.
#[derive(Clone, Copy, Debug, PartialEq, Eq)]
pub enum AcceptAction {
    /// Spawn a session actor for the connection under this id.
    Spawn(u32),
    /// Drop the connection: every session id has been used.
    Refuse,
    /// Close the listener, send `Shutdown` to the control actor and wait
    /// for every spawned session actor.
    Shutdown,
    /// Nothing: shutdown has already begun.
    Ignore,
}

/// State of the acceptor: how many ids were handed out, and whether the
/// shutdown has begun.
#[derive(Clone, Copy, Debug, PartialEq, Eq)]
pub struct Acceptor {
    pub issued: u64,
    pub stopped: bool,
}

/// Number of distinct session ids.
pub const SESSION_ID_COUNT: u64 = 0x1_0000_0000;

/// The acceptor's transition on one event.
pub open spec fn accept_next(a: Acceptor, e: AcceptEvent) -> (Acceptor, AcceptAction) {
    if a.stopped {
        (a, AcceptAction::Ignore)
    } else {
        match e {
            AcceptEvent::Connection => {
                if a.issued < SESSION_ID_COUNT {
                    (Acceptor { issued: (a.issued + 1) as u64, ..a }, AcceptAction::Spawn(a.issued as u32))
                } else {
                    (a, AcceptAction::Refuse)
                }
            },
            _ => (Acceptor { stopped: true, ..a }, AcceptAction::Shutdown),
        }
    }
}

/// Session ids handed out in turn are strictly increasing, hence unique
/// over the acceptor's lifetime.
pub proof fn lemma_ids_increase(a: Acceptor, e1: AcceptEvent, e2: AcceptEvent)
    requires
        a.issued <= SESSION_ID_COUNT,
    ensures
        ({
            let (b, x1) = accept_next(a, e1);
            let (_, x2) = accept_next(b, e2);
            (x1 is Spawn && x2 is Spawn) ==> x1->Spawn_0 < x2->Spawn_0
        }),
{
}

impl Acceptor {
    /// An acceptor that has handed out no id.
    pub fn new() -> (a: Acceptor)
        ensures
            a == (Acceptor { issued: 0, stopped: false }),
    {
        Acceptor { issued: 0, stopped: false }
    }

    /// Handles one event: the next state and the action to perform.
    pub fn step(self, e: AcceptEvent) -> (r: (Acceptor, AcceptAction))
        requires
            self.issued <= SESSION_ID_COUNT,
        ensures
            r == accept_next(self, e),
            r.0.issued <= SESSION_ID_COUNT,
    {
        if self.stopped {
            (self, AcceptAction::Ignore)
        } else {
            match e {
                AcceptEvent::Connection => {
                    if self.issued < SESSION_ID_COUNT {
                        (Acceptor { issued: self.issued + 1, ..self }, AcceptAction::Spawn(self.issued as u32))
                    } else {
                        (self, AcceptAction::Refuse)
                    }
                },
                _ => (Acceptor { stopped: true, ..self }, AcceptAction::Shutdown),
            }
        }
    }
}

} // verus!
