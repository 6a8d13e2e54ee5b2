//! The routing actor: fans voice and text out to the recipients found in
//! its snapshot of the routing table.

use vstd::prelude::*;
use crate::control::{run, ControlEffect, ControlMessage, ControlModel};
use crate::protocol::{
    audio_matches, text_matches, ClientAudio, ClientPacket, ClientVoice, ServerAudio, ServerVoice, TextMessage,
};
use crate::routing_table::{RouteError, RoutingTable, TableModel};
use crate::sink::push_packet;

verus! {

/// Messages on the routing actor's queue.
#[derive(Debug)]
pub enum RoutingMessage {
    /// A voice packet received from session `id`.
    Voice(u32, ServerVoice),
    /// A text message received from session `id`.
    Text(u32, TextMessage),
    /// A new snapshot of the routing table.
    Update(RoutingTable),
    /// Graceful shutdown.
    Shutdown,
}

/// What the routing actor did with one message.
#[derive(Debug)]
pub enum RoutingOutcome {
    /// The stamped audio packet, its recipients, and each push made: the
    /// recipient and the packet handed to its sink.
    Voice { packet: ClientAudio, recipients: Vec<u32>, pushed: Vec<(u32, ClientPacket)> },
    /// The stamped text message, its recipients, and each push made: the
    /// recipient and the packet handed to its sink.
    Text { message: TextMessage, recipients: Vec<u32>, pushed: Vec<(u32, ClientPacket)> },
    /// The packet was dropped.
    Dropped(RouteError),
    /// The snapshot was replaced.
    Updated,
    /// Close the queue, handle what is still buffered, and stop.
    Close,
}

/// Client-bound form of an audio packet from `sender`: stamped with the
/// sender, everything else kept.
pub open spec fn stamped_audio(a: ServerAudio, sender: u32) -> ClientAudio {
    ClientAudio {
        target: a.target,
        session_id: sender,
        seq_num: a.seq_num,
        payload: a.payload,
        position: a.position,
    }
}

/// A text message from `sender` with its actor set to the sender, whatever
/// the client wrote there.
pub open spec fn stamped_text(t: TextMessage, sender: u32) -> TextMessage {
    TextMessage { actor: Some(sender), ..t }
}

/// Whether a session has a sink in the table.
pub open spec fn has_sink(t: TableModel) -> spec_fn(u32) -> bool {
    |x: u32| t.sessions.contains_key(x)
}

/// The recipients of a list of pushes, in order.
pub open spec fn pushed_ids(p: Seq<(u32, ClientPacket)>) -> Seq<u32> {
    p.map_values(|e: (u32, ClientPacket)| e.0)
}

/// `p` is a tunnelled copy of the audio packet `a`.
pub open spec fn is_audio_copy(p: ClientPacket, a: ClientAudio) -> bool {
    match p {
        ClientPacket::Tunnel(ClientVoice::Audio(q)) => audio_matches(q, a),
        _ => false,
    }
}

/// `p` is a copy of the text message `m`.
pub open spec fn is_text_copy(p: ClientPacket, m: TextMessage) -> bool {
    match p {
        ClientPacket::Text(q) => text_matches(q, m),
        _ => false,
    }
}

/// Pushes after the first `i` recipients, and one more.
proof fn lemma_pushed_step(
    pushed: Seq<(u32, ClientPacket)>,
    recipients: Seq<u32>,
    i: int,
    pred: spec_fn(u32) -> bool,
    after: Seq<(u32, ClientPacket)>,
    entry: (u32, ClientPacket),
)
    requires
        0 <= i < recipients.len(),
        pushed_ids(pushed) == recipients.take(i).filter(pred),
        entry.0 == recipients[i],
        after == (if pred(recipients[i]) {
            pushed.push(entry)
        } else {
            pushed
        }),
    ensures
        pushed_ids(after) == recipients.take(i + 1).filter(pred),
{
    assert(recipients.take(i + 1) =~= recipients.take(i).push(recipients[i]));
    recipients.take(i).lemma_filter_push(recipients[i], pred);
    if pred(recipients[i]) {
        assert(pushed_ids(pushed.push(entry)) =~= pushed_ids(pushed).push(entry.0));
    }
}

/// Snapshot held after handling `msg` with snapshot `held`.
pub open spec fn routing_next(held: TableModel, msg: RoutingMessage) -> TableModel {
    match msg {
        RoutingMessage::Update(t) => t@,
        _ => held,
    }
}

/// Outbound voice carries its sender's id and never goes back to the sender;
/// outbound text carries its sender as actor, whatever actor the client
/// supplied.
pub proof fn lemma_stamping(t: TableModel, a: ServerAudio, m: TextMessage, sender: u32)
    ensures
        stamped_audio(a, sender).session_id == sender,
        !t.voice_recipients(sender).contains(sender),
        stamped_text(m, sender).actor == Some(sender),
        !t.text_recipients(sender, m.sessions@, m.channels@).contains(sender),
{
}

/// When the control actor publishes a snapshot for a message and the
/// routing actor then handles the update carrying it, the routing actor
/// holds exactly the control actor's table.
pub proof fn lemma_snapshot_follows_control(
    c: ControlModel,
    msg: crate::control::ControlMessage,
    published: RoutingTable,
    held: TableModel,
)
    requires
        c.effect(msg) == ControlEffect::Publish,
        published@ == c.next(msg).table,
    ensures
        routing_next(held, RoutingMessage::Update(published)) == c.next(msg).table,
{
}

/// The routing actor's snapshot after the control actor has handled `msgs`
/// from state `c`, starting from snapshot `held`: each published table
/// replaces it, in the order of publication.
pub open spec fn snapshot_after(c: ControlModel, held: TableModel, msgs: Seq<ControlMessage>) -> TableModel
    decreases msgs.len(),
{
    if msgs.len() == 0 {
        held
    } else {
        let before = run(c, msgs.drop_last());
        if before.effect(msgs.last()) == ControlEffect::Publish {
            before.next(msgs.last()).table
        } else {
            snapshot_after(c, held, msgs.drop_last())
        }
    }
}

/// One message leaves the table unchanged unless it publishes.
proof fn lemma_unpublished_keeps_table(c: ControlModel, msg: ControlMessage)
    requires
        c.wf(),
        c.effect(msg) != ControlEffect::Publish,
    ensures
        c.next(msg).table == c.table,
{
    if let ControlMessage::RemoveSession(id) = msg {
        if !c.unauth.contains_key(id) {
            crate::routing_table::lemma_without_absent(c.table, id);
        }
    }
}

/// Starting from equal tables, the routing actor's snapshot equals the
/// control actor's table after every message, once the published updates
/// have been handled.
pub proof fn lemma_snapshot_tracks_control(c: ControlModel, msgs: Seq<ControlMessage>)
    requires
        c.wf(),
    ensures
        snapshot_after(c, c.table, msgs) == run(c, msgs).table,
    decreases msgs.len(),
{
    if msgs.len() > 0 {
        let pre = msgs.drop_last();
        lemma_snapshot_tracks_control(c, pre);
        crate::control::lemma_invariants_hold(c, pre);
        assert(pre.take(pre.len() as int) =~= pre);
        let before = run(c, pre);
        if before.effect(msgs.last()) != ControlEffect::Publish {
            lemma_unpublished_keeps_table(before, msgs.last());
        }
    }
}

/// The routing actor's state: the latest snapshot.
pub struct RoutingActor {
    snapshot: RoutingTable,
}

impl View for RoutingActor {
    type V = TableModel;

    closed spec fn view(&self) -> TableModel {
        self.snapshot@
    }
}

impl RoutingActor {
    /// A routing actor with an empty snapshot.
    pub fn new() -> (r: RoutingActor)
        ensures
            r@.sessions == Map::<u32, crate::routing_table::Session>::empty(),
            r@.rooms == Map::<u32, Set<u32>>::empty(),
    {
        RoutingActor { snapshot: RoutingTable::new() }
    }

    /// Pushes a copy of `packet` to the sink of each recipient that has one
    /// in the snapshot, in order; a refused push is skipped. Returns each
    /// push made.
    fn fan_out_audio(&self, packet: &ClientAudio, recipients: &Vec<u32>) -> (pushed: Vec<(u32, ClientPacket)>)
        ensures
            pushed_ids(pushed@) == recipients@.filter(has_sink(self@)),
            forall|j: int| 0 <= j < pushed@.len() ==> is_audio_copy(#[trigger] pushed@[j].1, *packet),
    {
        let mut pushed: Vec<(u32, ClientPacket)> = Vec::new();
        let mut i: usize = 0;
        while i < recipients.len()
            invariant
                i <= recipients@.len(),
                pushed_ids(pushed@) == recipients@.take(i as int).filter(has_sink(self@)),
                forall|j: int| 0 <= j < pushed@.len() ==> is_audio_copy(#[trigger] pushed@[j].1, *packet),
            decreases recipients@.len() - i,
        {
            let id = recipients[i];
            let ghost before = pushed@;
            if let Some(sink) = self.snapshot.sender(id) {
                let out = ClientPacket::Tunnel(ClientVoice::Audio(packet.duplicate()));
                let _ = push_packet(sink, &out);
                pushed.push((id, out));
            }
            proof {
                let entry = if pushed@.len() > before.len() { pushed@.last() } else { (id, ClientPacket::Ping(0)) };
                lemma_pushed_step(before, recipients@, i as int, has_sink(self@), pushed@, entry);
            }
            i = i + 1;
        }
        assert(recipients@.take(recipients@.len() as int) =~= recipients@);
        pushed
    }

    /// Pushes a copy of `message` to the sink of each recipient that has
    /// one in the snapshot, in order; a refused push is skipped. Returns
    /// each push made.
    fn fan_out_text(&self, message: &TextMessage, recipients: &Vec<u32>) -> (pushed: Vec<(u32, ClientPacket)>)
        ensures
            pushed_ids(pushed@) == recipients@.filter(has_sink(self@)),
            forall|j: int| 0 <= j < pushed@.len() ==> is_text_copy(#[trigger] pushed@[j].1, *message),
    {
        let mut pushed: Vec<(u32, ClientPacket)> = Vec::new();
        let mut i: usize = 0;
        while i < recipients.len()
            invariant
                i <= recipients@.len(),
                pushed_ids(pushed@) == recipients@.take(i as int).filter(has_sink(self@)),
                forall|j: int| 0 <= j < pushed@.len() ==> is_text_copy(#[trigger] pushed@[j].1, *message),
            decreases recipients@.len() - i,
        {
            let id = recipients[i];
            let ghost before = pushed@;
            if let Some(sink) = self.snapshot.sender(id) {
                let out = ClientPacket::Text(message.duplicate());
                let _ = push_packet(sink, &out);
                pushed.push((id, out));
            }
            proof {
                let entry = if pushed@.len() > before.len() { pushed@.last() } else { (id, ClientPacket::Ping(0)) };
                lemma_pushed_step(before, recipients@, i as int, has_sink(self@), pushed@, entry);
            }
            i = i + 1;
        }
        assert(recipients@.take(recipients@.len() as int) =~= recipients@);
        pushed
    }

    /// Handles one message of the routing queue. Voice and text are pushed
    /// only through the fan-out, and every push it makes is returned in
    /// `pushed`; a dropped packet, an update and a shutdown push nothing.
    pub fn handle(&mut self, msg: RoutingMessage) -> (r: RoutingOutcome)
        ensures
            final(self)@ == routing_next(old(self)@, msg),
            match msg {
                RoutingMessage::Voice(s, ServerVoice::Ping(_)) => r == RoutingOutcome::Dropped(
                    RouteError::VoicePing,
                ),
                RoutingMessage::Voice(s, ServerVoice::Audio(a)) => {
                    if !old(self)@.sessions.contains_key(s) {
                        r == RoutingOutcome::Dropped(RouteError::UnknownSender(s))
                    } else if a.target != 0 {
                        r == RoutingOutcome::Dropped(RouteError::UnsupportedTarget(a.target))
                    } else {
                        r matches RoutingOutcome::Voice { packet, recipients, pushed } && packet
                            == stamped_audio(a, s) && recipients@.no_duplicates()
                            && recipients@.to_set() == old(self)@.voice_recipients(s)
                            && pushed_ids(pushed@) == recipients@.filter(has_sink(old(self)@))
                            && forall|j: int|
                            0 <= j < pushed@.len() ==> is_audio_copy(
                                #[trigger] pushed@[j].1,
                                stamped_audio(a, s),
                            )
                    }
                },
                RoutingMessage::Text(s, t) => {
                    if !old(self)@.sessions.contains_key(s) {
                        r == RoutingOutcome::Dropped(RouteError::UnknownSender(s))
                    } else {
                        r matches RoutingOutcome::Text { message, recipients, pushed } && message
                            == stamped_text(t, s) && recipients@.no_duplicates()
                            && recipients@.to_set() == old(self)@.text_recipients(
                            s,
                            t.sessions@,
                            t.channels@,
                        ) && pushed_ids(pushed@) == recipients@.filter(has_sink(old(self)@))
                            && forall|j: int|
                            0 <= j < pushed@.len() ==> is_text_copy(
                                #[trigger] pushed@[j].1,
                                stamped_text(t, s),
                            )
                    }
                },
                RoutingMessage::Update(_) => r is Updated,
                RoutingMessage::Shutdown => r is Close,
            },
    {
        match msg {
            RoutingMessage::Voice(sender, voice) => match voice {
                ServerVoice::Ping(_) => RoutingOutcome::Dropped(RouteError::VoicePing),
                ServerVoice::Audio(a) => match self.snapshot.voice_targets(sender, a.target) {
                    Err(e) => RoutingOutcome::Dropped(e),
                    Ok(recipients) => {
                        let ServerAudio { target, seq_num, payload, position } = a;
                        let packet = ClientAudio {
                            target,
                            session_id: sender,
                            seq_num,
                            payload,
                            position,
                        };
                        let pushed = self.fan_out_audio(&packet, &recipients);
                        RoutingOutcome::Voice { packet, recipients, pushed }
                    },
                },
            },
            RoutingMessage::Text(sender, text) => {
                if !self.snapshot.holds_session(sender) {
                    RoutingOutcome::Dropped(RouteError::UnknownSender(sender))
                } else {
                    let recipients = self.snapshot.text_targets(sender, &text.sessions, &text.channels);
                    let TextMessage { actor: _, sessions, channels, trees, message } = text;
                    let message = TextMessage { actor: Some(sender), sessions, channels, trees, message };
                    let pushed = self.fan_out_text(&message, &recipients);
                    RoutingOutcome::Text { message, recipients, pushed }
                }
            },
            RoutingMessage::Update(t) => {
                self.snapshot = t;
                RoutingOutcome::Updated
            },
            RoutingMessage::Shutdown => RoutingOutcome::Close,
        }
    }
}

} // verus!
