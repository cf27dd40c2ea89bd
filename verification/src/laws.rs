//! What holds of every session, proved from the transition function.

use vstd::prelude::*;
use crate::packet::{
    decoding, encoding, DecodeError, PacketView, MAX_BLOCK_SIZE,
};
use crate::session::{
    next_block_id, ActionView, Endpoint, EventView, Interest, SessionView, StateView,
    TransferErrorView,
};

verus! {

/// A session that is over stays as it is, whatever happens, and asks for nothing.
pub proof fn law_terminal_is_final(session: SessionView, event: EventView)
    requires
        session.state.is_terminal(),
    ensures
        session.step(event) == (session, ActionView::Stop),
{
}

/// The runner is told to stop exactly when the session is over.
pub proof fn law_stop_iff_over(session: SessionView, event: EventView)
    ensures
        session.step(event).1 is Stop <==> session.step(event).0.state.is_terminal(),
{
}

/// Whether `event` reports that the sink has taken the block in hand, and that
/// block is acknowledged and shorter than a full one.
pub open spec fn short_block_written(session: SessionView, event: EventView) -> bool {
    &&& event is Written
    &&& session.state matches StateView::SendAck { payload, acked, .. }
    &&& acked
    &&& payload.len() < MAX_BLOCK_SIZE
}

/// A transfer ends in success in one way only: the sink has taken an acknowledged
/// block that is shorter than a full one.
pub proof fn law_done_iff_short_block_written(session: SessionView, event: EventView)
    requires
        !(session.state is Done),
    ensures
        session.step(event).0.state is Done <==> short_block_written(session, event),
{
}

/// A full block never ends a transfer in success. Once it is acknowledged and
/// written, the block after it is awaited.
pub proof fn law_full_block_continues(
    session: SessionView,
    event: EventView,
    block_id: u16,
    payload: Seq<u8>,
    acked: bool,
)
    requires
        session.state == (StateView::SendAck { block_id, payload, acked }),
        payload.len() >= MAX_BLOCK_SIZE,
    ensures
        !(session.step(event).0.state is Done),
        acked ==> session.step(EventView::Written).0.state == (StateView::ReceivingData {
            expected_id: next_block_id(block_id),
        }),
{
}

/// The data block that is awaited is acknowledged to its sender, handed to the
/// sink once the acknowledgement has left, and followed by the end of the
/// transfer if it is short and by the wait for the next block if it is full.
pub proof fn law_block_delivery(
    session: SessionView,
    datagram: Seq<u8>,
    from: Endpoint,
    block_id: u16,
    payload: Seq<u8>,
)
    requires
        session.state == (StateView::ReceivingData { expected_id: block_id }),
        decoding(datagram) == Ok::<PacketView, DecodeError>(
            PacketView::Data { block_id, payload },
        ),
    ensures
        ({
            let (received, first) = session.step(EventView::Received { datagram, from });
            let (acked, second) = received.step(EventView::Sent);
            let (written, third) = acked.step(EventView::Written);
            &&& first == (ActionView::Send {
                datagram: encoding(PacketView::Ack { block_id }),
                to: from,
            })
            &&& received.state == (StateView::SendAck { block_id, payload, acked: false })
            &&& second == (ActionView::Write { payload })
            &&& acked.state == (StateView::SendAck { block_id, payload, acked: true })
            &&& payload.len() < MAX_BLOCK_SIZE ==> written.state is Done && third is Stop
            &&& payload.len() >= MAX_BLOCK_SIZE ==> written.state == (StateView::ReceivingData {
                expected_id: next_block_id(block_id),
            }) && third is Wait
        }),
{
}

/// A data block other than the awaited one is dropped: the session goes on
/// awaiting the same block and sends no acknowledgement.
pub proof fn law_unexpected_block_is_dropped(
    session: SessionView,
    datagram: Seq<u8>,
    from: Endpoint,
    expected_id: u16,
)
    requires
        session.state == (StateView::ReceivingData { expected_id }),
        decoding(datagram) matches Ok(PacketView::Data { block_id, .. }) && block_id
            != expected_id,
    ensures
        session.step(EventView::Received { datagram, from }) == (
            SessionView { remote: from, ..session },
            ActionView::Wait { rearm: None },
        ),
{
}

/// An acknowledgement that could not be sent without blocking leaves the session
/// as it was and has the socket watched for writing.
pub proof fn law_blocked_ack_is_kept(session: SessionView)
    requires
        session.state matches StateView::SendAck { acked, .. } && !acked,
    ensures
        session.step(EventView::SendWouldBlock) == (
            session,
            ActionView::Wait { rearm: Some(Interest::Writable) },
        ),
{
}

/// Until its acknowledgement has left, a block is neither handed to the sink nor
/// followed by the wait for the next one: only the report that the datagram was
/// sent has the payload written, and no single event moves the session past the
/// block. When the socket is ready again, the acknowledgement is sent again.
pub proof fn law_nothing_before_ack(session: SessionView, event: EventView)
    requires
        session.state matches StateView::SendAck { acked, .. } && !acked,
    ensures
        session.step(event).1 is Write ==> event is Sent,
        !(session.step(event).0.state is ReceivingData),
        !(session.step(event).0.state is Done),
        event matches EventView::Ready(_) ==> session.step(event).1 == (ActionView::Send {
            datagram: encoding(PacketView::Ack { block_id: session.state->block_id }),
            to: session.remote,
        }),
{
}

/// An error message of the server ends the transfer at once, wherever it stands,
/// with the server's code and text, and nothing is sent in answer.
pub proof fn law_server_error_ends(
    session: SessionView,
    datagram: Seq<u8>,
    from: Endpoint,
    code: u16,
    message: Seq<u8>,
)
    requires
        !session.state.is_terminal(),
        decoding(datagram) == Ok::<PacketView, DecodeError>(PacketView::Error { code, message }),
    ensures
        session.step(EventView::Received { datagram, from }) == (
            SessionView {
                state: StateView::Error(TransferErrorView::ServerError { code, message }),
                remote: from,
                ..session
            },
            ActionView::Stop,
        ),
{
}

/// A wakeup without a datagram is no failure: the session stays as it is and waits
/// for the next notification.
pub proof fn law_spurious_wakeup_is_harmless(session: SessionView)
    requires
        !session.state.is_terminal(),
    ensures
        session.step(EventView::ReceiveWouldBlock) == (
            session,
            ActionView::Wait { rearm: None },
        ),
{
}

/// A failure of the socket, the registration or the sink ends the transfer at
/// once, wherever it stands.
pub proof fn law_failure_ends(session: SessionView, message: Seq<char>)
    requires
        !session.state.is_terminal(),
    ensures
        session.step(EventView::Failed { message }) == (
            session.with_state(StateView::Error(TransferErrorView::Io { message })),
            ActionView::Stop,
        ),
{
}

/// Datagrams go to the peer that the session knows after the event: the server's
/// well-known address until a datagram arrives, the sender of the last datagram
/// from then on.
pub proof fn law_sends_go_to_the_peer(session: SessionView, event: EventView)
    ensures
        session.step(event).1 matches ActionView::Send { to, .. } ==> to == session.step(
            event,
        ).0.remote,
        session.step(event).0.remote == if !session.state.is_terminal() && event is Received {
            event->from
        } else {
            session.remote
        },
{
}

/// The session after a run of events, the oldest first.
pub open spec fn run(session: SessionView, events: Seq<EventView>) -> SessionView
    decreases events.len(),
{
    if events.len() == 0 {
        session
    } else {
        run(session, events.drop_last()).step(events.last()).0
    }
}

/// The block that the sink has taken when `event` reaches `session`: its number
/// and its payload.
pub open spec fn written_block(session: SessionView, event: EventView) -> Option<
    (u16, Seq<u8>),
> {
    match session.state {
        StateView::SendAck { block_id, payload, acked } => if acked && event is Written {
            Some((block_id, payload))
        } else {
            None
        },
        _ => None,
    }
}

/// The blocks that the sink has taken in the course of a run, the oldest first.
pub open spec fn written_blocks(session: SessionView, events: Seq<EventView>) -> Seq<
    (u16, Seq<u8>),
>
    decreases events.len(),
{
    if events.len() == 0 {
        Seq::empty()
    } else {
        let before = written_blocks(session, events.drop_last());
        match written_block(run(session, events.drop_last()), events.last()) {
            Some(block) => before.push(block),
            None => before,
        }
    }
}

/// The number of the block that is the `ordinal`-th of a file, counted from one.
/// Numbers wrap around after the largest.
pub open spec fn block_id_of(ordinal: nat) -> u16 {
    (ordinal % 65536) as u16
}

/// Whether the block that `session` awaits or holds is the one after `written`
/// blocks.
spec fn in_turn(session: SessionView, written: nat) -> bool {
    match session.state {
        StateView::AwaitingRequestSend { .. } => written == 0,
        StateView::ReceivingData { expected_id } => expected_id == block_id_of(written + 1),
        StateView::SendAck { block_id, .. } => block_id == block_id_of(written + 1),
        _ => true,
    }
}

proof fn lemma_in_turn_step(session: SessionView, event: EventView, written: nat)
    requires
        in_turn(session, written),
    ensures
        written_block(session, event) matches Some(block) ==> block.0 == block_id_of(written + 1)
            && in_turn(session.step(event).0, written + 1),
        written_block(session, event) is None ==> in_turn(session.step(event).0, written),
{
    assert(next_block_id(block_id_of(written + 1)) == block_id_of(written + 2));
}

proof fn lemma_written_in_order(session: SessionView, events: Seq<EventView>)
    requires
        in_turn(session, 0),
    ensures
        in_turn(run(session, events), written_blocks(session, events).len()),
        forall|k: int|
            0 <= k < written_blocks(session, events).len() ==> (#[trigger] written_blocks(
                session,
                events,
            )[k]).0 == block_id_of((k + 1) as nat),
    decreases events.len(),
{
    if events.len() > 0 {
        let earlier = events.drop_last();
        lemma_written_in_order(session, earlier);
        lemma_in_turn_step(run(session, earlier), events.last(), written_blocks(session, earlier).len());
    }
}

/// From the start of a transfer on, whatever happens, the blocks reach the sink
/// in the order of their numbers, each of them once: the first block that the
/// sink takes has the number one, and each later block the number after that of
/// the block before it.
pub proof fn law_blocks_reach_the_sink_in_order(
    path: Seq<u8>,
    mode: crate::packet::TransferMode,
    server: Endpoint,
    events: Seq<EventView>,
)
    ensures
        ({
            let blocks = written_blocks(SessionView::initial(path, mode, server), events);
            forall|k: int|
                0 <= k < blocks.len() ==> (#[trigger] blocks[k]).0 == block_id_of((k + 1) as nat)
        }),
{
    lemma_written_in_order(SessionView::initial(path, mode, server), events);
}

/// However long the acknowledgement of a block is kept from leaving, and whatever
/// else happens meanwhile, the block does not reach the sink and the next block is
/// not awaited: as long as no event reports the datagram sent, the session holds
/// the same block unacknowledged or has failed, and the sink has taken nothing.
pub proof fn law_block_waits_for_its_ack(session: SessionView, events: Seq<EventView>)
    requires
        session.state matches StateView::SendAck { acked, .. } && !acked,
        forall|i: int| 0 <= i < events.len() ==> !(#[trigger] events[i] is Sent),
    ensures
        run(session, events).state == session.state || run(session, events).state is Error,
        written_blocks(session, events).len() == 0,
    decreases events.len(),
{
    if events.len() > 0 {
        let earlier = events.drop_last();
        assert forall|i: int| 0 <= i < earlier.len() implies !(#[trigger] earlier[i] is Sent) by {
            assert(earlier[i] == events[i]);
        }
        law_block_waits_for_its_ack(session, earlier);
        assert(!(events[events.len() - 1] is Sent));
    }
}

/// Whether `event` is the arrival of the data message with the number and the
/// payload of `block`.
pub open spec fn brings(event: EventView, block: (u16, Seq<u8>)) -> bool {
    event matches EventView::Received { datagram, .. } && decoding(datagram) == Ok::<
        PacketView,
        DecodeError,
    >(PacketView::Data { block_id: block.0, payload: block.1 })
}

/// Whether one of `events` brought `block`.
pub open spec fn was_received(events: Seq<EventView>, block: (u16, Seq<u8>)) -> bool {
    exists|j: int| 0 <= j < events.len() && brings(#[trigger] events[j], block)
}

proof fn lemma_received_earlier(events: Seq<EventView>, block: (u16, Seq<u8>))
    requires
        events.len() > 0,
        was_received(events.drop_last(), block),
    ensures
        was_received(events, block),
{
    let earlier = events.drop_last();
    let j = choose|j: int| 0 <= j < earlier.len() && brings(#[trigger] earlier[j], block);
    assert(brings(events[j], block));
}

proof fn lemma_written_were_received(session: SessionView, events: Seq<EventView>)
    requires
        !(session.state is SendAck),
    ensures
        run(session, events).state matches StateView::SendAck { block_id, payload, .. }
            ==> was_received(events, (block_id, payload)),
        forall|k: int|
            0 <= k < written_blocks(session, events).len() ==> was_received(
                events,
                #[trigger] written_blocks(session, events)[k],
            ),
    decreases events.len(),
{
    if events.len() > 0 {
        let earlier = events.drop_last();
        let last = events.last();
        let before = run(session, earlier);
        lemma_written_were_received(session, earlier);
        if let StateView::SendAck { block_id, payload, .. } = before.state {
            lemma_received_earlier(events, (block_id, payload));
        }
        if let StateView::SendAck { block_id, payload, .. } = before.step(last).0.state {
            if !(before.state is SendAck) {
                // The block was taken up just now: the last event brought it.
                assert(brings(events[events.len() - 1], (block_id, payload)));
            }
        }
        assert forall|k: int| 0 <= k < written_blocks(session, events).len() implies was_received(
            events,
            #[trigger] written_blocks(session, events)[k],
        ) by {
            if k < written_blocks(session, earlier).len() {
                lemma_received_earlier(events, written_blocks(session, earlier)[k]);
            }
        }
    }
}

/// From the start of a transfer on, whatever happens, the sink takes nothing but
/// what a data message brought: each block that it takes has the number and the
/// payload of a data message that arrived before.
pub proof fn law_written_blocks_were_received(
    path: Seq<u8>,
    mode: crate::packet::TransferMode,
    server: Endpoint,
    events: Seq<EventView>,
)
    ensures
        ({
            let blocks = written_blocks(SessionView::initial(path, mode, server), events);
            forall|k: int| 0 <= k < blocks.len() ==> was_received(events, #[trigger] blocks[k])
        }),
{
    lemma_written_were_received(SessionView::initial(path, mode, server), events);
}

/// A session in the hands of its runner: the action that the runner is at, and
/// what the socket is watched for.
pub struct Run {
    pub session: SessionView,
    pub action: ActionView,
    pub armed: Interest,
}

/// What the socket is watched for once the runner has taken up `action`.
pub open spec fn armed_by(action: ActionView, armed: Interest) -> Interest {
    match action {
        ActionView::Wait { rearm: Some(interest) } => interest,
        _ => armed,
    }
}

/// What the socket has to be watched for while a session in `state` waits.
pub open spec fn needed_interest(state: StateView) -> Option<Interest> {
    match state {
        StateView::AwaitingRequestSend { .. } => Some(Interest::Writable),
        StateView::ReceivingData { .. } => Some(Interest::Readable),
        StateView::SendAck { .. } => Some(Interest::Writable),
        _ => None,
    }
}

impl Run {
    /// The start of a run: the first action of the session, and the interest that it
    /// arms.
    pub open spec fn start(session: SessionView) -> Run {
        Run {
            session,
            action: session.first_action(),
            armed: armed_by(session.first_action(), Interest::Writable),
        }
    }

    /// Whether `event` is a report that the runner may give of the action that it is
    /// at: readiness for what the socket is watched for after a wait, the outcome of
    /// the operation after a send, a receive or a write, and a failure after any of
    /// them. Nothing is reported once the session has said to stop.
    pub open spec fn reports(self, event: EventView) -> bool {
        match self.action {
            ActionView::Wait { .. } => event is Failed || (event matches EventView::Ready(
                readiness,
            ) && readiness.readable == (self.armed == Interest::Readable) && readiness.writable
                == (self.armed == Interest::Writable)),
            ActionView::Send { .. } => event is Sent || event is SendWouldBlock || event is Failed,
            ActionView::Receive => event is Received || event is ReceiveWouldBlock
                || event is Failed,
            ActionView::Write { .. } => event is Written || event is Failed,
            ActionView::Stop => false,
        }
    }

    /// The run after the runner has reported `event`.
    pub open spec fn after(self, event: EventView) -> Run {
        let (session, action) = self.session.step(event);
        Run { session, action, armed: armed_by(action, self.armed) }
    }

    /// The run after the runner has reported `events`, the oldest first.
    pub open spec fn after_all(self, events: Seq<EventView>) -> Run
        decreases events.len(),
    {
        if events.len() == 0 {
            self
        } else {
            self.after_all(events.drop_last()).after(events.last())
        }
    }

    /// Whether each of `events` is a report of the action that the runner was at
    /// when it gave it.
    pub open spec fn proper(self, events: Seq<EventView>) -> bool
        decreases events.len(),
    {
        events.len() > 0 ==> self.proper(events.drop_last()) && self.after_all(
            events.drop_last(),
        ).reports(events.last())
    }

    /// What a proper run keeps true between the action, the state and the armed
    /// interest.
    spec fn in_step(self) -> bool {
        let trigger_fits = self.session.writable_trigger == (self.armed == Interest::Writable);
        match self.action {
            ActionView::Wait { .. } => needed_interest(self.session.state) == Some(self.armed)
                && !(self.session.state matches StateView::SendAck { acked, .. } && acked),
            ActionView::Send { .. } => match self.session.state {
                StateView::AwaitingRequestSend { .. } => self.armed == Interest::Writable,
                StateView::SendAck { acked, .. } => !acked && trigger_fits,
                _ => false,
            },
            ActionView::Receive => self.session.state is ReceivingData && self.armed
                == Interest::Readable && trigger_fits,
            ActionView::Write { .. } => (self.session.state matches StateView::SendAck {
                acked,
                ..
            } && acked) && trigger_fits,
            ActionView::Stop => self.session.state.is_terminal(),
        }
    }
}

proof fn lemma_proper_run_in_step(run: Run, events: Seq<EventView>)
    requires
        run.in_step(),
        run.proper(events),
    ensures
        run.after_all(events).in_step(),
    decreases events.len(),
{
    if events.len() > 0 {
        lemma_proper_run_in_step(run, events.drop_last());
    }
}

/// The armed interest follows the state. From the start of a transfer on, as long
/// as the runner reports of each action what that action can come to, the socket
/// is watched for what the session is about to do whenever the runner waits: for
/// writing while the request or an acknowledgement is to be sent, for reading
/// while a data block is awaited. So no wait is one for a readiness that cannot
/// come.
pub proof fn law_armed_interest_follows_the_state(
    path: Seq<u8>,
    mode: crate::packet::TransferMode,
    server: Endpoint,
    events: Seq<EventView>,
)
    requires
        Run::start(SessionView::initial(path, mode, server)).proper(events),
    ensures
        ({
            let run = Run::start(SessionView::initial(path, mode, server)).after_all(events);
            &&& run.action is Wait ==> needed_interest(run.session.state) == Some(run.armed)
            &&& run.action is Stop <==> run.session.state.is_terminal()
        }),
{
    lemma_proper_run_in_step(Run::start(SessionView::initial(path, mode, server)), events);
}

} // verus!
