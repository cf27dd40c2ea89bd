//! One file download as a state machine without I/O of its own.
//!
//! A session decides; a runner acts. The runner hands the session an [`Event`]:
//! the socket became ready, a send or a receive ended, the sink took the bytes.
//! The session moves to its next state and answers with an [`Action`]: wait for
//! readiness, send this datagram, try to receive, append this payload, stop. The
//! runner performs the action and comes back with the event that tells how it
//! went. Every operation is expected not to block: one that cannot proceed is
//! reported as such, and the session arms the readiness interest that lets it try
//! again.
//!
//! The states are those of the protocol. A fresh session awaits the sending of its
//! read request. It then receives data blocks in order, and acknowledges and hands
//! out each, until a block shorter than a full one ends the transfer. A failed
//! operation, a datagram that cannot be read, or an error message of the server
//! ends it in failure.
//!
//! A session never asks for a timer. Nothing is sent twice because an answer is
//! late: where the server falls silent, the session waits for as long as the
//! runner does. A runner that must not wait forever has to bound the wait itself.

use vstd::prelude::*;
use crate::packet::{
    decode, decode_as, decoding, decoding_as, encode_into, encoding, from_be16, DecodeError, Kind,
    Packet, PacketView, TransferMode, MAX_BLOCK_SIZE, MAX_DATAGRAM_SIZE,
};

verus! {

/// The address and port of one end of the transfer, as plain numbers. An address
/// is the number that its bytes spell in network byte order.
#[derive(Clone, Copy, Debug, PartialEq, Eq, Hash, Structural)]
#[allow(inconsistent_fields)]
pub enum Endpoint {
    V4 { address: u32, port: u16 },
    V6 { address: u128, port: u16, flow_info: u32, scope_id: u32 },
}

/// The port on which servers await requests.
pub const SERVER_PORT: u16 = 69;

impl Endpoint {
    /// The server on this host, at its well-known port.
    pub fn local_server() -> (server: Endpoint)
        ensures
            server == (Endpoint::V4 { address: 0x7f00_0001, port: SERVER_PORT }),
    {
        Endpoint::V4 { address: 0x7f00_0001, port: SERVER_PORT }
    }

    /// Any address of this host and a port that the system picks: where a client
    /// binds its socket.
    pub fn unspecified() -> (any: Endpoint)
        ensures
            any == (Endpoint::V4 { address: 0, port: 0 }),
    {
        Endpoint::V4 { address: 0, port: 0 }
    }
}

/// What the socket is watched for.
#[derive(Clone, Copy, Debug, PartialEq, Eq, Structural)]
pub enum Interest {
    Readable,
    Writable,
}

/// What a readiness notification reports of the socket.
#[derive(Clone, Copy, Debug, PartialEq, Eq, Structural)]
pub struct Readiness {
    pub readable: bool,
    pub writable: bool,
}

/// A received data message in the buffer that it arrived in.
#[derive(Debug, PartialEq, Eq)]
pub struct DataBlock {
    buffer: Vec<u8>,
    len: usize,
}

/// A failure of the peer or of what it sent.
#[derive(Debug, PartialEq, Eq)]
pub enum ProtocolError {
    /// The server reported a failure.
    ServerError { code: u16, message: Vec<u8> },
    /// A message arrived that a server does not send to a reading client.
    UnexpectedOpcode,
    /// A datagram arrived that is no message.
    Decode(DecodeError),
}

/// Why a transfer failed.
#[derive(Debug, PartialEq, Eq)]
pub enum TransferError {
    /// The socket, the readiness registration or the sink failed.
    Io { message: String },
    Protocol(ProtocolError),
}

/// Where a transfer stands.
#[derive(Debug, PartialEq, Eq)]
pub enum State {
    /// The read request has not been sent yet.
    AwaitingRequestSend { path: Vec<u8>, mode: TransferMode },
    /// The data block `expected_id` is awaited.
    ReceivingData { expected_id: u16 },
    /// The block was received in turn. It is acknowledged first and appended to the
    /// sink after that: `acked` tells that the acknowledgement has left.
    SendAck { block: DataBlock, acked: bool },
    /// The whole file has been appended to the sink.
    Done,
    /// The transfer failed.
    Error(TransferError),
}

/// What the runner reports to the session.
#[derive(Debug, PartialEq, Eq)]
pub enum Event {
    /// The socket is ready.
    Ready(Readiness),
    /// The datagram of the last `Send` has left.
    Sent,
    /// The datagram of the last `Send` could not be sent without blocking.
    SendWouldBlock,
    /// A datagram arrived from `from`. It is the first `len` bytes of `buffer`.
    Received { buffer: Vec<u8>, len: usize, from: Endpoint },
    /// No datagram was there to receive. The buffer comes back unused.
    ReceiveWouldBlock { buffer: Vec<u8> },
    /// The payload of the last `Write` has been appended to the sink.
    Written,
    /// The last action failed.
    Failed { message: String },
}

/// What the session asks the runner to do next.
#[derive(Debug, PartialEq, Eq)]
pub enum Action<'a> {
    /// Watch the socket for `rearm`, where that is an interest, and wait until the
    /// socket is ready. Report `Ready`. The socket is watched by level: a readiness
    /// that was not used up is reported again.
    Wait { rearm: Option<Interest> },
    /// Send `datagram` to `to`. Report `Sent` or `SendWouldBlock`.
    Send { datagram: &'a [u8], to: Endpoint },
    /// Receive one datagram into `buffer`. Report `Received` or `ReceiveWouldBlock`,
    /// and give the buffer back with either.
    Receive { buffer: Vec<u8> },
    /// Append `payload` to the sink. Report `Written`.
    Write { payload: &'a [u8] },
    /// The transfer is over.
    Stop,
}

/// One download: its state, and what the transport keeps between operations.
pub struct Session {
    state: State,
    remote: Endpoint,
    writable_trigger: bool,
    outgoing: Vec<u8>,
    spare: Vec<u8>,
}

/// The mathematical content of a [`TransferError`].
#[allow(inconsistent_fields)]
pub enum TransferErrorView {
    Io { message: Seq<char> },
    ServerError { code: u16, message: Seq<u8> },
    UnexpectedOpcode,
    Decode(DecodeError),
}

/// The mathematical content of a [`State`].
pub enum StateView {
    AwaitingRequestSend { path: Seq<u8>, mode: TransferMode },
    ReceivingData { expected_id: u16 },
    SendAck { block_id: u16, payload: Seq<u8>, acked: bool },
    Done,
    Error(TransferErrorView),
}

/// The mathematical content of an [`Event`].
pub enum EventView {
    Ready(Readiness),
    Sent,
    SendWouldBlock,
    Received { datagram: Seq<u8>, from: Endpoint },
    ReceiveWouldBlock,
    Written,
    Failed { message: Seq<char> },
}

/// The mathematical content of an [`Action`].
pub enum ActionView {
    Wait { rearm: Option<Interest> },
    Send { datagram: Seq<u8>, to: Endpoint },
    Receive,
    Write { payload: Seq<u8> },
    Stop,
}

/// The mathematical content of a [`Session`].
pub struct SessionView {
    /// Where the transfer stands.
    pub state: StateView,
    /// Where datagrams are sent to: the server's well-known address at first, then
    /// the address that the last datagram came from.
    pub remote: Endpoint,
    /// Whether the last readiness notification reported the socket writable.
    pub writable_trigger: bool,
}

impl DataBlock {
    #[verifier::type_invariant]
    spec fn well_formed(self) -> bool {
        &&& 4 <= self.len <= self.buffer@.len()
        &&& self.len - 4 <= MAX_BLOCK_SIZE
        &&& self.buffer@[0] == 0
        &&& self.buffer@[1] == 3
    }

    /// The block number of the message.
    pub closed spec fn spec_block_id(&self) -> u16 {
        from_be16(self.buffer@[2], self.buffer@[3])
    }

    /// The file content that the message carries.
    pub closed spec fn spec_payload(&self) -> Seq<u8> {
        self.buffer@.subrange(4, self.len as int)
    }

    /// Reads the datagram in a receive buffer of which `len` bytes were filled as a
    /// data message, and keeps the buffer. Where the datagram is none, the buffer
    /// comes back with the reason.
    pub fn from_datagram(buffer: Vec<u8>, len: usize) -> (result: Result<
        DataBlock,
        (DecodeError, Vec<u8>),
    >)
        ensures
            match decoding_as(received_bytes(buffer@, len), Kind::Data) {
                Ok(packet) => result matches Ok(block) && packet == (PacketView::Data {
                    block_id: block.spec_block_id(),
                    payload: block.spec_payload(),
                }),
                Err(error) => result matches Err(refusal) && refusal.0 == error && refusal.1
                    == buffer,
            },
    {
        let filled = if len <= buffer.len() {
            len
        } else {
            buffer.len()
        };
        let datagram = vstd::slice::slice_subrange(buffer.as_slice(), 0, filled);
        assert(datagram@ =~= received_bytes(buffer@, len));
        match decode_as(datagram, Kind::Data) {
            Ok(_) => Ok(DataBlock::new(buffer, filled)),
            Err(error) => Err((error, buffer)),
        }
    }

    /// Takes a datagram that holds a data message, in the buffer that it arrived in.
    fn new(buffer: Vec<u8>, len: usize) -> (block: DataBlock)
        requires
            len <= buffer@.len(),
            decoding(buffer@.take(len as int)) is Ok,
            decoding(buffer@.take(len as int))->Ok_0 is Data,
        ensures
            decoding(buffer@.take(len as int)) == Ok::<PacketView, DecodeError>(
                PacketView::Data { block_id: block.spec_block_id(), payload: block.spec_payload() },
            ),
    {
        let ghost datagram = buffer@.take(len as int);
        assert(datagram.skip(4) =~= buffer@.subrange(4, len as int));
        DataBlock { buffer, len }
    }

    /// The block number of the message.
    #[verifier::when_used_as_spec(spec_block_id)]
    pub fn block_id(&self) -> (block_id: u16)
        ensures
            block_id == self.spec_block_id(),
    {
        proof {
            use_type_invariant(self);
        }
        let high: u16 = self.buffer[2] as u16;
        let low: u16 = self.buffer[3] as u16;
        high * 256 + low
    }

    /// The file content that the message carries, where it lies in the buffer.
    pub fn payload(&self) -> (payload: &[u8])
        ensures
            payload@ == self.spec_payload(),
            payload@.len() <= MAX_BLOCK_SIZE,
    {
        proof {
            use_type_invariant(self);
        }
        vstd::slice::slice_subrange(self.buffer.as_slice(), 4, self.len)
    }

    /// Gives up the message and hands back the buffer that it lies in, for the next
    /// datagram. The message is still at the front of the buffer.
    pub fn into_inner(self) -> (buffer: Vec<u8>)
        ensures
            4 + self.spec_payload().len() <= buffer@.len(),
            decoding(buffer@.take(4 + self.spec_payload().len() as int)) == Ok::<
                PacketView,
                DecodeError,
            >(PacketView::Data { block_id: self.spec_block_id(), payload: self.spec_payload() }),
    {
        proof {
            use_type_invariant(&self);
            let datagram = self.buffer@.take(self.len as int);
            assert(datagram.skip(4) =~= self.buffer@.subrange(4, self.len as int));
        }
        self.buffer
    }
}

impl View for ProtocolError {
    type V = TransferErrorView;

    open spec fn view(&self) -> TransferErrorView {
        match *self {
            ProtocolError::ServerError { code, message } => TransferErrorView::ServerError {
                code,
                message: message@,
            },
            ProtocolError::UnexpectedOpcode => TransferErrorView::UnexpectedOpcode,
            ProtocolError::Decode(error) => TransferErrorView::Decode(error),
        }
    }
}

impl View for TransferError {
    type V = TransferErrorView;

    open spec fn view(&self) -> TransferErrorView {
        match *self {
            TransferError::Io { message } => TransferErrorView::Io { message: message@ },
            TransferError::Protocol(error) => error@,
        }
    }
}

impl View for State {
    type V = StateView;

    open spec fn view(&self) -> StateView {
        match *self {
            State::AwaitingRequestSend { path, mode } => StateView::AwaitingRequestSend {
                path: path@,
                mode,
            },
            State::ReceivingData { expected_id } => StateView::ReceivingData { expected_id },
            State::SendAck { block, acked } => StateView::SendAck {
                block_id: block.spec_block_id(),
                payload: block.spec_payload(),
                acked,
            },
            State::Done => StateView::Done,
            State::Error(error) => StateView::Error(error@),
        }
    }
}

impl View for Event {
    type V = EventView;

    open spec fn view(&self) -> EventView {
        match *self {
            Event::Ready(readiness) => EventView::Ready(readiness),
            Event::Sent => EventView::Sent,
            Event::SendWouldBlock => EventView::SendWouldBlock,
            Event::Received { buffer, len, from } => EventView::Received {
                datagram: received_bytes(buffer@, len),
                from,
            },
            Event::ReceiveWouldBlock { .. } => EventView::ReceiveWouldBlock,
            Event::Written => EventView::Written,
            Event::Failed { message } => EventView::Failed { message: message@ },
        }
    }
}

impl<'a> View for Action<'a> {
    type V = ActionView;

    open spec fn view(&self) -> ActionView {
        match *self {
            Action::Wait { rearm } => ActionView::Wait { rearm },
            Action::Send { datagram, to } => ActionView::Send { datagram: datagram@, to },
            Action::Receive { .. } => ActionView::Receive,
            Action::Write { payload } => ActionView::Write { payload: payload@ },
            Action::Stop => ActionView::Stop,
        }
    }
}

impl View for Session {
    type V = SessionView;

    closed spec fn view(&self) -> SessionView {
        SessionView {
            state: self.state@,
            remote: self.remote,
            writable_trigger: self.writable_trigger,
        }
    }
}

/// The datagram in a receive buffer of which `len` bytes were filled: no more than
/// the buffer holds.
pub open spec fn received_bytes(buffer: Seq<u8>, len: usize) -> Seq<u8> {
    if len <= buffer.len() {
        buffer.take(len as int)
    } else {
        buffer
    }
}

/// The block number that follows `block_id`. Numbers wrap around after the largest.
pub open spec fn next_block_id(block_id: u16) -> u16 {
    if block_id == u16::MAX {
        0
    } else {
        (block_id + 1) as u16
    }
}

impl StateView {
    /// Whether the transfer is over.
    pub open spec fn is_terminal(self) -> bool {
        self is Done || self is Error
    }
}

impl SessionView {
    /// A session that awaits the sending of its request for `path` to `server`.
    pub open spec fn initial(path: Seq<u8>, mode: TransferMode, server: Endpoint) -> SessionView {
        SessionView {
            state: StateView::AwaitingRequestSend { path, mode },
            remote: server,
            writable_trigger: false,
        }
    }

    /// The same session in another state.
    pub open spec fn with_state(self, state: StateView) -> SessionView {
        SessionView { state, ..self }
    }

    /// The session after it ended with `error`, and the order to stop.
    pub open spec fn fail(self, error: TransferErrorView) -> (SessionView, ActionView) {
        (self.with_state(StateView::Error(error)), ActionView::Stop)
    }

    /// The session unchanged, and the order to wait for the next notification.
    pub open spec fn wait(self) -> (SessionView, ActionView) {
        (self, ActionView::Wait { rearm: None })
    }

    /// The socket is ready: the operation that the state calls for is attempted,
    /// whatever the notification reports, since no operation blocks. Whether it
    /// reports the socket writable is kept for `on_written`.
    pub open spec fn on_ready(self, readiness: Readiness) -> (SessionView, ActionView) {
        let next = SessionView { writable_trigger: readiness.writable, ..self };
        match self.state {
            StateView::AwaitingRequestSend { path, mode } => (
                next,
                ActionView::Send {
                    datagram: encoding(PacketView::ReadRequest { path, mode }),
                    to: self.remote,
                },
            ),
            StateView::ReceivingData { .. } => (next, ActionView::Receive),
            StateView::SendAck { block_id, payload, acked } => if acked {
                (next, ActionView::Write { payload })
            } else {
                (
                    next,
                    ActionView::Send {
                        datagram: encoding(PacketView::Ack { block_id }),
                        to: self.remote,
                    },
                )
            },
            _ => (self, ActionView::Stop),
        }
    }

    /// A datagram has left. After the request, the first block is awaited and the
    /// socket is watched for reading. After an acknowledgement, the block goes to
    /// the sink.
    pub open spec fn on_sent(self) -> (SessionView, ActionView) {
        match self.state {
            StateView::AwaitingRequestSend { .. } => (
                self.with_state(StateView::ReceivingData { expected_id: 1 }),
                ActionView::Wait { rearm: Some(Interest::Readable) },
            ),
            StateView::SendAck { block_id, payload, acked } => if acked {
                self.wait()
            } else {
                (
                    self.with_state(StateView::SendAck { block_id, payload, acked: true }),
                    ActionView::Write { payload },
                )
            },
            _ => self.wait(),
        }
    }

    /// A datagram could not be sent without blocking. An acknowledgement is kept
    /// and tried again once the socket is writable. The request is not tried
    /// again: the transport tells only success from failure for it, and this is
    /// no failure.
    pub open spec fn on_send_would_block(self) -> (SessionView, ActionView) {
        match self.state {
            StateView::AwaitingRequestSend { .. } => self.on_sent(),
            StateView::SendAck { acked, .. } => if acked {
                self.wait()
            } else {
                (self, ActionView::Wait { rearm: Some(Interest::Writable) })
            },
            _ => self.wait(),
        }
    }

    /// A datagram arrived. Its sender is where datagrams go from now on. An error
    /// message of the server, a message of a kind that a server does not send, and a
    /// datagram that is no message end the transfer. The awaited data block is
    /// acknowledged. Any other data block is dropped without an answer.
    pub open spec fn on_received(self, datagram: Seq<u8>, from: Endpoint) -> (
        SessionView,
        ActionView,
    ) {
        let heard = SessionView { remote: from, ..self };
        match decoding(datagram) {
            Err(error) => heard.fail(TransferErrorView::Decode(error)),
            Ok(PacketView::Error { code, message }) => heard.fail(
                TransferErrorView::ServerError { code, message },
            ),
            Ok(PacketView::Data { block_id, payload }) => if self.state
                == (StateView::ReceivingData { expected_id: block_id }) {
                (
                    heard.with_state(StateView::SendAck { block_id, payload, acked: false }),
                    ActionView::Send {
                        datagram: encoding(PacketView::Ack { block_id }),
                        to: from,
                    },
                )
            } else {
                heard.wait()
            },
            Ok(_) => heard.fail(TransferErrorView::UnexpectedOpcode),
        }
    }

    /// The sink took the payload of the acknowledged block. A block shorter than a
    /// full one was the last. After a full one the next is awaited, and the socket
    /// is watched for reading again where the last notification was one for writing.
    pub open spec fn on_written(self) -> (SessionView, ActionView) {
        match self.state {
            StateView::SendAck { block_id, payload, acked } => if !acked {
                self.wait()
            } else if payload.len() < MAX_BLOCK_SIZE {
                (self.with_state(StateView::Done), ActionView::Stop)
            } else {
                (
                    self.with_state(
                        StateView::ReceivingData { expected_id: next_block_id(block_id) },
                    ),
                    ActionView::Wait {
                        rearm: if self.writable_trigger {
                            Some(Interest::Readable)
                        } else {
                            None
                        },
                    },
                )
            },
            _ => self.wait(),
        }
    }

    /// The state that follows `self` on `event`, and the action that the runner is
    /// to perform next. A session that is over stays as it is.
    pub open spec fn step(self, event: EventView) -> (SessionView, ActionView) {
        if self.state.is_terminal() {
            (self, ActionView::Stop)
        } else {
            match event {
                EventView::Ready(readiness) => self.on_ready(readiness),
                EventView::Sent => self.on_sent(),
                EventView::SendWouldBlock => self.on_send_would_block(),
                EventView::Received { datagram, from } => self.on_received(datagram, from),
                EventView::ReceiveWouldBlock => self.wait(),
                EventView::Written => self.on_written(),
                EventView::Failed { message } => self.fail(TransferErrorView::Io { message }),
            }
        }
    }

    /// The action that starts or resumes a session: the interest that its state
    /// calls for is armed, and the socket is waited for.
    pub open spec fn first_action(self) -> ActionView {
        match self.state {
            StateView::AwaitingRequestSend { .. } => ActionView::Wait {
                rearm: Some(Interest::Writable),
            },
            StateView::ReceivingData { .. } => ActionView::Wait {
                rearm: Some(Interest::Readable),
            },
            StateView::SendAck { .. } => ActionView::Wait { rearm: Some(Interest::Writable) },
            _ => ActionView::Stop,
        }
    }
}

/// What `advance` settles on, before the action is built from the session.
enum Next {
    Wait(Option<Interest>),
    Send,
    Receive,
    Write,
    Stop,
}

/// What a received datagram means to a session that awaits the block `awaited`.
enum Finding {
    Accept,
    Discard,
    Fail(ProtocolError),
}

/// Reads a received datagram and weighs it against the block that is awaited, if
/// one is.
fn judge(datagram: &[u8], awaited: Option<u16>) -> (finding: Finding)
    ensures
        match decoding(datagram@) {
            Err(error) => finding matches Finding::Fail(failure) && failure@
                == TransferErrorView::Decode(error),
            Ok(PacketView::Error { code, message }) => finding matches Finding::Fail(failure)
                && failure@ == (TransferErrorView::ServerError { code, message }),
            Ok(PacketView::Data { block_id, .. }) => if awaited == Some(block_id) {
                finding is Accept
            } else {
                finding is Discard
            },
            Ok(_) => finding matches Finding::Fail(failure) && failure@
                == TransferErrorView::UnexpectedOpcode,
        },
{
    match decode(datagram) {
        Err(error) => Finding::Fail(ProtocolError::Decode(error)),
        Ok(Packet::Error { code, message }) => Finding::Fail(
            ProtocolError::ServerError { code, message: vstd::slice::slice_to_vec(message) },
        ),
        Ok(Packet::Data { block_id, .. }) => match awaited {
            Some(expected_id) => if expected_id == block_id {
                Finding::Accept
            } else {
                Finding::Discard
            },
            None => Finding::Discard,
        },
        Ok(_) => Finding::Fail(ProtocolError::UnexpectedOpcode),
    }
}

/// The block number that follows `block_id`.
pub fn following_block_id(block_id: u16) -> (next: u16)
    ensures
        next == next_block_id(block_id),
{
    if block_id == u16::MAX {
        0
    } else {
        block_id + 1
    }
}

impl State {
    /// Whether the transfer is over.
    pub fn is_terminal(&self) -> (terminal: bool)
        ensures
            terminal == self@.is_terminal(),
    {
        match self {
            State::Done => true,
            State::Error(_) => true,
            _ => false,
        }
    }
}

impl Session {
    /// A session that is to fetch `path` from `server`. Nothing has been sent yet.
    pub fn new(path: Vec<u8>, mode: TransferMode, server: Endpoint) -> (session: Session)
        ensures
            session@ == SessionView::initial(path@, mode, server),
    {
        Session {
            state: State::AwaitingRequestSend { path, mode },
            remote: server,
            writable_trigger: false,
            outgoing: Vec::new(),
            spare: Vec::new(),
        }
    }

    /// A session that takes a transfer up in `state`, with `remote` as the peer.
    pub fn resume(state: State, remote: Endpoint) -> (session: Session)
        ensures
            session@ == (SessionView { state: state@, remote, writable_trigger: false }),
    {
        Session { state, remote, writable_trigger: false, outgoing: Vec::new(), spare: Vec::new() }
    }

    /// Where the transfer stands.
    pub fn state(&self) -> (state: &State)
        ensures
            state@ == self@.state,
    {
        &self.state
    }

    /// Where datagrams are sent to.
    pub fn remote(&self) -> (remote: Endpoint)
        ensures
            remote == self@.remote,
    {
        self.remote
    }

    /// Whether the transfer is over, in success or in failure.
    pub fn is_finished(&self) -> (finished: bool)
        ensures
            finished == self@.state.is_terminal(),
    {
        self.state.is_terminal()
    }

    /// The action that starts the session: before the first wait the socket is to
    /// be watched for what the state calls for.
    pub fn start(&self) -> (action: Action<'static>)
        ensures
            action@ == self@.first_action(),
    {
        match &self.state {
            State::AwaitingRequestSend { .. } => Action::Wait { rearm: Some(Interest::Writable) },
            State::ReceivingData { .. } => Action::Wait { rearm: Some(Interest::Readable) },
            State::SendAck { .. } => Action::Wait { rearm: Some(Interest::Writable) },
            _ => Action::Stop,
        }
    }

    /// How the transfer ended: `None` while it is still under way.
    pub fn into_result(self) -> (result: Option<Result<(), TransferError>>)
        ensures
            match self@.state {
                StateView::Done => result == Some(Ok::<(), TransferError>(())),
                StateView::Error(error) => result matches Some(Err(failure)) && failure@ == error,
                _ => result is None,
            },
    {
        match self.state {
            State::Done => Some(Ok(())),
            State::Error(error) => Some(Err(error)),
            _ => None,
        }
    }

    /// Whether `next` and the session stand for `action`: the datagram to send is
    /// the one in `outgoing`, the payload to write that of the block in hand.
    closed spec fn answers(&self, next: Next, action: ActionView) -> bool {
        match action {
            ActionView::Wait { rearm } => next == Next::Wait(rearm),
            ActionView::Send { datagram, to } => next is Send && self.outgoing@ == datagram
                && self.remote == to,
            ActionView::Receive => next is Receive,
            ActionView::Write { payload } => next is Write && (self.state matches State::SendAck {
                block,
                ..
            } && block.spec_payload() == payload),
            ActionView::Stop => next is Stop,
        }
    }

    /// Carries out [`SessionView::on_ready`]: the datagram to send is encoded into
    /// `outgoing`.
    fn on_ready(&mut self, readiness: Readiness) -> (next: Next)
        requires
            !old(self)@.state.is_terminal(),
        ensures
            final(self)@ == old(self)@.on_ready(readiness).0,
            final(self).answers(next, old(self)@.on_ready(readiness).1),
    {
        self.writable_trigger = readiness.writable;
        match &self.state {
            State::AwaitingRequestSend { path, mode } => {
                let request = Packet::ReadRequest { path: path.as_slice(), mode: *mode };
                encode_into(&request, &mut self.outgoing);
                Next::Send
            },
            State::ReceivingData { .. } => Next::Receive,
            State::SendAck { block, acked } => {
                if *acked {
                    Next::Write
                } else {
                    let ack = Packet::Ack { block_id: block.block_id() };
                    encode_into(&ack, &mut self.outgoing);
                    Next::Send
                }
            },
            _ => Next::Stop,
        }
    }

    /// Carries out [`SessionView::on_sent`].
    fn on_sent(&mut self) -> (next: Next)
        ensures
            final(self)@ == old(self)@.on_sent().0,
            final(self).answers(next, old(self)@.on_sent().1),
    {
        let mut state = State::Done;
        core::mem::swap(&mut self.state, &mut state);
        match state {
            State::AwaitingRequestSend { .. } => {
                self.state = State::ReceivingData { expected_id: 1 };
                Next::Wait(Some(Interest::Readable))
            },
            State::SendAck { block, acked } => {
                self.state = State::SendAck { block, acked: true };
                if acked {
                    Next::Wait(None)
                } else {
                    Next::Write
                }
            },
            other => {
                self.state = other;
                Next::Wait(None)
            },
        }
    }

    /// Carries out [`SessionView::on_send_would_block`].
    fn on_send_would_block(&mut self) -> (next: Next)
        ensures
            final(self)@ == old(self)@.on_send_would_block().0,
            final(self).answers(next, old(self)@.on_send_would_block().1),
    {
        match &self.state {
            State::AwaitingRequestSend { .. } => self.on_sent(),
            State::SendAck { acked, .. } => {
                if *acked {
                    Next::Wait(None)
                } else {
                    Next::Wait(Some(Interest::Writable))
                }
            },
            _ => Next::Wait(None),
        }
    }

    /// Carries out [`SessionView::on_received`]. The buffer of an accepted block
    /// stays with the block; any other buffer is kept for the next receive.
    fn on_received(&mut self, buffer: Vec<u8>, len: usize, from: Endpoint) -> (next: Next)
        requires
            !old(self)@.state.is_terminal(),
        ensures
            final(self)@ == old(self)@.on_received(received_bytes(buffer@, len), from).0,
            final(self).answers(
                next,
                old(self)@.on_received(received_bytes(buffer@, len), from).1,
            ),
    {
        self.remote = from;
        let filled = if len <= buffer.len() {
            len
        } else {
            buffer.len()
        };
        let awaited = match &self.state {
            State::ReceivingData { expected_id } => Some(*expected_id),
            _ => None,
        };
        let datagram = vstd::slice::slice_subrange(buffer.as_slice(), 0, filled);
        assert(datagram@ =~= received_bytes(buffer@, len));
        match judge(datagram, awaited) {
            Finding::Accept => {
                let block = DataBlock::new(buffer, filled);
                let ack = Packet::Ack { block_id: block.block_id() };
                encode_into(&ack, &mut self.outgoing);
                self.state = State::SendAck { block, acked: false };
                Next::Send
            },
            Finding::Discard => {
                self.spare = buffer;
                Next::Wait(None)
            },
            Finding::Fail(failure) => {
                self.state = State::Error(TransferError::Protocol(failure));
                Next::Stop
            },
        }
    }

    /// Carries out [`SessionView::on_written`]. The buffer of the written block is
    /// kept for the next receive.
    fn on_written(&mut self) -> (next: Next)
        ensures
            final(self)@ == old(self)@.on_written().0,
            final(self).answers(next, old(self)@.on_written().1),
    {
        let mut state = State::Done;
        core::mem::swap(&mut self.state, &mut state);
        match state {
            State::SendAck { block, acked } => {
                if !acked {
                    self.state = State::SendAck { block, acked };
                    Next::Wait(None)
                } else {
                    let last = block.payload().len() < MAX_BLOCK_SIZE;
                    let block_id = block.block_id();
                    self.spare = block.into_inner();
                    if last {
                        self.state = State::Done;
                        Next::Stop
                    } else {
                        self.state = State::ReceivingData {
                            expected_id: following_block_id(block_id),
                        };
                        if self.writable_trigger {
                            Next::Wait(Some(Interest::Readable))
                        } else {
                            Next::Wait(None)
                        }
                    }
                }
            },
            other => {
                self.state = other;
                Next::Wait(None)
            },
        }
    }

    /// Carries out [`SessionView::step`], and leaves it to the caller to lend out
    /// what the action refers to.
    fn advance(&mut self, event: Event) -> (next: Next)
        ensures
            final(self)@ == old(self)@.step(event@).0,
            final(self).answers(next, old(self)@.step(event@).1),
    {
        if self.state.is_terminal() {
            return Next::Stop;
        }
        match event {
            Event::Ready(readiness) => self.on_ready(readiness),
            Event::Sent => self.on_sent(),
            Event::SendWouldBlock => self.on_send_would_block(),
            Event::Received { buffer, len, from } => self.on_received(buffer, len, from),
            Event::ReceiveWouldBlock { buffer } => {
                self.spare = buffer;
                Next::Wait(None)
            },
            Event::Written => self.on_written(),
            Event::Failed { message } => {
                self.state = State::Error(TransferError::Io { message });
                Next::Stop
            },
        }
    }

    /// Takes the buffer that the last datagram came in, or a new one where that is
    /// gone, as a receive buffer of full size.
    fn lend_buffer(&mut self) -> (buffer: Vec<u8>)
        ensures
            buffer@.len() == MAX_DATAGRAM_SIZE,
            final(self)@ == old(self)@,
    {
        let mut buffer: Vec<u8> = Vec::new();
        core::mem::swap(&mut self.spare, &mut buffer);
        buffer.resize(MAX_DATAGRAM_SIZE, 0);
        buffer
    }

    /// Takes in what happened and tells what to do next.
    ///
    /// The session moves as [`SessionView::step`] says, and the action is the one
    /// that `step` gives. The datagram of a `Send` and the payload of a `Write` lie
    /// in the session and are lent for as long as the action lives. The buffer of a
    /// `Receive` holds `MAX_DATAGRAM_SIZE` bytes; it is the buffer of an earlier
    /// datagram where the session has one to spare.
    pub fn handle_event<'a>(&'a mut self, event: Event) -> (action: Action<'a>)
        ensures
            final(self)@ == old(self)@.step(event@).0,
            action@ == old(self)@.step(event@).1,
            action matches Action::Receive { buffer } ==> buffer@.len() == MAX_DATAGRAM_SIZE,
    {
        let next = self.advance(event);
        match next {
            Next::Wait(rearm) => Action::Wait { rearm },
            Next::Send => Action::Send { datagram: self.outgoing.as_slice(), to: self.remote },
            Next::Receive => {
                let buffer = self.lend_buffer();
                Action::Receive { buffer }
            },
            Next::Write => match &self.state {
                State::SendAck { block, .. } => Action::Write { payload: block.payload() },
                // `answers` leaves no other state to write from.
                _ => Action::Stop,
            },
            Next::Stop => Action::Stop,
        }
    }
}

} // verus!
