//! The five protocol messages and their wire format.
//!
//! Every message starts with a two-byte operation code in network byte order.
//! Requests carry a file name and a transfer mode as NUL-terminated strings, data
//! and acknowledgement messages carry a 16-bit block number, and an error message
//! carries a 16-bit code and a NUL-terminated text.
//!
//! Strings are kept as the bytes that travel on the wire. A string that is sent
//! must not contain a NUL byte, because that byte ends it.

use vstd::prelude::*;

verus! {

/// Largest payload of a data message, in bytes. A shorter payload ends a transfer.
pub const MAX_BLOCK_SIZE: usize = 512;

/// Largest datagram of the protocol: a full data block behind its four-byte header.
pub const MAX_DATAGRAM_SIZE: usize = 516;

/// How the file content is to be interpreted by the two ends.
#[derive(Clone, Copy, Debug, PartialEq, Eq, Structural)]
pub enum TransferMode {
    /// Text with network line endings.
    NetAscii,
    /// Raw bytes.
    Octet,
    /// Delivery to a mailbox.
    Mail,
}

/// The kind of a message, as told by its operation code.
#[derive(Clone, Copy, Debug, PartialEq, Eq, Structural)]
pub enum Kind {
    ReadRequest,
    WriteRequest,
    Data,
    Ack,
    Error,
}

/// A protocol message. The byte strings borrow from wherever the message was
/// built or decoded from.
#[derive(Clone, Copy, Debug, PartialEq, Eq)]
pub enum Packet<'a> {
    /// Asks the server to send the file `path`.
    ReadRequest { path: &'a [u8], mode: TransferMode },
    /// Asks the server to accept the file `path`.
    WriteRequest { path: &'a [u8], mode: TransferMode },
    /// One block of file content.
    Data { block_id: u16, payload: &'a [u8] },
    /// Confirms the receipt of the data block `block_id`.
    Ack { block_id: u16 },
    /// Reports a failure of the peer and ends the transfer.
    Error { code: u16, message: &'a [u8] },
}

/// The mathematical content of a [`Packet`].
pub enum PacketView {
    ReadRequest { path: Seq<u8>, mode: TransferMode },
    WriteRequest { path: Seq<u8>, mode: TransferMode },
    Data { block_id: u16, payload: Seq<u8> },
    Ack { block_id: u16 },
    Error { code: u16, message: Seq<u8> },
}

/// Why a datagram is not a message.
#[derive(Clone, Copy, Debug, PartialEq, Eq, Structural)]
pub enum DecodeError {
    /// The datagram ends before the message is complete.
    Truncated,
    /// The operation code is none of the five, or not the one that was asked for.
    UnknownOpcode,
    /// The transfer mode of a request is not a known one.
    UnknownMode,
    /// A data message carries more than `MAX_BLOCK_SIZE` bytes.
    PayloadTooLong,
}

impl<'a> View for Packet<'a> {
    type V = PacketView;

    open spec fn view(&self) -> PacketView {
        match *self {
            Packet::ReadRequest { path, mode } => PacketView::ReadRequest { path: path@, mode },
            Packet::WriteRequest { path, mode } => PacketView::WriteRequest { path: path@, mode },
            Packet::Data { block_id, payload } => PacketView::Data { block_id, payload: payload@ },
            Packet::Ack { block_id } => PacketView::Ack { block_id },
            Packet::Error { code, message } => PacketView::Error { code, message: message@ },
        }
    }
}

impl Kind {
    /// The operation code that announces this kind on the wire.
    pub open spec fn spec_opcode(self) -> u16 {
        match self {
            Kind::ReadRequest => 1,
            Kind::WriteRequest => 2,
            Kind::Data => 3,
            Kind::Ack => 4,
            Kind::Error => 5,
        }
    }

    /// The kind that an operation code announces, if any.
    pub open spec fn of_opcode(opcode: u16) -> Option<Kind> {
        if opcode == 1 {
            Some(Kind::ReadRequest)
        } else if opcode == 2 {
            Some(Kind::WriteRequest)
        } else if opcode == 3 {
            Some(Kind::Data)
        } else if opcode == 4 {
            Some(Kind::Ack)
        } else if opcode == 5 {
            Some(Kind::Error)
        } else {
            None
        }
    }

    /// The operation code that announces this kind on the wire.
    #[verifier::when_used_as_spec(spec_opcode)]
    pub fn opcode(self) -> (code: u16)
        ensures
            code == self.spec_opcode(),
    {
        match self {
            Kind::ReadRequest => 1,
            Kind::WriteRequest => 2,
            Kind::Data => 3,
            Kind::Ack => 4,
            Kind::Error => 5,
        }
    }

    /// Reads an operation code.
    pub fn from_opcode(opcode: u16) -> (kind: Option<Kind>)
        ensures
            kind == Kind::of_opcode(opcode),
    {
        if opcode == 1 {
            Some(Kind::ReadRequest)
        } else if opcode == 2 {
            Some(Kind::WriteRequest)
        } else if opcode == 3 {
            Some(Kind::Data)
        } else if opcode == 4 {
            Some(Kind::Ack)
        } else if opcode == 5 {
            Some(Kind::Error)
        } else {
            None
        }
    }
}

impl PacketView {
    /// The kind of the message.
    pub open spec fn kind(self) -> Kind {
        match self {
            PacketView::ReadRequest { .. } => Kind::ReadRequest,
            PacketView::WriteRequest { .. } => Kind::WriteRequest,
            PacketView::Data { .. } => Kind::Data,
            PacketView::Ack { .. } => Kind::Ack,
            PacketView::Error { .. } => Kind::Error,
        }
    }

    /// Whether the message can travel: its strings hold no NUL byte and its payload
    /// fits in one block.
    pub open spec fn well_formed(self) -> bool {
        match self {
            PacketView::ReadRequest { path, .. } => !path.contains(0u8),
            PacketView::WriteRequest { path, .. } => !path.contains(0u8),
            PacketView::Data { payload, .. } => payload.len() <= MAX_BLOCK_SIZE,
            PacketView::Ack { .. } => true,
            PacketView::Error { message, .. } => !message.contains(0u8),
        }
    }
}

impl<'a> Packet<'a> {
    /// The kind of the message.
    pub fn kind(&self) -> (kind: Kind)
        ensures
            kind == self@.kind(),
    {
        match self {
            Packet::ReadRequest { .. } => Kind::ReadRequest,
            Packet::WriteRequest { .. } => Kind::WriteRequest,
            Packet::Data { .. } => Kind::Data,
            Packet::Ack { .. } => Kind::Ack,
            Packet::Error { .. } => Kind::Error,
        }
    }
}

/// The two bytes of `value`, most significant first.
pub open spec fn be16(value: u16) -> Seq<u8> {
    seq![(value / 256) as u8, (value % 256) as u8]
}

/// The number whose big-endian bytes are `high` and `low`.
pub open spec fn from_be16(high: u8, low: u8) -> u16 {
    (high * 256 + low) as u16
}

/// The name of a transfer mode as it is written in a request: the ASCII letters of
/// `netascii`, `octet` or `mail`.
pub open spec fn mode_name(mode: TransferMode) -> Seq<u8> {
    match mode {
        TransferMode::NetAscii => seq![110u8, 101u8, 116u8, 97u8, 115u8, 99u8, 105u8, 105u8],
        TransferMode::Octet => seq![111u8, 99u8, 116u8, 101u8, 116u8],
        TransferMode::Mail => seq![109u8, 97u8, 105u8, 108u8],
    }
}

/// The wire bytes of a message.
pub open spec fn encoding(packet: PacketView) -> Seq<u8> {
    match packet {
        PacketView::ReadRequest { path, mode } => be16(1) + path + seq![0u8] + mode_name(mode)
            + seq![0u8],
        PacketView::WriteRequest { path, mode } => be16(2) + path + seq![0u8] + mode_name(mode)
            + seq![0u8],
        PacketView::Data { block_id, payload } => be16(3) + be16(block_id) + payload,
        PacketView::Ack { block_id } => be16(4) + be16(block_id),
        PacketView::Error { code, message } => be16(5) + be16(code) + message + seq![0u8],
    }
}

fn push_u16(buffer: &mut Vec<u8>, value: u16)
    ensures
        final(buffer)@ == old(buffer)@ + be16(value),
{
    buffer.push((value / 256) as u8);
    buffer.push((value % 256) as u8);
}

fn push_bytes(buffer: &mut Vec<u8>, bytes: &[u8])
    ensures
        final(buffer)@ == old(buffer)@ + bytes@,
{
    buffer.extend_from_slice(bytes);
    assert(buffer@ =~= old(buffer)@ + bytes@);
}

fn push_mode(buffer: &mut Vec<u8>, mode: TransferMode)
    ensures
        final(buffer)@ == old(buffer)@ + mode_name(mode),
{
    match mode {
        // n e t a s c i i
        TransferMode::NetAscii => {
            buffer.push(110);
            buffer.push(101);
            buffer.push(116);
            buffer.push(97);
            buffer.push(115);
            buffer.push(99);
            buffer.push(105);
            buffer.push(105);
        },
        // o c t e t
        TransferMode::Octet => {
            buffer.push(111);
            buffer.push(99);
            buffer.push(116);
            buffer.push(101);
            buffer.push(116);
        },
        // m a i l
        TransferMode::Mail => {
            buffer.push(109);
            buffer.push(97);
            buffer.push(105);
            buffer.push(108);
        },
    }
}

/// Writes the wire bytes of `packet` into `buffer`, replacing what it held. The
/// buffer's allocation is reused, so a buffer that has held a message of the same
/// size before takes the new one without allocating.
pub fn encode_into(packet: &Packet, buffer: &mut Vec<u8>)
    ensures
        final(buffer)@ == encoding(packet@),
{
    buffer.clear();
    match *packet {
        Packet::ReadRequest { path, mode } => {
            push_u16(buffer, 1);
            push_bytes(buffer, path);
            buffer.push(0);
            push_mode(buffer, mode);
            buffer.push(0);
        },
        Packet::WriteRequest { path, mode } => {
            push_u16(buffer, 2);
            push_bytes(buffer, path);
            buffer.push(0);
            push_mode(buffer, mode);
            buffer.push(0);
        },
        Packet::Data { block_id, payload } => {
            push_u16(buffer, 3);
            push_u16(buffer, block_id);
            push_bytes(buffer, payload);
        },
        Packet::Ack { block_id } => {
            push_u16(buffer, 4);
            push_u16(buffer, block_id);
        },
        Packet::Error { code, message } => {
            push_u16(buffer, 5);
            push_u16(buffer, code);
            push_bytes(buffer, message);
            buffer.push(0);
        },
    }
}

/// The wire bytes of `packet` in a buffer of their own.
pub fn encode(packet: &Packet) -> (bytes: Vec<u8>)
    ensures
        bytes@ == encoding(packet@),
{
    let mut bytes = Vec::new();
    encode_into(packet, &mut bytes);
    bytes
}

/// Whether `end` is where the string that starts at `from` ends: the first NUL byte at
/// or after `from`.
pub open spec fn is_terminator(bytes: Seq<u8>, from: int, end: int) -> bool {
    &&& from <= end < bytes.len()
    &&& bytes[end] == 0
    &&& forall|i: int| from <= i < end ==> bytes[i] != 0
}

/// Where the string that starts at `from` ends, or the length of `bytes` where no
/// NUL byte follows.
pub open spec fn string_end(bytes: Seq<u8>, from: int) -> int {
    if exists|end: int| is_terminator(bytes, from, end) {
        choose|end: int| is_terminator(bytes, from, end)
    } else {
        bytes.len() as int
    }
}

/// A letter in lower case, any other byte as it is.
pub open spec fn lowered(byte: u8) -> u8 {
    if 65 <= byte <= 90 {
        (byte + 32) as u8
    } else {
        byte
    }
}

/// Whether `name` spells the transfer mode `mode`, in any mix of upper and lower case.
pub open spec fn names_mode(name: Seq<u8>, mode: TransferMode) -> bool {
    &&& name.len() == mode_name(mode).len()
    &&& forall|i: int| 0 <= i < name.len() ==> lowered(name[i]) == mode_name(mode)[i]
}

/// The transfer mode that `name` spells, if any.
pub open spec fn mode_of(name: Seq<u8>) -> Option<TransferMode> {
    if names_mode(name, TransferMode::NetAscii) {
        Some(TransferMode::NetAscii)
    } else if names_mode(name, TransferMode::Octet) {
        Some(TransferMode::Octet)
    } else if names_mode(name, TransferMode::Mail) {
        Some(TransferMode::Mail)
    } else {
        None
    }
}

/// The message that a request datagram holds. The first two bytes are taken to be
/// the operation code of `kind`.
pub open spec fn decoding_request(bytes: Seq<u8>, kind: Kind) -> Result<PacketView, DecodeError> {
    let path_end = string_end(bytes, 2);
    let mode_end = string_end(bytes, path_end + 1);
    if path_end >= bytes.len() || mode_end >= bytes.len() {
        Err(DecodeError::Truncated)
    } else {
        match mode_of(bytes.subrange(path_end + 1, mode_end)) {
            None => Err(DecodeError::UnknownMode),
            Some(mode) => if kind == Kind::ReadRequest {
                Ok(PacketView::ReadRequest { path: bytes.subrange(2, path_end), mode })
            } else {
                Ok(PacketView::WriteRequest { path: bytes.subrange(2, path_end), mode })
            },
        }
    }
}

/// The message of kind `kind` that follows the operation code in `bytes`.
pub open spec fn decoding_body(bytes: Seq<u8>, kind: Kind) -> Result<PacketView, DecodeError> {
    match kind {
        Kind::ReadRequest => decoding_request(bytes, kind),
        Kind::WriteRequest => decoding_request(bytes, kind),
        Kind::Data => if bytes.len() < 4 {
            Err(DecodeError::Truncated)
        } else if bytes.len() - 4 > MAX_BLOCK_SIZE {
            Err(DecodeError::PayloadTooLong)
        } else {
            Ok(
                PacketView::Data {
                    block_id: from_be16(bytes[2], bytes[3]),
                    payload: bytes.skip(4),
                },
            )
        },
        Kind::Ack => if bytes.len() < 4 {
            Err(DecodeError::Truncated)
        } else {
            Ok(PacketView::Ack { block_id: from_be16(bytes[2], bytes[3]) })
        },
        Kind::Error => if bytes.len() < 4 || string_end(bytes, 4) >= bytes.len() {
            Err(DecodeError::Truncated)
        } else {
            Ok(
                PacketView::Error {
                    code: from_be16(bytes[2], bytes[3]),
                    message: bytes.subrange(4, string_end(bytes, 4)),
                },
            )
        },
    }
}

/// The kind that the operation code of a datagram announces.
pub open spec fn decoding_kind(bytes: Seq<u8>) -> Result<Kind, DecodeError> {
    if bytes.len() < 2 {
        Err(DecodeError::Truncated)
    } else {
        match Kind::of_opcode(from_be16(bytes[0], bytes[1])) {
            None => Err(DecodeError::UnknownOpcode),
            Some(kind) => Ok(kind),
        }
    }
}

/// The message that a datagram holds, its kind told by its operation code. Bytes
/// that follow a complete request, acknowledgement or error message are ignored.
pub open spec fn decoding(bytes: Seq<u8>) -> Result<PacketView, DecodeError> {
    match decoding_kind(bytes) {
        Err(error) => Err(error),
        Ok(kind) => decoding_body(bytes, kind),
    }
}

/// The message of kind `kind` that a datagram holds. A datagram of any other kind
/// has an operation code that is not known to the reader of `kind`.
pub open spec fn decoding_as(bytes: Seq<u8>, kind: Kind) -> Result<PacketView, DecodeError> {
    match decoding_kind(bytes) {
        Err(error) => Err(error),
        Ok(found) => if found == kind {
            decoding_body(bytes, kind)
        } else {
            Err(DecodeError::UnknownOpcode)
        },
    }
}

/// What a decoder returns for a datagram whose meaning is `expected`.
pub open spec fn decodes_to(
    result: Result<Packet<'_>, DecodeError>,
    expected: Result<PacketView, DecodeError>,
) -> bool {
    match expected {
        Ok(view) => result matches Ok(packet) && packet@ == view,
        Err(error) => result == Err::<Packet<'_>, DecodeError>(error),
    }
}

/// A string has one end.
pub proof fn lemma_string_end(bytes: Seq<u8>, from: int, end: int)
    requires
        is_terminator(bytes, from, end),
    ensures
        string_end(bytes, from) == end,
{
    // Of two ends, the later would have the NUL byte of the earlier before it.
    let chosen = choose|e: int| is_terminator(bytes, from, e);
    assert(is_terminator(bytes, from, chosen));
}

/// A string that no NUL byte ends runs to the end of the datagram.
pub proof fn lemma_string_unterminated(bytes: Seq<u8>, from: int)
    requires
        forall|i: int| from <= i < bytes.len() ==> bytes[i] != 0,
    ensures
        string_end(bytes, from) == bytes.len(),
{
}

fn read_u16(bytes: &[u8], at: usize) -> (value: u16)
    requires
        at + 2 <= bytes@.len(),
    ensures
        value == from_be16(bytes@[at as int], bytes@[at + 1]),
{
    let high: u16 = bytes[at] as u16;
    let low: u16 = bytes[at + 1] as u16;
    high * 256 + low
}

fn find_string_end(bytes: &[u8], from: usize) -> (end: usize)
    requires
        from <= bytes@.len(),
    ensures
        end == string_end(bytes@, from as int),
        from <= end <= bytes@.len(),
{
    let mut end: usize = from;
    while end < bytes.len()
        invariant
            from <= end <= bytes@.len(),
            forall|i: int| from <= i < end ==> bytes@[i] != 0,
        decreases bytes@.len() - end,
    {
        if bytes[end] == 0 {
            proof {
                lemma_string_end(bytes@, from as int, end as int);
            }
            return end;
        }
        end += 1;
    }
    proof {
        lemma_string_unterminated(bytes@, from as int);
    }
    end
}

fn lower(byte: u8) -> (lowered_byte: u8)
    ensures
        lowered_byte == lowered(byte),
{
    if 65 <= byte && byte <= 90 {
        byte + 32
    } else {
        byte
    }
}

fn spells_mode(name: &[u8], mode: TransferMode) -> (spells: bool)
    ensures
        spells == names_mode(name@, mode),
{
    let mut canonical: Vec<u8> = Vec::new();
    push_mode(&mut canonical, mode);
    if name.len() != canonical.len() {
        return false;
    }
    let mut i: usize = 0;
    while i < name.len()
        invariant
            i <= name@.len(),
            name@.len() == canonical@.len(),
            canonical@ == mode_name(mode),
            forall|j: int| 0 <= j < i ==> lowered(name@[j]) == canonical@[j],
        decreases name@.len() - i,
    {
        if lower(name[i]) != canonical[i] {
            return false;
        }
        i += 1;
    }
    true
}

/// Reads the name of a transfer mode, in any mix of upper and lower case.
pub fn parse_mode(name: &[u8]) -> (mode: Option<TransferMode>)
    ensures
        mode == mode_of(name@),
{
    if spells_mode(name, TransferMode::NetAscii) {
        Some(TransferMode::NetAscii)
    } else if spells_mode(name, TransferMode::Octet) {
        Some(TransferMode::Octet)
    } else if spells_mode(name, TransferMode::Mail) {
        Some(TransferMode::Mail)
    } else {
        None
    }
}

/// Tells the kind of a datagram from its operation code, without reading further.
pub fn peek_kind(datagram: &[u8]) -> (kind: Result<Kind, DecodeError>)
    ensures
        kind == decoding_kind(datagram@),
{
    if datagram.len() < 2 {
        return Err(DecodeError::Truncated);
    }
    match Kind::from_opcode(read_u16(datagram, 0)) {
        None => Err(DecodeError::UnknownOpcode),
        Some(kind) => Ok(kind),
    }
}

fn decode_request<'a>(datagram: &'a [u8], kind: Kind) -> (result: Result<Packet<'a>, DecodeError>)
    requires
        datagram@.len() >= 2,
    ensures
        decodes_to(result, decoding_request(datagram@, kind)),
{
    let path_end = find_string_end(datagram, 2);
    if path_end >= datagram.len() {
        return Err(DecodeError::Truncated);
    }
    let mode_end = find_string_end(datagram, path_end + 1);
    if mode_end >= datagram.len() {
        return Err(DecodeError::Truncated);
    }
    let path = vstd::slice::slice_subrange(datagram, 2, path_end);
    let name = vstd::slice::slice_subrange(datagram, path_end + 1, mode_end);
    match parse_mode(name) {
        None => Err(DecodeError::UnknownMode),
        Some(mode) => match kind {
            Kind::ReadRequest => Ok(Packet::ReadRequest { path, mode }),
            _ => Ok(Packet::WriteRequest { path, mode }),
        },
    }
}

fn decode_body<'a>(datagram: &'a [u8], kind: Kind) -> (result: Result<Packet<'a>, DecodeError>)
    requires
        datagram@.len() >= 2,
    ensures
        decodes_to(result, decoding_body(datagram@, kind)),
{
    match kind {
        Kind::ReadRequest => decode_request(datagram, kind),
        Kind::WriteRequest => decode_request(datagram, kind),
        Kind::Data => {
            if datagram.len() < 4 {
                return Err(DecodeError::Truncated);
            }
            if datagram.len() - 4 > MAX_BLOCK_SIZE {
                return Err(DecodeError::PayloadTooLong);
            }
            let block_id = read_u16(datagram, 2);
            let payload = vstd::slice::slice_subrange(datagram, 4, datagram.len());
            Ok(Packet::Data { block_id, payload })
        },
        Kind::Ack => {
            if datagram.len() < 4 {
                return Err(DecodeError::Truncated);
            }
            Ok(Packet::Ack { block_id: read_u16(datagram, 2) })
        },
        Kind::Error => {
            if datagram.len() < 4 {
                return Err(DecodeError::Truncated);
            }
            let end = find_string_end(datagram, 4);
            if end >= datagram.len() {
                return Err(DecodeError::Truncated);
            }
            let code = read_u16(datagram, 2);
            let message = vstd::slice::slice_subrange(datagram, 4, end);
            Ok(Packet::Error { code, message })
        },
    }
}

/// Reads a datagram as the message that its operation code announces. Nothing is
/// copied: the strings and the payload of the result are parts of `datagram`.
///
/// Fails with `Truncated` where the datagram ends before the message does, with
/// `UnknownOpcode` where the operation code is none of the five, with `UnknownMode`
/// where a request names no known transfer mode, and with `PayloadTooLong` where a
/// data message holds more than `MAX_BLOCK_SIZE` bytes.
pub fn decode<'a>(datagram: &'a [u8]) -> (result: Result<Packet<'a>, DecodeError>)
    ensures
        decodes_to(result, decoding(datagram@)),
{
    match peek_kind(datagram) {
        Err(error) => Err(error),
        Ok(kind) => decode_body(datagram, kind),
    }
}

/// Reads a datagram as a message of the kind `kind`, and fails with `UnknownOpcode`
/// where it is of another kind. Otherwise as [`decode`].
pub fn decode_as<'a>(datagram: &'a [u8], kind: Kind) -> (result: Result<Packet<'a>, DecodeError>)
    ensures
        decodes_to(result, decoding_as(datagram@, kind)),
{
    match peek_kind(datagram) {
        Err(error) => Err(error),
        Ok(found) => if found == kind {
            decode_body(datagram, kind)
        } else {
            Err(DecodeError::UnknownOpcode)
        },
    }
}

/// Reading the two bytes of a number gives the number back.
pub proof fn lemma_be16_round_trip(value: u16)
    ensures
        be16(value).len() == 2,
        from_be16(be16(value)[0], be16(value)[1]) == value,
{
}

/// The name of a transfer mode spells that mode and no other, and holds no NUL byte.
pub proof fn lemma_mode_name(mode: TransferMode)
    ensures
        mode_of(mode_name(mode)) == Some(mode),
        !mode_name(mode).contains(0u8),
{
}

/// The wire bytes of a request with the strings `path` and `name`.
spec fn request_bytes(kind: Kind, path: Seq<u8>, name: Seq<u8>) -> Seq<u8> {
    be16(kind.spec_opcode()) + path + seq![0u8] + name + seq![0u8]
}

proof fn lemma_request_strings(kind: Kind, path: Seq<u8>, name: Seq<u8>)
    requires
        !path.contains(0u8),
        !name.contains(0u8),
    ensures
        ({
            let bytes = request_bytes(kind, path, name);
            let path_end = 2 + path.len() as int;
            let mode_end = path_end + 1 + name.len() as int;
            &&& bytes.len() == mode_end + 1
            &&& bytes[0] == be16(kind.spec_opcode())[0]
            &&& bytes[1] == be16(kind.spec_opcode())[1]
            &&& string_end(bytes, 2) == path_end
            &&& string_end(bytes, path_end + 1) == mode_end
            &&& bytes.subrange(2, path_end) == path
            &&& bytes.subrange(path_end + 1, mode_end) == name
        }),
{
    let bytes = request_bytes(kind, path, name);
    let path_end = 2 + path.len() as int;
    let mode_end = path_end + 1 + name.len() as int;
    assert forall|i: int| 2 <= i < path_end implies bytes[i] != 0 by {
        assert(path.contains(path[i - 2]));
    }
    lemma_string_end(bytes, 2, path_end);
    assert forall|i: int| path_end + 1 <= i < mode_end implies bytes[i] != 0 by {
        assert(name.contains(name[i - path_end - 1]));
    }
    lemma_string_end(bytes, path_end + 1, mode_end);
    assert(bytes.subrange(2, path_end) =~= path);
    assert(bytes.subrange(path_end + 1, mode_end) =~= name);
}

proof fn lemma_request_round_trip(kind: Kind, path: Seq<u8>, mode: TransferMode)
    requires
        !path.contains(0u8),
        kind == Kind::ReadRequest || kind == Kind::WriteRequest,
    ensures
        decoding_kind(request_bytes(kind, path, mode_name(mode))) == Ok::<Kind, DecodeError>(
            kind,
        ),
        decoding_request(request_bytes(kind, path, mode_name(mode)), kind) == if kind
            == Kind::ReadRequest {
            Ok::<PacketView, DecodeError>(PacketView::ReadRequest { path, mode })
        } else {
            Ok::<PacketView, DecodeError>(PacketView::WriteRequest { path, mode })
        },
{
    lemma_mode_name(mode);
    lemma_request_strings(kind, path, mode_name(mode));
    lemma_be16_round_trip(kind.spec_opcode());
}

proof fn lemma_data_round_trip(block_id: u16, payload: Seq<u8>)
    requires
        payload.len() <= MAX_BLOCK_SIZE,
    ensures
        decoding(be16(3) + be16(block_id) + payload) == Ok::<PacketView, DecodeError>(
            PacketView::Data { block_id, payload },
        ),
{
    let bytes = be16(3) + be16(block_id) + payload;
    lemma_be16_round_trip(block_id);
    assert(bytes[0] == 0 && bytes[1] == 3);
    assert(bytes[2] == be16(block_id)[0] && bytes[3] == be16(block_id)[1]);
    assert(bytes.skip(4) =~= payload);
}

proof fn lemma_ack_round_trip(block_id: u16)
    ensures
        decoding(be16(4) + be16(block_id)) == Ok::<PacketView, DecodeError>(
            PacketView::Ack { block_id },
        ),
{
    let bytes = be16(4) + be16(block_id);
    lemma_be16_round_trip(block_id);
    assert(bytes[0] == 0 && bytes[1] == 4);
    assert(bytes[2] == be16(block_id)[0] && bytes[3] == be16(block_id)[1]);
}

proof fn lemma_error_round_trip(code: u16, message: Seq<u8>)
    requires
        !message.contains(0u8),
    ensures
        decoding(be16(5) + be16(code) + message + seq![0u8]) == Ok::<PacketView, DecodeError>(
            PacketView::Error { code, message },
        ),
{
    let bytes = be16(5) + be16(code) + message + seq![0u8];
    lemma_be16_round_trip(code);
    assert(bytes[0] == 0 && bytes[1] == 5);
    assert(bytes[2] == be16(code)[0] && bytes[3] == be16(code)[1]);
    let end = 4 + message.len() as int;
    assert forall|i: int| 4 <= i < end implies bytes[i] != 0 by {
        assert(message.contains(message[i - 4]));
    }
    lemma_string_end(bytes, 4, end);
    assert(bytes.subrange(4, end) =~= message);
}

/// Decoding the wire bytes of a well-formed message gives that message back,
/// whether its kind is read from the operation code or declared.
pub proof fn lemma_round_trip(packet: PacketView)
    requires
        packet.well_formed(),
    ensures
        decoding(encoding(packet)) == Ok::<PacketView, DecodeError>(packet),
        decoding_as(encoding(packet), packet.kind()) == Ok::<PacketView, DecodeError>(packet),
{
    match packet {
        PacketView::ReadRequest { path, mode } => {
            lemma_request_round_trip(Kind::ReadRequest, path, mode);
        },
        PacketView::WriteRequest { path, mode } => {
            lemma_request_round_trip(Kind::WriteRequest, path, mode);
        },
        PacketView::Data { block_id, payload } => {
            lemma_data_round_trip(block_id, payload);
        },
        PacketView::Ack { block_id } => {
            lemma_ack_round_trip(block_id);
        },
        PacketView::Error { code, message } => {
            lemma_error_round_trip(code, message);
        },
    }
}

/// The first NUL byte at or after `from`, given that one stands at `at`.
spec fn first_nul(bytes: Seq<u8>, from: int, at: int) -> int
    decreases at - from,
{
    if from >= at || bytes[from] == 0 {
        from
    } else {
        first_nul(bytes, from + 1, at)
    }
}

proof fn lemma_first_nul(bytes: Seq<u8>, from: int, at: int)
    requires
        0 <= from <= at < bytes.len(),
        bytes[at] == 0,
    ensures
        is_terminator(bytes, from, first_nul(bytes, from, at)),
        first_nul(bytes, from, at) <= at,
    decreases at - from,
{
    if from < at && bytes[from] != 0 {
        lemma_first_nul(bytes, from + 1, at);
        let first = first_nul(bytes, from + 1, at);
        assert(is_terminator(bytes, from + 1, first));
    }
}

/// No NUL byte stands inside a string.
pub proof fn lemma_string_holds_no_nul(bytes: Seq<u8>, from: int)
    requires
        0 <= from <= bytes.len(),
    ensures
        from <= string_end(bytes, from) <= bytes.len(),
        !bytes.subrange(from, string_end(bytes, from)).contains(0u8),
{
    let end = string_end(bytes, from);
    let string = bytes.subrange(from, end);
    if string.contains(0u8) {
        // A NUL byte inside the string would have a first one before the end.
        let i = choose|i: int| 0 <= i < string.len() && string[i] == 0u8;
        lemma_first_nul(bytes, from, from + i);
        lemma_string_end(bytes, from, first_nul(bytes, from, from + i));
    }
}

/// Whatever a datagram decodes to is well formed and of the kind that its
/// operation code announces.
pub proof fn lemma_decoded_well_formed(bytes: Seq<u8>)
    requires
        decoding(bytes) is Ok,
    ensures
        decoding(bytes)->Ok_0.well_formed(),
        decoding_kind(bytes) == Ok::<Kind, DecodeError>(decoding(bytes)->Ok_0.kind()),
{
    let kind = decoding_kind(bytes)->Ok_0;
    match kind {
        Kind::ReadRequest => {
            lemma_string_holds_no_nul(bytes, 2);
        },
        Kind::WriteRequest => {
            lemma_string_holds_no_nul(bytes, 2);
        },
        Kind::Data => {},
        Kind::Ack => {},
        Kind::Error => {
            lemma_string_holds_no_nul(bytes, 4);
        },
    }
}

} // verus!
