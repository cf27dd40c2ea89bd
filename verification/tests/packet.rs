use tftp_client::packet::{
    decode, decode_as, encode, encode_into, parse_mode, peek_kind, DecodeError, Kind, Packet,
    TransferMode, MAX_BLOCK_SIZE, MAX_DATAGRAM_SIZE,
};

fn request_bytes(opcode: u8, path: &[u8], mode: &[u8]) -> Vec<u8> {
    let mut bytes = vec![0, opcode];
    bytes.extend_from_slice(path);
    bytes.push(0);
    bytes.extend_from_slice(mode);
    bytes.push(0);
    bytes
}

#[test]
fn block_and_datagram_sizes() {
    assert_eq!(MAX_BLOCK_SIZE, 512);
    assert_eq!(MAX_DATAGRAM_SIZE, 516);
}

#[test]
fn read_request_is_opcode_one_and_two_strings() {
    let packet = Packet::ReadRequest { path: b"readme.txt", mode: TransferMode::Octet };
    assert_eq!(
        encode(&packet),
        vec![
            0, 1, b'r', b'e', b'a', b'd', b'm', b'e', b'.', b't', b'x', b't', 0, b'o', b'c', b't',
            b'e', b't', 0
        ]
    );
}

#[test]
fn write_request_is_opcode_two() {
    let packet = Packet::WriteRequest { path: b"a", mode: TransferMode::NetAscii };
    assert_eq!(encode(&packet), request_bytes(2, b"a", b"netascii"));
}

#[test]
fn mail_mode_is_spelled_out() {
    let packet = Packet::ReadRequest { path: b"box", mode: TransferMode::Mail };
    assert_eq!(encode(&packet), request_bytes(1, b"box", b"mail"));
}

#[test]
fn data_is_opcode_three_block_id_and_payload() {
    let packet = Packet::Data { block_id: 0x0102, payload: &[9, 8, 7] };
    assert_eq!(encode(&packet), vec![0, 3, 1, 2, 9, 8, 7]);
}

#[test]
fn ack_is_opcode_four_and_block_id() {
    assert_eq!(encode(&Packet::Ack { block_id: 1 }), vec![0, 4, 0, 1]);
    assert_eq!(encode(&Packet::Ack { block_id: 65535 }), vec![0, 4, 255, 255]);
    assert_eq!(encode(&Packet::Ack { block_id: 256 }), vec![0, 4, 1, 0]);
}

#[test]
fn error_is_opcode_five_code_and_text() {
    let packet = Packet::Error { code: 1, message: b"File not found" };
    let mut expected = vec![0, 5, 0, 1];
    expected.extend_from_slice(b"File not found");
    expected.push(0);
    assert_eq!(encode(&packet), expected);
}

#[test]
fn encode_into_replaces_what_the_buffer_held() {
    let mut buffer = vec![7; 40];
    encode_into(&Packet::Ack { block_id: 3 }, &mut buffer);
    assert_eq!(buffer, vec![0, 4, 0, 3]);
    encode_into(&Packet::Ack { block_id: 4 }, &mut buffer);
    assert_eq!(buffer, vec![0, 4, 0, 4]);
    assert!(buffer.capacity() >= 40);
}

#[test]
fn round_trip_of_every_kind() {
    let full = vec![0xabu8; 512];
    let packets = [
        Packet::ReadRequest { path: b"readme.txt", mode: TransferMode::Octet },
        Packet::ReadRequest { path: b"", mode: TransferMode::Mail },
        Packet::WriteRequest { path: b"dir/file", mode: TransferMode::NetAscii },
        Packet::Data { block_id: 1, payload: &full },
        Packet::Data { block_id: 65535, payload: &[] },
        Packet::Data { block_id: 7, payload: &[0, 0, 0] },
        Packet::Ack { block_id: 0 },
        Packet::Ack { block_id: 513 },
        Packet::Error { code: 2, message: b"Access violation" },
        Packet::Error { code: 0, message: b"" },
    ];
    for packet in packets.iter() {
        let bytes = encode(packet);
        assert_eq!(decode(&bytes), Ok(*packet));
        assert_eq!(decode_as(&bytes, packet.kind()), Ok(*packet));
    }
}

#[test]
fn decoded_payload_is_the_rest_of_the_datagram() {
    let datagram = [0, 3, 0, 9, 1, 2, 3, 4];
    match decode(&datagram) {
        Ok(Packet::Data { block_id, payload }) => {
            assert_eq!(block_id, 9);
            assert_eq!(payload, &datagram[4..]);
        }
        other => panic!("not a data message: {:?}", other),
    }
}

#[test]
fn a_datagram_shorter_than_its_opcode_is_truncated() {
    assert_eq!(decode(&[]), Err(DecodeError::Truncated));
    assert_eq!(decode(&[0]), Err(DecodeError::Truncated));
    assert_eq!(peek_kind(&[3]), Err(DecodeError::Truncated));
    assert_eq!(decode_as(&[0], Kind::Ack), Err(DecodeError::Truncated));
}

#[test]
fn a_header_cut_short_is_truncated() {
    assert_eq!(decode(&[0, 3]), Err(DecodeError::Truncated));
    assert_eq!(decode(&[0, 3, 0]), Err(DecodeError::Truncated));
    assert_eq!(decode(&[0, 4, 0]), Err(DecodeError::Truncated));
    assert_eq!(decode(&[0, 5, 0]), Err(DecodeError::Truncated));
}

#[test]
fn a_string_without_its_end_is_truncated() {
    assert_eq!(decode(&[0, 1]), Err(DecodeError::Truncated));
    assert_eq!(decode(&[0, 1, b'a', b'b']), Err(DecodeError::Truncated));
    assert_eq!(decode(&[0, 1, b'a', 0]), Err(DecodeError::Truncated));
    assert_eq!(decode(&[0, 2, b'a', 0, b'o', b'c', b't', b'e', b't']), Err(DecodeError::Truncated));
    assert_eq!(decode(&[0, 5, 0, 1, b'n', b'o']), Err(DecodeError::Truncated));
    assert_eq!(decode(&[0, 5, 0, 1]), Err(DecodeError::Truncated));
}

#[test]
fn an_opcode_out_of_range_is_unknown() {
    assert_eq!(decode(&[0, 0, 0, 0]), Err(DecodeError::UnknownOpcode));
    assert_eq!(decode(&[0, 6, 0, 0]), Err(DecodeError::UnknownOpcode));
    assert_eq!(decode(&[1, 3, 0, 0]), Err(DecodeError::UnknownOpcode));
    assert_eq!(decode(&[255, 255]), Err(DecodeError::UnknownOpcode));
    assert_eq!(peek_kind(&[0, 9]), Err(DecodeError::UnknownOpcode));
}

#[test]
fn a_mode_that_is_no_mode_is_unknown() {
    assert_eq!(decode(&request_bytes(1, b"f", b"binary")), Err(DecodeError::UnknownMode));
    assert_eq!(decode(&request_bytes(2, b"f", b"")), Err(DecodeError::UnknownMode));
    assert_eq!(decode(&request_bytes(1, b"f", b"octets")), Err(DecodeError::UnknownMode));
    assert_eq!(decode(&request_bytes(1, b"f", b"octe")), Err(DecodeError::UnknownMode));
}

#[test]
fn a_payload_over_one_block_is_too_long() {
    let mut datagram = vec![0, 3, 0, 1];
    datagram.extend_from_slice(&[5u8; 513]);
    assert_eq!(decode(&datagram), Err(DecodeError::PayloadTooLong));
    datagram.pop();
    assert_eq!(decode(&datagram), Ok(Packet::Data { block_id: 1, payload: &[5u8; 512] }));
}

#[test]
fn mode_names_are_read_in_any_case() {
    assert_eq!(
        decode(&request_bytes(1, b"f", b"OCTET")),
        Ok(Packet::ReadRequest { path: b"f", mode: TransferMode::Octet })
    );
    assert_eq!(
        decode(&request_bytes(2, b"f", b"NetAscii")),
        Ok(Packet::WriteRequest { path: b"f", mode: TransferMode::NetAscii })
    );
    assert_eq!(parse_mode(b"mAIL"), Some(TransferMode::Mail));
    assert_eq!(parse_mode(b"octet"), Some(TransferMode::Octet));
    assert_eq!(parse_mode(b"netascii"), Some(TransferMode::NetAscii));
    assert_eq!(parse_mode(b"oct3t"), None);
    assert_eq!(parse_mode(b"o\x43tet"), Some(TransferMode::Octet));
    assert_eq!(parse_mode(b"o[tet"), None);
    assert_eq!(parse_mode(b"o@tet"), None);
}

#[test]
fn bytes_after_a_complete_message_are_ignored() {
    assert_eq!(decode(&[0, 4, 0, 2, 9, 9]), Ok(Packet::Ack { block_id: 2 }));
    let mut request = request_bytes(1, b"f", b"octet");
    request.extend_from_slice(b"blksize\x001024\x00");
    assert_eq!(decode(&request), Ok(Packet::ReadRequest { path: b"f", mode: TransferMode::Octet }));
    assert_eq!(
        decode(&[0, 5, 0, 3, b'x', 0, b'y']),
        Ok(Packet::Error { code: 3, message: b"x" })
    );
}

#[test]
fn a_declared_kind_must_be_the_kind_found() {
    let ack = [0, 4, 0, 2];
    assert_eq!(decode_as(&ack, Kind::Ack), Ok(Packet::Ack { block_id: 2 }));
    assert_eq!(decode_as(&ack, Kind::Data), Err(DecodeError::UnknownOpcode));
    assert_eq!(decode_as(&ack, Kind::Error), Err(DecodeError::UnknownOpcode));
    assert_eq!(decode_as(&[0, 7, 0, 2], Kind::Ack), Err(DecodeError::UnknownOpcode));
    assert_eq!(decode_as(&[0, 3, 0], Kind::Data), Err(DecodeError::Truncated));
}

#[test]
fn kinds_and_opcodes() {
    assert_eq!(peek_kind(&[0, 1]), Ok(Kind::ReadRequest));
    assert_eq!(peek_kind(&[0, 2, 7]), Ok(Kind::WriteRequest));
    assert_eq!(peek_kind(&[0, 3]), Ok(Kind::Data));
    assert_eq!(peek_kind(&[0, 4]), Ok(Kind::Ack));
    assert_eq!(peek_kind(&[0, 5]), Ok(Kind::Error));
    let kinds = [Kind::ReadRequest, Kind::WriteRequest, Kind::Data, Kind::Ack, Kind::Error];
    for (index, kind) in kinds.iter().enumerate() {
        assert_eq!(kind.opcode(), index as u16 + 1);
        assert_eq!(Kind::from_opcode(kind.opcode()), Some(*kind));
    }
    assert_eq!(Kind::from_opcode(0), None);
    assert_eq!(Kind::from_opcode(6), None);
    assert_eq!(Packet::Ack { block_id: 1 }.kind(), Kind::Ack);
    assert_eq!(Packet::Data { block_id: 1, payload: &[] }.kind(), Kind::Data);
}

#[test]
fn a_path_with_a_nul_byte_does_not_come_back() {
    let packet = Packet::ReadRequest { path: b"a\0octet", mode: TransferMode::Mail };
    let bytes = encode(&packet);
    assert_eq!(decode(&bytes), Ok(Packet::ReadRequest { path: b"a", mode: TransferMode::Octet }));
}
