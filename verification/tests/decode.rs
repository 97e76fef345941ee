use openvpn_parser::Opcode;
use openvpn_parser::ParseError;
use openvpn_parser::Payload;
use openvpn_parser::parse_openvpn_header_tcp;
use openvpn_parser::parse_openvpn_header_udp;
use openvpn_parser::parse_openvpn_msg_pack;
use openvpn_parser::parse_openvpn_msg_pcontrol;
use openvpn_parser::parse_openvpn_msg_payload;
use openvpn_parser::parse_openvpn_tcp;
use openvpn_parser::parse_openvpn_udp;

const SESSION_ID: u64 = 0x1122334455667788;
const REMOTE_SESSION_ID: u64 = 0x99AABBCCDDEEFF00;
const PACKET_ID: u32 = 0x01020304;
const NET_TIME: u32 = 0x05060708;
const MSG_PACKET_ID: u32 = 0x0A0B0C0D;

/// Builds a control body: session id, 20-byte tag, packet id, timestamp,
/// ack count, conditional ack array and remote session id, message packet
/// id, then the application payload.
fn control_body(ack_ids: &[u32], payload: &[u8]) -> Vec<u8> {
    let mut b = ack_prefix(ack_ids);
    b.extend_from_slice(&MSG_PACKET_ID.to_be_bytes());
    b.extend_from_slice(payload);
    b
}

/// Builds an acknowledgment body: the control body's prefix through the
/// conditional remote session id.
fn ack_prefix(ack_ids: &[u32]) -> Vec<u8> {
    let mut b = Vec::new();
    b.extend_from_slice(&SESSION_ID.to_be_bytes());
    b.extend_from_slice(&[0xAA; 20]);
    b.extend_from_slice(&PACKET_ID.to_be_bytes());
    b.extend_from_slice(&NET_TIME.to_be_bytes());
    b.push(ack_ids.len() as u8);
    if !ack_ids.is_empty() {
        for id in ack_ids {
            b.extend_from_slice(&id.to_be_bytes());
        }
        b.extend_from_slice(&REMOTE_SESSION_ID.to_be_bytes());
    }
    b
}

#[test]
fn udp_control_without_acks() {
    // Opcode 4 (control-v1) shifted into the top five bits, key 0.
    let mut input = vec![0x20u8];
    input.extend_from_slice(&control_body(&[], &[]));
    let (pkt, rem) = parse_openvpn_udp(&input).unwrap();
    assert_eq!(pkt.hdr.plen, None);
    assert_eq!(pkt.hdr.opcode, Opcode::ControlV1);
    assert_eq!(pkt.hdr.key, 0);
    match pkt.msg {
        Payload::Control(pc) => {
            assert_eq!(pc.session_id, SESSION_ID);
            assert_eq!(pc.hmac, vec![0xAA; 20]);
            assert_eq!(pc.packet_id, PACKET_ID);
            assert_eq!(pc.net_time, NET_TIME);
            assert_eq!(pc.msg_ar_len, 0);
            assert_eq!(pc.msg_ar, None);
            assert_eq!(pc.remote_session_id, None);
            assert_eq!(pc.msg_packet_id, MSG_PACKET_ID);
            assert_eq!(pc.payload, Vec::<u8>::new());
        }
        other => panic!("expected a control payload, got {:?}", other),
    }
    assert_eq!(rem, Vec::<u8>::new());
}

#[test]
fn udp_control_with_acks_and_payload() {
    // Opcode 7 (hard reset client, key method 2), key 2.
    let mut input = vec![(7u8 << 3) | 2];
    input.extend_from_slice(&control_body(&[0xDEADBEEF, 0x00C0FFEE], &[0x16, 0x03, 0x01]));
    let (pkt, rem) = parse_openvpn_udp(&input).unwrap();
    assert_eq!(pkt.hdr.opcode, Opcode::ControlHardResetClientV2);
    assert_eq!(pkt.hdr.key, 2);
    match pkt.msg {
        Payload::Control(pc) => {
            assert_eq!(pc.msg_ar_len, 2);
            assert_eq!(pc.msg_ar, Some(vec![0xDEADBEEF, 0x00C0FFEE]));
            assert_eq!(pc.remote_session_id, Some(REMOTE_SESSION_ID));
            assert_eq!(pc.msg_packet_id, MSG_PACKET_ID);
            assert_eq!(pc.payload, vec![0x16, 0x03, 0x01]);
        }
        other => panic!("expected a control payload, got {:?}", other),
    }
    assert_eq!(rem, Vec::<u8>::new());
}

#[test]
fn udp_ack_leaves_trailing_bytes() {
    // Opcode 5 (ack-v1), key 0; two bytes follow the ack structure.
    let mut input = vec![0x28u8];
    input.extend_from_slice(&ack_prefix(&[0x01020304]));
    input.extend_from_slice(&[0xFF, 0xEE]);
    let (pkt, rem) = parse_openvpn_udp(&input).unwrap();
    assert_eq!(pkt.hdr.opcode, Opcode::AckV1);
    match pkt.msg {
        Payload::Ack(pa) => {
            assert_eq!(pa.session_id, SESSION_ID);
            assert_eq!(pa.msg_ar_len, 1);
            assert_eq!(pa.msg_ar, Some(vec![0x01020304]));
            assert_eq!(pa.remote_session_id, Some(REMOTE_SESSION_ID));
        }
        other => panic!("expected an ack payload, got {:?}", other),
    }
    assert_eq!(rem, vec![0xFF, 0xEE]);
}

#[test]
fn udp_ack_without_acks() {
    let mut input = vec![0x28u8];
    input.extend_from_slice(&ack_prefix(&[]));
    let (pkt, rem) = parse_openvpn_udp(&input).unwrap();
    match pkt.msg {
        Payload::Ack(pa) => {
            assert_eq!(pa.msg_ar_len, 0);
            assert_eq!(pa.msg_ar, None);
            assert_eq!(pa.remote_session_id, None);
        }
        other => panic!("expected an ack payload, got {:?}", other),
    }
    assert_eq!(rem, Vec::<u8>::new());
}

#[test]
fn udp_data_v1_takes_trailing_bytes_verbatim() {
    // Opcode 6 (data-v1) gives the byte 0x30; any trailing bytes become the
    // opaque contents.
    let input = vec![0x30u8, 0x01, 0x02, 0x03, 0xFF];
    let (pkt, rem) = parse_openvpn_udp(&input).unwrap();
    assert_eq!(pkt.hdr.opcode, Opcode::DataV1);
    match pkt.msg {
        Payload::Data(pd) => assert_eq!(pd.contents, vec![0x01, 0x02, 0x03, 0xFF]),
        other => panic!("expected a data payload, got {:?}", other),
    }
    assert_eq!(rem, Vec::<u8>::new());
}

#[test]
fn udp_data_v2_empty_contents() {
    // Opcode 9 (data-v2), key 1; a zero-length remainder is a valid data body.
    let input = vec![(9u8 << 3) | 1];
    let (pkt, _) = parse_openvpn_udp(&input).unwrap();
    assert_eq!(pkt.hdr.opcode, Opcode::DataV2);
    assert_eq!(pkt.hdr.key, 1);
    match pkt.msg {
        Payload::Data(pd) => assert_eq!(pd.contents, Vec::<u8>::new()),
        other => panic!("expected a data payload, got {:?}", other),
    }
}

#[test]
fn udp_unknown_opcode_keeps_raw_value() {
    // Opcode 0 is not assigned.
    assert_eq!(parse_openvpn_udp(&[0x00]), Err(ParseError::UnknownOpcode(0)));
    // 0x57 >> 3 == 10, the first unassigned value above the known range.
    assert_eq!(parse_openvpn_udp(&[0x57, 0x01]), Err(ParseError::UnknownOpcode(10)));
    // The largest 5-bit value.
    assert_eq!(parse_openvpn_udp(&[0xF8]), Err(ParseError::UnknownOpcode(31)));
}

#[test]
fn udp_empty_input_is_truncated() {
    assert_eq!(parse_openvpn_udp(&[]), Err(ParseError::Truncated));
}

#[test]
fn tcp_header_fields() {
    let (hdr, used) = parse_openvpn_header_tcp(&[0x12, 0x34, 0x21]).unwrap();
    assert_eq!(hdr.plen, Some(0x1234));
    assert_eq!(hdr.opcode, Opcode::ControlV1);
    assert_eq!(hdr.key, 1);
    assert_eq!(used, 3);
}

#[test]
fn tcp_header_truncated() {
    assert_eq!(parse_openvpn_header_tcp(&[]), Err(ParseError::Truncated));
    assert_eq!(parse_openvpn_header_tcp(&[0x00]), Err(ParseError::Truncated));
    assert_eq!(parse_openvpn_header_tcp(&[0x00, 0x10]), Err(ParseError::Truncated));
}

#[test]
fn udp_header_fields() {
    let (hdr, used) = parse_openvpn_header_udp(&[0x2A, 0xFF]).unwrap();
    assert_eq!(hdr.plen, None);
    assert_eq!(hdr.opcode, Opcode::AckV1);
    assert_eq!(hdr.key, 2);
    assert_eq!(used, 1);
    assert_eq!(parse_openvpn_header_udp(&[]), Err(ParseError::Truncated));
}

#[test]
fn tcp_length_below_two_is_invalid() {
    // The length counts the opcode/key byte plus the body, so 0 and 1 leave
    // no room for a packet.
    assert_eq!(parse_openvpn_tcp(&[0x00, 0x00, 0x20, 0x00]), Err(ParseError::InvalidLength));
    assert_eq!(parse_openvpn_tcp(&[0x00, 0x01, 0x20, 0x00]), Err(ParseError::InvalidLength));
}

#[test]
fn tcp_short_control_body_is_truncated() {
    // length = 3, opcode 4 (control-v1), key 0: the body slice would be 2
    // bytes, far less than a control body needs — and only 1 byte follows.
    assert_eq!(parse_openvpn_tcp(&[0x00, 0x03, 0x20, 0x00]), Err(ParseError::Truncated));
}

#[test]
fn tcp_body_shorter_than_length_is_truncated() {
    // length = 10 promises 9 body bytes; only 3 are present.
    assert_eq!(
        parse_openvpn_tcp(&[0x00, 0x0A, 0x30, 0x01, 0x02, 0x03]),
        Err(ParseError::Truncated)
    );
}

#[test]
fn tcp_data_packet_and_remainder() {
    // length = 4: the opcode/key byte plus three data bytes; two more bytes
    // follow and belong to the next packet.
    let input = vec![0x00, 0x04, 0x30, 0x01, 0x02, 0x03, 0xDE, 0xAD];
    let (pkt, rem) = parse_openvpn_tcp(&input).unwrap();
    assert_eq!(pkt.hdr.plen, Some(4));
    assert_eq!(pkt.hdr.opcode, Opcode::DataV1);
    match pkt.msg {
        Payload::Data(pd) => assert_eq!(pd.contents, vec![0x01, 0x02, 0x03]),
        other => panic!("expected a data payload, got {:?}", other),
    }
    assert_eq!(rem, vec![0xDE, 0xAD]);
}

#[test]
fn tcp_control_packet_full() {
    let body = control_body(&[7], &[0x55, 0x66]);
    let plen = (body.len() + 1) as u16;
    let mut input = plen.to_be_bytes().to_vec();
    input.push((4u8 << 3) | 5);
    input.extend_from_slice(&body);
    let (pkt, rem) = parse_openvpn_tcp(&input).unwrap();
    assert_eq!(pkt.hdr.plen, Some(plen));
    assert_eq!(pkt.hdr.opcode, Opcode::ControlV1);
    assert_eq!(pkt.hdr.key, 5);
    match pkt.msg {
        Payload::Control(pc) => {
            assert_eq!(pc.msg_ar_len, 1);
            assert_eq!(pc.msg_ar, Some(vec![7]));
            assert_eq!(pc.remote_session_id, Some(REMOTE_SESSION_ID));
            assert_eq!(pc.payload, vec![0x55, 0x66]);
        }
        other => panic!("expected a control payload, got {:?}", other),
    }
    assert_eq!(rem, Vec::<u8>::new());
}

#[test]
fn tcp_header_bytes_round_trip() {
    // Re-encoding the decoded length, opcode and key reproduces the three
    // header bytes exactly.
    let inputs: [[u8; 3]; 4] = [[0x12, 0x34, 0x21], [0x00, 0x02, 0x30], [0xFF, 0xFF, 0xFF], [
        0x00, 0x00, 0x00,
    ]];
    for bytes in inputs.iter() {
        let (hdr, _) = parse_openvpn_header_tcp(bytes).unwrap();
        let plen = hdr.plen.unwrap();
        let reencoded = [
            (plen >> 8) as u8,
            (plen & 0xFF) as u8,
            (hdr.opcode.raw_value() << 3) | hdr.key,
        ];
        assert_eq!(&reencoded, bytes);
    }
}

#[test]
fn opcode_classification_is_total() {
    assert_eq!(Opcode::classify(1), Opcode::ControlHardResetClientV1);
    assert_eq!(Opcode::classify(2), Opcode::ControlHardResetServerV1);
    assert_eq!(Opcode::classify(3), Opcode::ControlSoftResetV1);
    assert_eq!(Opcode::classify(4), Opcode::ControlV1);
    assert_eq!(Opcode::classify(5), Opcode::AckV1);
    assert_eq!(Opcode::classify(6), Opcode::DataV1);
    assert_eq!(Opcode::classify(7), Opcode::ControlHardResetClientV2);
    assert_eq!(Opcode::classify(8), Opcode::ControlHardResetServerV2);
    assert_eq!(Opcode::classify(9), Opcode::DataV2);
    assert_eq!(Opcode::classify(0), Opcode::Unknown(0));
    for raw in 10..=31u8 {
        assert_eq!(Opcode::classify(raw), Opcode::Unknown(raw));
        assert_eq!(Opcode::classify(raw).raw_value(), raw);
    }
    for raw in 0..=31u8 {
        assert_eq!(Opcode::classify(raw).raw_value(), raw);
    }
}

#[test]
fn pcontrol_truncated_at_every_field_boundary() {
    // With an empty application payload every strict prefix of a control
    // body misses some fixed-width field and must fail with Truncated.
    for body in [control_body(&[], &[]), control_body(&[1, 2, 3], &[])] {
        for cut in 0..body.len() {
            assert_eq!(
                parse_openvpn_msg_pcontrol(&body[..cut]),
                Err(ParseError::Truncated),
                "prefix of {} bytes",
                cut
            );
        }
        let (pc, used) = parse_openvpn_msg_pcontrol(&body).unwrap();
        assert_eq!(used, body.len());
        assert_eq!(pc.payload, Vec::<u8>::new());
    }
}

#[test]
fn pack_truncated_at_every_field_boundary() {
    for body in [ack_prefix(&[]), ack_prefix(&[1, 2, 3])] {
        for cut in 0..body.len() {
            assert_eq!(
                parse_openvpn_msg_pack(&body[..cut]),
                Err(ParseError::Truncated),
                "prefix of {} bytes",
                cut
            );
        }
        let (pa, used) = parse_openvpn_msg_pack(&body).unwrap();
        assert_eq!(used, body.len());
        assert_eq!(pa.session_id, SESSION_ID);
    }
}

#[test]
fn pack_consumes_only_the_ack_structure() {
    let mut body = ack_prefix(&[5]);
    let ack_len = body.len();
    body.extend_from_slice(&[0x01, 0x02, 0x03]);
    let (pa, used) = parse_openvpn_msg_pack(&body).unwrap();
    assert_eq!(used, ack_len);
    assert_eq!(pa.msg_ar, Some(vec![5]));
}

#[test]
fn msg_payload_dispatch() {
    // An unrecognized opcode fails with its raw value, whatever the input.
    assert_eq!(
        parse_openvpn_msg_payload(Opcode::Unknown(12), &[0x01]),
        Err(ParseError::UnknownOpcode(12))
    );
    // A data body never fails, even on a zero-length remainder.
    let (p, used) = parse_openvpn_msg_payload(Opcode::DataV1, &[]).unwrap();
    assert_eq!(used, 0);
    match p {
        Payload::Data(pd) => assert_eq!(pd.contents, Vec::<u8>::new()),
        other => panic!("expected a data payload, got {:?}", other),
    }
    // Control opcodes route to the control decoder.
    let body = control_body(&[], &[0x01]);
    let (p, used) = parse_openvpn_msg_payload(Opcode::ControlSoftResetV1, &body).unwrap();
    assert_eq!(used, body.len());
    assert!(matches!(p, Payload::Control(_)));
    // The acknowledgment opcode routes to the ack decoder.
    let body = ack_prefix(&[9]);
    let (p, used) = parse_openvpn_msg_payload(Opcode::AckV1, &body).unwrap();
    assert_eq!(used, body.len());
    assert!(matches!(p, Payload::Ack(_)));
}

#[test]
fn control_with_largest_ack_count() {
    // 255 acknowledged packet ids: the largest the one-byte count can hold.
    let ids: Vec<u32> = (0..255u32).collect();
    let body = control_body(&ids, &[0x42]);
    let (pc, used) = parse_openvpn_msg_pcontrol(&body).unwrap();
    assert_eq!(used, body.len());
    assert_eq!(pc.msg_ar_len, 255);
    assert_eq!(pc.msg_ar, Some(ids));
    assert_eq!(pc.remote_session_id, Some(REMOTE_SESSION_ID));
    assert_eq!(pc.payload, vec![0x42]);
}
