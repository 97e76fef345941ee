//! OpenVPN packet decoding.
//!
//! One byte of every packet packs a 5-bit opcode and a 3-bit key identifier;
//! the TCP framing prefixes a 16-bit big-endian length that counts every byte
//! after itself. The opcode selects one of three payload shapes: a control
//! body (handshake messages, with a variable-length replay-acknowledgment
//! array and a trailing application payload), an acknowledgment body (the
//! same prefix, with no trailing payload), or an opaque data body.

use vstd::prelude::*;

use vstd::slice::slice_index_get;
use vstd::slice::slice_subrange;
use vstd::slice::slice_to_vec;

use crate::wire::be_u16_at;
use crate::wire::be_u32_at;
use crate::wire::be_u32_seq_at;
use crate::wire::be_u64_at;
use crate::wire::read_be_u16;
use crate::wire::read_be_u32;
use crate::wire::read_be_u32_seq;
use crate::wire::read_be_u64;

verus! {

/// A decoding failure.
#[derive(Debug, Clone, Copy, PartialEq, Eq)]
pub enum ParseError {
    /// Fewer bytes were available than a field or a length-bounded slice
    /// requires. A streaming caller may retry with more input.
    Truncated,
    /// The TCP length field was below 2: there is no room for the opcode/key
    /// byte plus at least one body byte.
    InvalidLength,
    /// The 5-bit opcode is not one of the nine known values; carries the raw
    /// value for diagnostics.
    UnknownOpcode(u8),
}

/// The 5-bit packet opcode: nine known tags, or an unrecognized value.
#[derive(Debug, Clone, Copy, PartialEq, Eq)]
pub enum Opcode {
    /// Key-method-1 hard reset from the client.
    ControlHardResetClientV1,
    /// Key-method-1 hard reset from the server.
    ControlHardResetServerV1,
    /// Soft reset: new key negotiation within an existing session.
    ControlSoftResetV1,
    /// Control channel message.
    ControlV1,
    /// Pure acknowledgment.
    AckV1,
    /// Encrypted data, first generation.
    DataV1,
    /// Key-method-2 hard reset from the client.
    ControlHardResetClientV2,
    /// Key-method-2 hard reset from the server.
    ControlHardResetServerV2,
    /// Encrypted data, second generation.
    DataV2,
    /// Any 5-bit value outside 1..=9, kept verbatim.
    Unknown(u8),
}

/// The opcode that a raw 5-bit value classifies to.
pub open spec fn spec_classify_opcode(raw: u8) -> Opcode {
    if raw == 1 {
        Opcode::ControlHardResetClientV1
    } else if raw == 2 {
        Opcode::ControlHardResetServerV1
    } else if raw == 3 {
        Opcode::ControlSoftResetV1
    } else if raw == 4 {
        Opcode::ControlV1
    } else if raw == 5 {
        Opcode::AckV1
    } else if raw == 6 {
        Opcode::DataV1
    } else if raw == 7 {
        Opcode::ControlHardResetClientV2
    } else if raw == 8 {
        Opcode::ControlHardResetServerV2
    } else if raw == 9 {
        Opcode::DataV2
    } else {
        Opcode::Unknown(raw)
    }
}

/// The raw 5-bit value an opcode stands for.
pub open spec fn spec_opcode_raw(op: Opcode) -> u8 {
    match op {
        Opcode::ControlHardResetClientV1 => 1,
        Opcode::ControlHardResetServerV1 => 2,
        Opcode::ControlSoftResetV1 => 3,
        Opcode::ControlV1 => 4,
        Opcode::AckV1 => 5,
        Opcode::DataV1 => 6,
        Opcode::ControlHardResetClientV2 => 7,
        Opcode::ControlHardResetServerV2 => 8,
        Opcode::DataV2 => 9,
        Opcode::Unknown(raw) => raw,
    }
}

impl Opcode {
    /// Classifies a raw 5-bit opcode value. Total: every value outside 1..=9
    /// maps to `Unknown` with the value kept verbatim.
    pub fn classify(raw: u8) -> (op: Opcode)
        ensures
            op == spec_classify_opcode(raw),
            !(1 <= raw <= 9) ==> op == Opcode::Unknown(raw),
    {
        match raw {
            1 => Opcode::ControlHardResetClientV1,
            2 => Opcode::ControlHardResetServerV1,
            3 => Opcode::ControlSoftResetV1,
            4 => Opcode::ControlV1,
            5 => Opcode::AckV1,
            6 => Opcode::DataV1,
            7 => Opcode::ControlHardResetClientV2,
            8 => Opcode::ControlHardResetServerV2,
            9 => Opcode::DataV2,
            _ => Opcode::Unknown(raw),
        }
    }

    /// The raw 5-bit value this opcode stands for; `Unknown` returns the
    /// value it carries.
    pub fn raw_value(&self) -> (raw: u8)
        ensures
            raw == spec_opcode_raw(*self),
    {
        match *self {
            Opcode::ControlHardResetClientV1 => 1,
            Opcode::ControlHardResetServerV1 => 2,
            Opcode::ControlSoftResetV1 => 3,
            Opcode::ControlV1 => 4,
            Opcode::AckV1 => 5,
            Opcode::DataV1 => 6,
            Opcode::ControlHardResetClientV2 => 7,
            Opcode::ControlHardResetServerV2 => 8,
            Opcode::DataV2 => 9,
            Opcode::Unknown(raw) => raw,
        }
    }
}

/// Classification keeps the raw value recoverable: every 5-bit value round
/// trips through `spec_classify_opcode` and back.
pub proof fn lemma_classify_raw_round_trip(raw: u8)
    requires
        raw <= 31,
    ensures
        spec_opcode_raw(spec_classify_opcode(raw)) == raw,
{
}

/// OpenVPN packet header.
///
/// TCP and UDP framings differ only by the presence of the `plen` field.
#[derive(Debug, PartialEq, Eq)]
pub struct OpenVPNHdr {
    /// Packet length, TCP only: counts all bytes after the length field
    /// itself (the opcode/key byte plus the body).
    pub plen: Option<u16>,
    /// The classified 5-bit opcode (top five bits of the opcode/key byte).
    pub opcode: Opcode,
    /// The 3-bit key identifier (bottom three bits of the opcode/key byte).
    pub key: u8,
}

/// The header decoded from the two-byte length at position 0 and the
/// opcode/key byte at position 2 (TCP framing).
pub open spec fn spec_header_tcp(s: Seq<u8>) -> OpenVPNHdr
    recommends
        s.len() >= 3,
{
    OpenVPNHdr {
        plen: Some(be_u16_at(s, 0)),
        opcode: spec_classify_opcode(s[2] >> 3),
        key: s[2] & 0b111,
    }
}

/// The header decoded from the opcode/key byte at position 0 (UDP framing).
pub open spec fn spec_header_udp(s: Seq<u8>) -> OpenVPNHdr
    recommends
        s.len() >= 1,
{
    OpenVPNHdr { plen: None, opcode: spec_classify_opcode(s[0] >> 3), key: s[0] & 0b111 }
}

/// Parses the TCP packet header: a 16-bit big-endian length, then one byte
/// packing the opcode (top five bits) and the key identifier (bottom three).
/// Returns the header and the number of bytes consumed (three).
pub fn parse_openvpn_header_tcp(i: &[u8]) -> (r: Result<(OpenVPNHdr, usize), ParseError>)
    ensures
        r is Ok <==> i@.len() >= 3,
        r matches Ok((hdr, used)) ==> hdr == spec_header_tcp(i@) && used == 3,
        r is Err ==> r == Err::<(OpenVPNHdr, usize), ParseError>(ParseError::Truncated),
{
    if i.len() < 3 {
        return Err(ParseError::Truncated);
    }
    let plen = read_be_u16(i, 0);
    let opcode_and_key = *slice_index_get(i, 2);
    let opcode = Opcode::classify(opcode_and_key >> 3);
    let key = opcode_and_key & 0b111;
    Ok((OpenVPNHdr { plen: Some(plen), opcode, key }, 3))
}

/// Parses the UDP packet header: one byte packing the opcode (top five bits)
/// and the key identifier (bottom three); there is no length field. Returns
/// the header and the number of bytes consumed (one).
pub fn parse_openvpn_header_udp(i: &[u8]) -> (r: Result<(OpenVPNHdr, usize), ParseError>)
    ensures
        r is Ok <==> i@.len() >= 1,
        r matches Ok((hdr, used)) ==> hdr == spec_header_udp(i@) && used == 1,
        r is Err ==> r == Err::<(OpenVPNHdr, usize), ParseError>(ParseError::Truncated),
{
    if i.len() < 1 {
        return Err(ParseError::Truncated);
    }
    let opcode_and_key = *slice_index_get(i, 0);
    let opcode = Opcode::classify(opcode_and_key >> 3);
    let key = opcode_and_key & 0b111;
    Ok((OpenVPNHdr { plen: None, opcode, key }, 1))
}

/// The three header bytes that a TCP header's fields stand for: the length in
/// big-endian order, then the opcode and key packed back into one byte.
pub open spec fn spec_encode_header_tcp(plen: u16, opcode: Opcode, key: u8) -> Seq<u8> {
    seq![
        (plen / 0x100) as u8,
        (plen % 0x100) as u8,
        ((spec_opcode_raw(opcode) << 3) | key) as u8,
    ]
}

/// Round trip of the fixed-width header fields: re-encoding the length,
/// opcode and key that the TCP header decoder reads from a buffer reproduces
/// the buffer's first three bytes exactly.
pub proof fn lemma_tcp_header_round_trip(s: Seq<u8>)
    requires
        s.len() >= 3,
    ensures
        ({
            let hdr = spec_header_tcp(s);
            spec_encode_header_tcp(hdr.plen->Some_0, hdr.opcode, hdr.key) =~= s.subrange(0, 3)
        }),
{
    let b0 = s[0];
    let b1 = s[1];
    let b2 = s[2];
    let plen = be_u16_at(s, 0);
    assert(plen == b0 * 0x100 + b1 && plen / 0x100 == b0 && plen % 0x100 == b1)
        by (bit_vector)
        requires
            plen == (b0 * 0x100 + b1) as u16,
    ;
    assert(b2 >> 3 <= 31 && (((b2 >> 3) << 3) | (b2 & 0b111)) == b2) by (bit_vector);
    lemma_classify_raw_round_trip(b2 >> 3);
}

/// Payload of the control-channel messages (hard resets, soft reset, control).
#[derive(Debug, PartialEq, Eq)]
pub struct PControl {
    /// The sender's 64-bit session identifier.
    pub session_id: u64,
    /// The 20-byte authentication tag; opaque here, checked by a higher layer.
    pub hmac: Vec<u8>,
    /// Replay-protection sequence number.
    pub packet_id: u32,
    /// Replay-protection timestamp.
    pub net_time: u32,
    /// Number of entries of the replay-acknowledgment array.
    pub msg_ar_len: u8,
    /// Replay-acknowledgment array; absent exactly when `msg_ar_len` is 0.
    pub msg_ar: Option<Vec<u32>>,
    /// Control-channel message sequence number.
    pub msg_packet_id: u32,
    /// The peer's session identifier; absent exactly when `msg_ar_len` is 0.
    pub remote_session_id: Option<u64>,
    /// The embedded handshake bytes, opaque here: everything after the
    /// message packet id, to the end of the body.
    pub payload: Vec<u8>,
}

/// Payload of a pure acknowledgment: the control body's prefix, with no
/// message packet id and no trailing application payload.
#[derive(Debug, PartialEq, Eq)]
pub struct PAck {
    /// The sender's 64-bit session identifier.
    pub session_id: u64,
    /// The 20-byte authentication tag; opaque here, checked by a higher layer.
    pub hmac: Vec<u8>,
    /// Replay-protection sequence number.
    pub packet_id: u32,
    /// Replay-protection timestamp.
    pub net_time: u32,
    /// Number of entries of the replay-acknowledgment array.
    pub msg_ar_len: u8,
    /// Replay-acknowledgment array; absent exactly when `msg_ar_len` is 0.
    pub msg_ar: Option<Vec<u32>>,
    /// The peer's session identifier; absent exactly when `msg_ar_len` is 0.
    pub remote_session_id: Option<u64>,
}

/// Payload of the data messages: possibly encrypted, never parsed further.
#[derive(Debug, PartialEq, Eq)]
pub struct PData {
    /// The whole remaining byte span, verbatim.
    pub contents: Vec<u8>,
}

/// Payload of an OpenVPN packet; the variant is selected by the header's
/// opcode alone.
#[derive(Debug, PartialEq, Eq)]
pub enum Payload {
    /// Control-channel message body.
    Control(PControl),
    /// Pure acknowledgment body.
    Ack(PAck),
    /// Opaque data body.
    Data(PData),
}

/// Bytes the conditional replay-acknowledgment block occupies: the 32-bit
/// entries plus the 64-bit remote session id when the count is positive,
/// nothing when it is 0.
pub open spec fn spec_ack_block_len(arl: u8) -> int {
    if arl > 0 {
        4 * (arl as int) + 8
    } else {
        0
    }
}

/// Bytes an acknowledgment body occupies: the 37-byte fixed prefix (session
/// id, 20-byte tag, packet id, timestamp, count) plus the conditional block.
pub open spec fn spec_ack_body_len(arl: u8) -> int {
    37 + spec_ack_block_len(arl)
}

/// Bytes a control body occupies before its application payload: the
/// acknowledgment structure plus the 32-bit message packet id.
pub open spec fn spec_control_prefix_len(arl: u8) -> int {
    spec_ack_body_len(arl) + 4
}

/// Whether a buffer is long enough for a whole control body (the array count
/// stands at position 36).
pub open spec fn spec_control_ok(s: Seq<u8>) -> bool {
    s.len() >= 37 && s.len() >= spec_control_prefix_len(s[36])
}

/// Whether a buffer is long enough for a whole acknowledgment body.
pub open spec fn spec_ack_ok(s: Seq<u8>) -> bool {
    s.len() >= 37 && s.len() >= spec_ack_body_len(s[36])
}

/// What a control body decoded from buffer `s` holds, field by field.
pub open spec fn spec_control_matches(pc: PControl, s: Seq<u8>) -> bool
    recommends
        spec_control_ok(s),
{
    let arl = s[36];
    &&& pc.session_id == be_u64_at(s, 0)
    &&& pc.hmac@ == s.subrange(8, 28)
    &&& pc.packet_id == be_u32_at(s, 28)
    &&& pc.net_time == be_u32_at(s, 32)
    &&& pc.msg_ar_len == arl
    &&& arl == 0 ==> pc.msg_ar is None && pc.remote_session_id is None
    &&& arl > 0 ==> (pc.msg_ar matches Some(ar) && ar@ == be_u32_seq_at(s, 37, arl as int))
        && pc.remote_session_id == Some(be_u64_at(s, 37 + 4 * (arl as int)))
    &&& pc.msg_packet_id == be_u32_at(s, spec_ack_body_len(arl))
    &&& pc.payload@ == s.subrange(spec_control_prefix_len(arl), s.len() as int)
}

/// What an acknowledgment body decoded from buffer `s` holds, field by field.
pub open spec fn spec_ack_matches(pa: PAck, s: Seq<u8>) -> bool
    recommends
        spec_ack_ok(s),
{
    let arl = s[36];
    &&& pa.session_id == be_u64_at(s, 0)
    &&& pa.hmac@ == s.subrange(8, 28)
    &&& pa.packet_id == be_u32_at(s, 28)
    &&& pa.net_time == be_u32_at(s, 32)
    &&& pa.msg_ar_len == arl
    &&& arl == 0 ==> pa.msg_ar is None && pa.remote_session_id is None
    &&& arl > 0 ==> (pa.msg_ar matches Some(ar) && ar@ == be_u32_seq_at(s, 37, arl as int))
        && pa.remote_session_id == Some(be_u64_at(s, 37 + 4 * (arl as int)))
}

/// Decodes a control body: 8-byte session id, 20-byte authentication tag,
/// 4-byte packet id, 4-byte timestamp, 1-byte acknowledgment count, then —
/// only when the count is positive — that many 4-byte acknowledged packet
/// ids and an 8-byte remote session id, then a 4-byte message packet id; the
/// rest of the buffer is the application payload verbatim. All-or-nothing:
/// fails with `Truncated` at the first field that cannot be read whole.
/// Returns the body and the number of bytes consumed (the whole buffer).
pub fn parse_openvpn_msg_pcontrol(i: &[u8]) -> (r: Result<(PControl, usize), ParseError>)
    ensures
        r is Ok <==> spec_control_ok(i@),
        r matches Ok((pc, used)) ==> spec_control_matches(pc, i@) && used == i@.len(),
        r is Err ==> r == Err::<(PControl, usize), ParseError>(ParseError::Truncated),
{
    let n = i.len();
    if n < 37 {
        return Err(ParseError::Truncated);
    }
    let session_id = read_be_u64(i, 0);
    let hmac = slice_to_vec(slice_subrange(i, 8, 28));
    let packet_id = read_be_u32(i, 28);
    let net_time = read_be_u32(i, 32);
    let msg_ar_len = *slice_index_get(i, 36);
    let mut msg_ar: Option<Vec<u32>> = None;
    let mut remote_session_id: Option<u64> = None;
    let mut after_ack: usize = 37;
    if msg_ar_len > 0 {
        let need = 4 * (msg_ar_len as usize) + 8;
        if n - 37 < need {
            return Err(ParseError::Truncated);
        }
        msg_ar = Some(read_be_u32_seq(i, 37, msg_ar_len as usize));
        remote_session_id = Some(read_be_u64(i, 37 + 4 * (msg_ar_len as usize)));
        after_ack = 37 + need;
    }
    if n - after_ack < 4 {
        return Err(ParseError::Truncated);
    }
    let msg_packet_id = read_be_u32(i, after_ack);
    let payload = slice_to_vec(slice_subrange(i, after_ack + 4, n));
    let pcontrol = PControl {
        session_id,
        hmac,
        packet_id,
        net_time,
        msg_ar_len,
        msg_ar,
        msg_packet_id,
        remote_session_id,
        payload,
    };
    Ok((pcontrol, n))
}

/// Decodes an acknowledgment body: the same fields as a control body through
/// the conditional remote session id, with no message packet id and no
/// application payload. Bytes after that point are left unconsumed. Returns
/// the body and the number of bytes consumed.
pub fn parse_openvpn_msg_pack(i: &[u8]) -> (r: Result<(PAck, usize), ParseError>)
    ensures
        r is Ok <==> spec_ack_ok(i@),
        r matches Ok((pa, used)) ==> spec_ack_matches(pa, i@) && used == spec_ack_body_len(
            i@[36],
        ),
        r is Err ==> r == Err::<(PAck, usize), ParseError>(ParseError::Truncated),
{
    let n = i.len();
    if n < 37 {
        return Err(ParseError::Truncated);
    }
    let session_id = read_be_u64(i, 0);
    let hmac = slice_to_vec(slice_subrange(i, 8, 28));
    let packet_id = read_be_u32(i, 28);
    let net_time = read_be_u32(i, 32);
    let msg_ar_len = *slice_index_get(i, 36);
    let mut msg_ar: Option<Vec<u32>> = None;
    let mut remote_session_id: Option<u64> = None;
    let mut after_ack: usize = 37;
    if msg_ar_len > 0 {
        let need = 4 * (msg_ar_len as usize) + 8;
        if n - 37 < need {
            return Err(ParseError::Truncated);
        }
        msg_ar = Some(read_be_u32_seq(i, 37, msg_ar_len as usize));
        remote_session_id = Some(read_be_u64(i, 37 + 4 * (msg_ar_len as usize)));
        after_ack = 37 + need;
    }
    let pack = PAck {
        session_id,
        hmac,
        packet_id,
        net_time,
        msg_ar_len,
        msg_ar,
        remote_session_id,
    };
    Ok((pack, after_ack))
}

/// The replay-acknowledgment fields are genuinely optional, never empty
/// placeholders: in a decoded control body, a count of 0 means both the
/// array and the remote session id are absent, and a count of N > 0 means
/// the array has exactly N entries and the remote session id is present.
pub proof fn lemma_control_ack_fields_match_count(pc: PControl, s: Seq<u8>)
    requires
        spec_control_ok(s),
        spec_control_matches(pc, s),
    ensures
        pc.msg_ar_len == 0 ==> pc.msg_ar is None && pc.remote_session_id is None,
        pc.msg_ar_len > 0 ==> (pc.msg_ar matches Some(ar) && ar@.len() == pc.msg_ar_len)
            && pc.remote_session_id is Some,
{
}

/// The same optionality for a decoded acknowledgment body: a count of 0
/// means the array and the remote session id are absent, a count of N > 0
/// means exactly N entries and a present remote session id.
pub proof fn lemma_ack_fields_match_count(pa: PAck, s: Seq<u8>)
    requires
        spec_ack_ok(s),
        spec_ack_matches(pa, s),
    ensures
        pa.msg_ar_len == 0 ==> pa.msg_ar is None && pa.remote_session_id is None,
        pa.msg_ar_len > 0 ==> (pa.msg_ar matches Some(ar) && ar@.len() == pa.msg_ar_len)
            && pa.remote_session_id is Some,
{
}

/// Whether an opcode routes to the control body decoder.
pub open spec fn spec_is_control_opcode(op: Opcode) -> bool {
    ||| op == Opcode::ControlHardResetClientV1
    ||| op == Opcode::ControlHardResetServerV1
    ||| op == Opcode::ControlSoftResetV1
    ||| op == Opcode::ControlV1
    ||| op == Opcode::ControlHardResetClientV2
    ||| op == Opcode::ControlHardResetServerV2
}

/// Whether an opcode routes to the data body decoder.
pub open spec fn spec_is_data_opcode(op: Opcode) -> bool {
    op == Opcode::DataV1 || op == Opcode::DataV2
}

/// Whether the payload dispatcher succeeds on buffer `s` under opcode `op`:
/// an unrecognized opcode always fails, a data body always succeeds, control
/// and acknowledgment bodies need the buffer to be long enough.
pub open spec fn spec_payload_ok(op: Opcode, s: Seq<u8>) -> bool {
    if spec_is_control_opcode(op) {
        spec_control_ok(s)
    } else if op == Opcode::AckV1 {
        spec_ack_ok(s)
    } else {
        spec_is_data_opcode(op)
    }
}

/// The error the payload dispatcher fails with when it fails: the raw value
/// of an unrecognized opcode, otherwise a truncation.
pub open spec fn spec_payload_err(op: Opcode) -> ParseError {
    match op {
        Opcode::Unknown(raw) => ParseError::UnknownOpcode(raw),
        _ => ParseError::Truncated,
    }
}

/// What payload value the dispatcher returns on success: the body decoded
/// from `s` in the variant the opcode selects.
pub open spec fn spec_payload_matches(op: Opcode, s: Seq<u8>, p: Payload) -> bool
    recommends
        spec_payload_ok(op, s),
{
    if spec_is_control_opcode(op) {
        p matches Payload::Control(pc) && spec_control_matches(pc, s)
    } else if op == Opcode::AckV1 {
        p matches Payload::Ack(pa) && spec_ack_matches(pa, s)
    } else {
        p matches Payload::Data(pd) && pd.contents@ == s
    }
}

/// How many bytes of `s` the dispatcher consumes on success: everything for
/// control and data bodies, only the acknowledgment structure for an
/// acknowledgment.
pub open spec fn spec_payload_used(op: Opcode, s: Seq<u8>) -> int
    recommends
        spec_payload_ok(op, s),
{
    if op == Opcode::AckV1 {
        spec_ack_body_len(s[36])
    } else {
        s.len() as int
    }
}

/// Routes the post-header bytes to the body decoder the opcode selects:
/// the six control variants to the control decoder, the acknowledgment to
/// the acknowledgment decoder, the two data generations to the opaque data
/// body (which cannot fail), and an unrecognized opcode to an
/// `UnknownOpcode` failure carrying the raw 5-bit value. Returns the payload
/// and the number of bytes consumed.
pub fn parse_openvpn_msg_payload(msg_type: Opcode, i: &[u8]) -> (r: Result<
    (Payload, usize),
    ParseError,
>)
    ensures
        r is Ok <==> spec_payload_ok(msg_type, i@),
        r matches Ok((p, used)) ==> spec_payload_matches(msg_type, i@, p) && used
            == spec_payload_used(msg_type, i@),
        r is Err ==> r == Err::<(Payload, usize), ParseError>(spec_payload_err(msg_type)),
        spec_is_data_opcode(msg_type) ==> r is Ok,
{
    match msg_type {
        Opcode::ControlHardResetClientV1
        | Opcode::ControlHardResetServerV1
        | Opcode::ControlSoftResetV1
        | Opcode::ControlV1
        | Opcode::ControlHardResetClientV2
        | Opcode::ControlHardResetServerV2 => match parse_openvpn_msg_pcontrol(i) {
            Ok((pc, used)) => Ok((Payload::Control(pc), used)),
            Err(e) => Err(e),
        },
        Opcode::AckV1 => match parse_openvpn_msg_pack(i) {
            Ok((pa, used)) => Ok((Payload::Ack(pa), used)),
            Err(e) => Err(e),
        },
        Opcode::DataV1 | Opcode::DataV2 => {
            let contents = slice_to_vec(i);
            Ok((Payload::Data(PData { contents }), i.len()))
        },
        Opcode::Unknown(raw) => Err(ParseError::UnknownOpcode(raw)),
    }
}

/// A decoded OpenVPN packet: the framing header and the payload its opcode
/// selected.
#[derive(Debug, PartialEq, Eq)]
pub struct OpenVPNPacket {
    /// The framing header.
    pub hdr: OpenVPNHdr,
    /// The decoded payload.
    pub msg: Payload,
}

/// The body slice of a TCP packet: the bytes after the 3-byte header, bounded
/// by the length field (which counts the opcode/key byte plus the body).
pub open spec fn spec_tcp_body(s: Seq<u8>) -> Seq<u8>
    recommends
        s.len() >= 3,
        2 + be_u16_at(s, 0) <= s.len(),
{
    s.subrange(3, 2 + be_u16_at(s, 0))
}

/// Whether a whole TCP packet decodes from `s`: the header is readable, the
/// length field is at least 2, the length-bounded body is fully present, and
/// the payload dispatcher succeeds within it.
pub open spec fn spec_tcp_ok(s: Seq<u8>) -> bool {
    &&& s.len() >= 3
    &&& be_u16_at(s, 0) >= 2
    &&& s.len() >= 2 + be_u16_at(s, 0)
    &&& spec_payload_ok(spec_header_tcp(s).opcode, spec_tcp_body(s))
}

/// The error TCP decoding fails with when it fails, in the order the checks
/// are made: truncation of the header, an invalid length field, truncation of
/// the length-bounded body, then whatever the payload dispatcher fails with.
pub open spec fn spec_tcp_err(s: Seq<u8>) -> ParseError {
    if s.len() < 3 {
        ParseError::Truncated
    } else if be_u16_at(s, 0) < 2 {
        ParseError::InvalidLength
    } else if s.len() < 2 + be_u16_at(s, 0) {
        ParseError::Truncated
    } else {
        spec_payload_err(spec_header_tcp(s).opcode)
    }
}

/// Decodes one OpenVPN packet from a TCP stream buffer. The 16-bit length
/// field bounds the packet: the payload is decoded strictly within that
/// slice, and every byte beyond it is returned unconsumed, as the start of a
/// subsequent packet. A length below 2 fails with `InvalidLength` before any
/// payload parsing; missing bytes fail with `Truncated`, so a streaming
/// caller may retry with more input.
pub fn parse_openvpn_tcp(i: &[u8]) -> (r: Result<(OpenVPNPacket, Vec<u8>), ParseError>)
    ensures
        r is Ok <==> spec_tcp_ok(i@),
        r matches Ok((pkt, rem)) ==> {
            &&& pkt.hdr == spec_header_tcp(i@)
            &&& spec_payload_matches(spec_header_tcp(i@).opcode, spec_tcp_body(i@), pkt.msg)
            &&& rem@ == i@.subrange(2 + be_u16_at(i@, 0), i@.len() as int)
        },
        r matches Err(e) ==> e == spec_tcp_err(i@),
{
    let hdr = match parse_openvpn_header_tcp(i) {
        Ok((hdr, _used)) => hdr,
        Err(e) => {
            return Err(e);
        },
    };
    let plen: u16 = match hdr.plen {
        Some(plen) if plen >= 2 => plen,
        _ => {
            return Err(ParseError::InvalidLength);
        },
    };
    let n = i.len();
    let body_len = (plen - 1) as usize;
    if n - 3 < body_len {
        return Err(ParseError::Truncated);
    }
    let body = slice_subrange(i, 3, 3 + body_len);
    let msg = match parse_openvpn_msg_payload(hdr.opcode, body) {
        Ok((msg, _used)) => msg,
        Err(e) => {
            return Err(e);
        },
    };
    let rem = slice_to_vec(slice_subrange(i, 3 + body_len, n));
    Ok((OpenVPNPacket { hdr, msg }, rem))
}

/// The body slice of a UDP packet: everything after the opcode/key byte.
pub open spec fn spec_udp_body(s: Seq<u8>) -> Seq<u8>
    recommends
        s.len() >= 1,
{
    s.subrange(1, s.len() as int)
}

/// Whether a whole UDP packet decodes from `s`: the opcode/key byte is
/// present and the payload dispatcher succeeds on the rest of the datagram.
pub open spec fn spec_udp_ok(s: Seq<u8>) -> bool {
    s.len() >= 1 && spec_payload_ok(spec_header_udp(s).opcode, spec_udp_body(s))
}

/// The error UDP decoding fails with when it fails: truncation on an empty
/// buffer, then whatever the payload dispatcher fails with.
pub open spec fn spec_udp_err(s: Seq<u8>) -> ParseError {
    if s.len() < 1 {
        ParseError::Truncated
    } else {
        spec_payload_err(spec_header_udp(s).opcode)
    }
}

/// Decodes one OpenVPN packet from a UDP datagram. There is no length field:
/// the payload dispatcher runs against the entire remainder, so the caller
/// must hand in exactly one datagram. Control and data payloads consume the
/// whole buffer, so the returned remainder is empty; an acknowledgment stops
/// after its last defined field and the bytes after it come back unconsumed.
pub fn parse_openvpn_udp(i: &[u8]) -> (r: Result<(OpenVPNPacket, Vec<u8>), ParseError>)
    ensures
        r is Ok <==> spec_udp_ok(i@),
        r matches Ok((pkt, rem)) ==> {
            let body = spec_udp_body(i@);
            let op = spec_header_udp(i@).opcode;
            &&& pkt.hdr == spec_header_udp(i@)
            &&& spec_payload_matches(op, body, pkt.msg)
            &&& rem@ == body.subrange(spec_payload_used(op, body), body.len() as int)
            &&& op != Opcode::AckV1 ==> rem@ == Seq::<u8>::empty()
        },
        r matches Err(e) ==> e == spec_udp_err(i@),
{
    let hdr = match parse_openvpn_header_udp(i) {
        Ok((hdr, _used)) => hdr,
        Err(e) => {
            return Err(e);
        },
    };
    let n = i.len();
    let body = slice_subrange(i, 1, n);
    let (msg, used) = match parse_openvpn_msg_payload(hdr.opcode, body) {
        Ok(v) => v,
        Err(e) => {
            return Err(e);
        },
    };
    let rem = slice_to_vec(slice_subrange(body, used, body.len()));
    proof {
        if hdr.opcode != Opcode::AckV1 {
            assert(rem@ =~= Seq::<u8>::empty());
        }
    }
    Ok((OpenVPNPacket { hdr, msg }, rem))
}

} // verus!
