//! Decoder for the OpenVPN wire protocol.
//!
//! Given a byte buffer captured from a TCP stream or a UDP datagram, the
//! decoder produces a typed packet value (header plus payload) or a precise
//! parse failure. It is a read-only dissector: it performs no decryption, no
//! validation of the authentication tag, and no session tracking.

pub mod wire;
pub mod openvpn;

pub use openvpn::Opcode;
pub use openvpn::OpenVPNHdr;
pub use openvpn::OpenVPNPacket;
pub use openvpn::PAck;
pub use openvpn::PControl;
pub use openvpn::PData;
pub use openvpn::ParseError;
pub use openvpn::Payload;
pub use openvpn::parse_openvpn_header_tcp;
pub use openvpn::parse_openvpn_header_udp;
pub use openvpn::parse_openvpn_msg_pack;
pub use openvpn::parse_openvpn_msg_pcontrol;
pub use openvpn::parse_openvpn_msg_payload;
pub use openvpn::parse_openvpn_tcp;
pub use openvpn::parse_openvpn_udp;
