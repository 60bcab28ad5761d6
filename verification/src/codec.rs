//! The message-level codec: the tagged union over the four protocol
//! families, the numeric type registry, the 4-byte envelope, and the
//! decoders in their intended order.
//!
//! Decoding tries the self-describing peer-to-peer form first and falls back
//! to the enveloped form. Any byte sequence that happens to parse as a valid
//! self-describing pair therefore never reaches envelope decoding: an
//! ordering-dependent ambiguity that is kept here deliberately rather than
//! resolved.

use vstd::prelude::*;

use crate::auth::parse_cipher_crypt_resp;
use crate::auth::parse_session_error;
use crate::auth::parse_session_hs;
use crate::auth::spec_encode_cipher_crypt;
use crate::auth::spec_encode_session_close;
use crate::auth::spec_encode_session_hs;
use crate::auth::spec_encode_session_hs1_response;
use crate::auth::spec_encode_session_start;
use crate::auth::Auth;
use crate::auth::AuthCipherCryptResp;
use crate::auth::AuthSessionError;
use crate::auth::AuthSessionHS;
use crate::auth::AuthV;
use crate::errors::NodeError;
use crate::msgpack::msgpack_decode_pair;
use crate::msgpack::msgpack_encode_pair;
use crate::msgpack::msgpack_pair;
use crate::msgpack::msgpack_pair_parse;
use crate::onion::parse_cover;
use crate::onion::parse_tunnel_build;
use crate::onion::parse_tunnel_id;
use crate::onion::parse_tunnel_payload;
use crate::onion::spec_encode_onion_error;
use crate::onion::spec_encode_tunnel_build;
use crate::onion::spec_encode_tunnel_id;
use crate::onion::spec_encode_tunnel_payload;
use crate::onion::Onion;
use crate::onion::OnionCover;
use crate::onion::OnionTunnelBuild;
use crate::onion::OnionTunnelID;
use crate::onion::OnionTunnelPayload;
use crate::onion::OnionV;
use crate::p2p::p2p_for_tag;
use crate::p2p::p2p_of_tag;
use crate::p2p::p2p_tag;
use crate::p2p::tag_of_p2p;
use crate::p2p::P2PMessage;
use crate::p2p::P2PMessageV;
use crate::rps::parse_rps_peer;
use crate::rps::spec_encode_rps_peer;
use crate::rps::Rps;
use crate::rps::RpsPeer;
use crate::rps::RpsV;
use crate::wire::be16;
use crate::wire::lemma_be16_value;
use crate::wire::put_bytes;
use crate::wire::put_u16;
use crate::wire::read_u16;
use crate::wire::sub_to_vec;
use crate::wire::u16_at;

verus! {

/// One protocol message; exactly one family's variant is active.
pub enum Message {
    Onion(Onion),
    Auth(Auth),
    Rps(Rps),
    P2P(P2PMessage),
}

/// Mathematical value of a [`Message`].
#[verifier::ext_equal]
pub enum MessageV {
    Onion(OnionV),
    Auth(AuthV),
    Rps(RpsV),
    P2P(P2PMessageV),
}

impl View for Message {
    type V = MessageV;

    open spec fn view(&self) -> MessageV {
        match self {
            Message::Onion(m) => MessageV::Onion(m@),
            Message::Auth(m) => MessageV::Auth(m@),
            Message::Rps(m) => MessageV::Rps(m@),
            Message::P2P(m) => MessageV::P2P(m@),
        }
    }
}

pub const RPS_QUERY_ID: u16 = 540;

pub const RPS_PEER_ID: u16 = 541;

pub const ONION_TUNNEL_BUILD_ID: u16 = 560;

pub const ONION_TUNNEL_READY_ID: u16 = 561;

pub const ONION_TUNNEL_INCOMMING_ID: u16 = 562;

pub const ONION_TUNNEL_DESTROY_ID: u16 = 563;

pub const ONION_TUNNEL_DATA_ID: u16 = 564;

pub const ONION_ERROR_ID: u16 = 565;

pub const ONION_COVER_ID: u16 = 566;

pub const AUTH_SESSION_START_ID: u16 = 600;

pub const AUTH_SESSION_HS1_ID: u16 = 601;

pub const AUTH_SESSION_INCOMMING_HS1_ID: u16 = 602;

pub const AUTH_SESSION_HS2_ID: u16 = 603;

pub const AUTH_SESSION_INCOMMING_HS2_ID: u16 = 604;

pub const AUTH_SESSION_CLOSE_ID: u16 = 609;

pub const AUTH_SESSION_ERROR_ID: u16 = 610;

pub const AUTH_CIPHER_ENCRYPT_ID: u16 = 611;

pub const AUTH_CIPHER_ENCRYPT_RESP_ID: u16 = 612;

pub const AUTH_CIPHER_DECRYPT_ID: u16 = 613;

pub const AUTH_CIPHER_DECRYPT_RESP_ID: u16 = 614;

/// Whether the node ever writes this variant to the wire. The four
/// inbound-only variants have no outbound representation; asking to encode
/// one is a logic error, not a runtime failure.
pub open spec fn spec_encodable(m: MessageV) -> bool {
    match m {
        MessageV::Onion(OnionV::Cover(_)) => false,
        MessageV::Auth(AuthV::CipherEncryptResp(_)) => false,
        MessageV::Auth(AuthV::CipherDecryptResp(_)) => false,
        MessageV::Auth(AuthV::SessionError(_)) => false,
        _ => true,
    }
}

/// Whether the decoders can yield this variant at all.
pub open spec fn spec_decodable(m: MessageV) -> bool {
    match m {
        MessageV::Onion(OnionV::TunnelBuild(_)) => true,
        MessageV::Onion(OnionV::TunnelReady(_)) => true,
        MessageV::Onion(OnionV::TunnelIncomming(_)) => true,
        MessageV::Onion(OnionV::TunnelDestroy(_)) => true,
        MessageV::Onion(OnionV::TunnelData(_)) => true,
        MessageV::Onion(OnionV::Cover(_)) => true,
        MessageV::Auth(AuthV::SessionHS1(_)) => true,
        MessageV::Auth(AuthV::SessionHS2(_)) => true,
        MessageV::Auth(AuthV::SessionIncommingHS2(_)) => true,
        MessageV::Auth(AuthV::CipherEncryptResp(_)) => true,
        MessageV::Auth(AuthV::CipherDecryptResp(_)) => true,
        MessageV::Auth(AuthV::SessionError(_)) => true,
        MessageV::Rps(RpsV::Peer(_)) => true,
        MessageV::P2P(_) => true,
        _ => false,
    }
}

/// The registry id under which an enveloped message travels. The
/// self-describing peer-to-peer family has no registry id; its arm here is
/// never used.
pub open spec fn spec_msg_id(m: MessageV) -> u16 {
    match m {
        MessageV::Onion(OnionV::TunnelBuild(_)) => ONION_TUNNEL_BUILD_ID,
        MessageV::Onion(OnionV::TunnelReady(_)) => ONION_TUNNEL_READY_ID,
        MessageV::Onion(OnionV::TunnelIncomming(_)) => ONION_TUNNEL_INCOMMING_ID,
        MessageV::Onion(OnionV::TunnelDestroy(_)) => ONION_TUNNEL_DESTROY_ID,
        MessageV::Onion(OnionV::TunnelData(_)) => ONION_TUNNEL_DATA_ID,
        MessageV::Onion(OnionV::Cover(_)) => ONION_COVER_ID,
        MessageV::Onion(OnionV::Error(_)) => ONION_ERROR_ID,
        MessageV::Auth(AuthV::SessionStart(_)) => AUTH_SESSION_START_ID,
        MessageV::Auth(AuthV::SessionHS1(_)) => AUTH_SESSION_HS1_ID,
        MessageV::Auth(AuthV::SessionIncommingHS1(_)) => AUTH_SESSION_INCOMMING_HS1_ID,
        MessageV::Auth(AuthV::SessionHS2(_)) => AUTH_SESSION_HS2_ID,
        MessageV::Auth(AuthV::SessionIncommingHS2(_)) => AUTH_SESSION_INCOMMING_HS2_ID,
        MessageV::Auth(AuthV::CipherEncrypt(_)) => AUTH_CIPHER_ENCRYPT_ID,
        MessageV::Auth(AuthV::CipherEncryptResp(_)) => AUTH_CIPHER_ENCRYPT_RESP_ID,
        MessageV::Auth(AuthV::CipherDecrypt(_)) => AUTH_CIPHER_DECRYPT_ID,
        MessageV::Auth(AuthV::CipherDecryptResp(_)) => AUTH_CIPHER_DECRYPT_RESP_ID,
        MessageV::Auth(AuthV::SessionClose(_)) => AUTH_SESSION_CLOSE_ID,
        MessageV::Auth(AuthV::SessionError(_)) => AUTH_SESSION_ERROR_ID,
        MessageV::Rps(RpsV::Query(_)) => RPS_QUERY_ID,
        MessageV::Rps(RpsV::Peer(_)) => RPS_PEER_ID,
        MessageV::P2P(_) => 0,
    }
}

/// The payload that the envelope of an enveloped message carries. The
/// peer-to-peer family is not enveloped; its arm here is never used.
pub open spec fn spec_payload(m: MessageV) -> Seq<u8> {
    match m {
        MessageV::Onion(OnionV::TunnelBuild(x)) => spec_encode_tunnel_build(x),
        MessageV::Onion(OnionV::TunnelReady(x)) => spec_encode_tunnel_payload(x),
        MessageV::Onion(OnionV::TunnelIncomming(x)) => spec_encode_tunnel_id(x),
        MessageV::Onion(OnionV::TunnelDestroy(x)) => spec_encode_tunnel_id(x),
        MessageV::Onion(OnionV::TunnelData(x)) => spec_encode_tunnel_payload(x),
        MessageV::Onion(OnionV::Cover(_)) => Seq::empty(),
        MessageV::Onion(OnionV::Error(x)) => spec_encode_onion_error(x),
        MessageV::Auth(AuthV::SessionStart(x)) => spec_encode_session_start(x),
        MessageV::Auth(AuthV::SessionHS1(x)) => spec_encode_session_hs(x),
        MessageV::Auth(AuthV::SessionIncommingHS1(x)) => spec_encode_session_hs1_response(x),
        MessageV::Auth(AuthV::SessionHS2(x)) => spec_encode_session_hs(x),
        MessageV::Auth(AuthV::SessionIncommingHS2(x)) => spec_encode_session_hs(x),
        MessageV::Auth(AuthV::CipherEncrypt(x)) => spec_encode_cipher_crypt(x),
        MessageV::Auth(AuthV::CipherEncryptResp(_)) => Seq::empty(),
        MessageV::Auth(AuthV::CipherDecrypt(x)) => spec_encode_cipher_crypt(x),
        MessageV::Auth(AuthV::CipherDecryptResp(_)) => Seq::empty(),
        MessageV::Auth(AuthV::SessionClose(x)) => spec_encode_session_close(x),
        MessageV::Auth(AuthV::SessionError(_)) => Seq::empty(),
        MessageV::Rps(RpsV::Query(_)) => Seq::empty(),
        MessageV::Rps(RpsV::Peer(x)) => spec_encode_rps_peer(x),
        MessageV::P2P(_) => Seq::empty(),
    }
}

/// The envelope: a 16-bit total length covering the envelope itself, the
/// 16-bit registry id, then the payload.
pub open spec fn envelope_of(id: u16, pl: Seq<u8>) -> Seq<u8> {
    be16(((pl.len() + 4) as u16)) + be16(id) + pl
}

/// The full wire form of an encodable message.
pub open spec fn spec_encode_message(m: MessageV) -> Seq<u8> {
    match m {
        MessageV::P2P(p) => msgpack_pair(p2p_tag(p.message_type), p.data),
        _ => envelope_of(spec_msg_id(m), spec_payload(m)),
    }
}

/// The message an envelope payload holds under a registry id; `None` for an
/// unknown id, an id whose variant is outbound-only, or a payload its parser
/// refuses.
pub open spec fn spec_decode_payload(id: u16, p: Seq<u8>) -> Option<MessageV> {
    if id == ONION_TUNNEL_BUILD_ID {
        match parse_tunnel_build(p) {
            Some(x) => Some(MessageV::Onion(OnionV::TunnelBuild(x))),
            None => None,
        }
    } else if id == ONION_TUNNEL_READY_ID {
        match parse_tunnel_payload(p) {
            Some(x) => Some(MessageV::Onion(OnionV::TunnelReady(x))),
            None => None,
        }
    } else if id == ONION_TUNNEL_DATA_ID {
        match parse_tunnel_payload(p) {
            Some(x) => Some(MessageV::Onion(OnionV::TunnelData(x))),
            None => None,
        }
    } else if id == ONION_TUNNEL_INCOMMING_ID {
        match parse_tunnel_id(p) {
            Some(x) => Some(MessageV::Onion(OnionV::TunnelIncomming(x))),
            None => None,
        }
    } else if id == ONION_TUNNEL_DESTROY_ID {
        match parse_tunnel_id(p) {
            Some(x) => Some(MessageV::Onion(OnionV::TunnelDestroy(x))),
            None => None,
        }
    } else if id == ONION_COVER_ID {
        match parse_cover(p) {
            Some(x) => Some(MessageV::Onion(OnionV::Cover(x))),
            None => None,
        }
    } else if id == AUTH_SESSION_HS1_ID {
        match parse_session_hs(p) {
            Some(x) => Some(MessageV::Auth(AuthV::SessionHS1(x))),
            None => None,
        }
    } else if id == AUTH_SESSION_HS2_ID {
        match parse_session_hs(p) {
            Some(x) => Some(MessageV::Auth(AuthV::SessionHS2(x))),
            None => None,
        }
    } else if id == AUTH_SESSION_INCOMMING_HS2_ID {
        match parse_session_hs(p) {
            Some(x) => Some(MessageV::Auth(AuthV::SessionIncommingHS2(x))),
            None => None,
        }
    } else if id == AUTH_CIPHER_ENCRYPT_RESP_ID {
        match parse_cipher_crypt_resp(p) {
            Some(x) => Some(MessageV::Auth(AuthV::CipherEncryptResp(x))),
            None => None,
        }
    } else if id == AUTH_CIPHER_DECRYPT_RESP_ID {
        match parse_cipher_crypt_resp(p) {
            Some(x) => Some(MessageV::Auth(AuthV::CipherDecryptResp(x))),
            None => None,
        }
    } else if id == AUTH_SESSION_ERROR_ID {
        match parse_session_error(p) {
            Some(x) => Some(MessageV::Auth(AuthV::SessionError(x))),
            None => None,
        }
    } else if id == RPS_PEER_ID {
        match parse_rps_peer(p) {
            Some(x) => Some(MessageV::Rps(RpsV::Peer(x))),
            None => None,
        }
    } else {
        None
    }
}

/// The enveloped message spelled in `b`: `None` when `b` cannot hold the
/// envelope, when the declared total length is shorter than the envelope or
/// longer than `b`, or when the payload is refused. Bytes past the declared
/// length are ignored.
pub open spec fn spec_decode_envelope(b: Seq<u8>) -> Option<MessageV> {
    if b.len() < 4 {
        None
    } else {
        let total = u16_at(b, 0) as int;
        let id = u16_at(b, 2);
        if total < 4 || b.len() < total {
            None
        } else {
            spec_decode_payload(id, b.subrange(4, total))
        }
    }
}

/// The message spelled in `b`, with the self-describing peer-to-peer form
/// tried first, exactly as the decoder tries it.
pub open spec fn spec_decode_message(b: Seq<u8>) -> Option<MessageV> {
    match msgpack_pair_parse(b) {
        Some(pair) => match p2p_of_tag(pair.0) {
            Some(t) => Some(MessageV::P2P(P2PMessageV { message_type: t, data: pair.1 })),
            None => spec_decode_envelope(b),
        },
        None => spec_decode_envelope(b),
    }
}

/// Whether the node ever writes this variant to the wire; the runtime test
/// a caller makes before asking for an encoding.
pub fn encodable(message: &Message) -> (r: bool)
    ensures
        r == spec_encodable(message@),
{
    match message {
        Message::Onion(Onion::Cover(_)) => false,
        Message::Auth(Auth::CipherEncryptResp(_)) => false,
        Message::Auth(Auth::CipherDecryptResp(_)) => false,
        Message::Auth(Auth::SessionError(_)) => false,
        _ => true,
    }
}

/// Whether an enveloped message's payload fits the envelope's 16-bit total
/// length field; the runtime test a caller makes before asking for an
/// encoding. The self-describing peer-to-peer form has no length field and
/// always fits.
pub fn payload_fits(message: &Message) -> (r: bool)
    ensures
        r == (message@ is P2P || spec_payload(message@).len() + 4 <= 0xffff),
{
    let (fixed, variable): (usize, usize) = match message {
        Message::Onion(Onion::TunnelBuild(x)) => {
            (if x.ip_addr.is_v6() {
                20
            } else {
                8
            }, x.hostkey.len())
        },
        Message::Onion(Onion::TunnelReady(x)) => (4, x.payload.len()),
        Message::Onion(Onion::TunnelIncomming(_)) => (4, 0),
        Message::Onion(Onion::TunnelDestroy(_)) => (4, 0),
        Message::Onion(Onion::TunnelData(x)) => (4, x.payload.len()),
        Message::Onion(Onion::Cover(_)) => (0, 0),
        Message::Onion(Onion::Error(_)) => (8, 0),
        Message::Auth(Auth::SessionStart(x)) => (8, x.hostkey.len()),
        Message::Auth(Auth::SessionHS1(x)) => (8, x.payload.len()),
        Message::Auth(Auth::SessionIncommingHS1(x)) => (8, x.payload.len()),
        Message::Auth(Auth::SessionHS2(x)) => (8, x.payload.len()),
        Message::Auth(Auth::SessionIncommingHS2(x)) => (8, x.payload.len()),
        Message::Auth(Auth::CipherEncrypt(x)) => (10, x.payload.len()),
        Message::Auth(Auth::CipherEncryptResp(_)) => (0, 0),
        Message::Auth(Auth::CipherDecrypt(x)) => (10, x.payload.len()),
        Message::Auth(Auth::CipherDecryptResp(_)) => (0, 0),
        Message::Auth(Auth::SessionClose(_)) => (4, 0),
        Message::Auth(Auth::SessionError(_)) => (0, 0),
        Message::Rps(Rps::Query(_)) => (0, 0),
        Message::Rps(Rps::Peer(x)) => {
            (if x.ip_addr.is_v6() {
                20
            } else {
                8
            }, x.hostkey.len())
        },
        Message::P2P(_) => {
            return true;
        },
    };
    proof {
        match message@ {
            MessageV::Onion(OnionV::TunnelBuild(x)) => {
                crate::addr::lemma_ip_bytes_len(x.ip_addr);
            },
            MessageV::Rps(RpsV::Peer(x)) => {
                crate::addr::lemma_ip_bytes_len(x.ip_addr);
            },
            _ => {},
        }
        assert(spec_payload(message@).len() == fixed + variable);
    }
    variable <= 0xffff - 4 - fixed
}

/// Wrap a payload in its envelope.
fn write_envelope(id: u16, payload: Vec<u8>) -> (r: Vec<u8>)
    requires
        payload@.len() + 4 <= 0xffff,
    ensures
        r@ == envelope_of(id, payload@),
{
    let n: usize = payload.len();
    let total: u16 = (n + 4) as u16;
    let mut out: Vec<u8> = Vec::new();
    put_u16(&mut out, total);
    put_u16(&mut out, id);
    put_bytes(&mut out, payload.as_slice());
    assert(out@ =~= envelope_of(id, payload@));
    out
}

/// Encode a message for the wire.
///
/// Every encodable variant encodes; the inbound-only variants are excluded
/// by precondition, as is an enveloped payload too long for the 16-bit
/// length field.
pub fn encode_message(message: Message) -> (r: Result<Vec<u8>, NodeError>)
    requires
        spec_encodable(message@),
        !(message@ is P2P) ==> spec_payload(message@).len() + 4 <= 0xffff,
    ensures
        r matches Ok(v) && v@ == spec_encode_message(message@),
{
    let ghost mv = message@;
    match message {
        Message::P2P(p) => {
            let tag = tag_of_p2p(&p.message_type);
            let bytes = msgpack_encode_pair(tag, &p.data);
            Ok(bytes)
        },
        Message::Onion(Onion::TunnelBuild(x)) => {
            let pl = x.encode()?;
            Ok(write_envelope(ONION_TUNNEL_BUILD_ID, pl))
        },
        Message::Onion(Onion::TunnelReady(x)) => {
            let pl = x.encode()?;
            Ok(write_envelope(ONION_TUNNEL_READY_ID, pl))
        },
        Message::Onion(Onion::TunnelIncomming(x)) => {
            let pl = x.encode()?;
            Ok(write_envelope(ONION_TUNNEL_INCOMMING_ID, pl))
        },
        Message::Onion(Onion::TunnelDestroy(x)) => {
            let pl = x.encode()?;
            Ok(write_envelope(ONION_TUNNEL_DESTROY_ID, pl))
        },
        Message::Onion(Onion::TunnelData(x)) => {
            let pl = x.encode()?;
            Ok(write_envelope(ONION_TUNNEL_DATA_ID, pl))
        },
        Message::Onion(Onion::Error(x)) => {
            let pl = x.encode()?;
            Ok(write_envelope(ONION_ERROR_ID, pl))
        },
        Message::Onion(Onion::Cover(_)) => {
            proof {
                assert(false);
            }
            Err(NodeError::MalformedMessage)
        },
        Message::Auth(Auth::SessionStart(x)) => {
            let pl = x.encode()?;
            Ok(write_envelope(AUTH_SESSION_START_ID, pl))
        },
        Message::Auth(Auth::SessionHS1(x)) => {
            let pl = x.encode()?;
            Ok(write_envelope(AUTH_SESSION_HS1_ID, pl))
        },
        Message::Auth(Auth::SessionIncommingHS1(x)) => {
            let pl = x.encode()?;
            Ok(write_envelope(AUTH_SESSION_INCOMMING_HS1_ID, pl))
        },
        Message::Auth(Auth::SessionHS2(x)) => {
            let pl = x.encode()?;
            Ok(write_envelope(AUTH_SESSION_HS2_ID, pl))
        },
        Message::Auth(Auth::SessionIncommingHS2(x)) => {
            let pl = x.encode()?;
            Ok(write_envelope(AUTH_SESSION_INCOMMING_HS2_ID, pl))
        },
        Message::Auth(Auth::CipherEncrypt(x)) => {
            let pl = x.encode()?;
            Ok(write_envelope(AUTH_CIPHER_ENCRYPT_ID, pl))
        },
        Message::Auth(Auth::CipherDecrypt(x)) => {
            let pl = x.encode()?;
            Ok(write_envelope(AUTH_CIPHER_DECRYPT_ID, pl))
        },
        Message::Auth(Auth::SessionClose(x)) => {
            let pl = x.encode()?;
            Ok(write_envelope(AUTH_SESSION_CLOSE_ID, pl))
        },
        Message::Auth(Auth::CipherEncryptResp(_)) => {
            proof {
                assert(false);
            }
            Err(NodeError::MalformedMessage)
        },
        Message::Auth(Auth::CipherDecryptResp(_)) => {
            proof {
                assert(false);
            }
            Err(NodeError::MalformedMessage)
        },
        Message::Auth(Auth::SessionError(_)) => {
            proof {
                assert(false);
            }
            Err(NodeError::MalformedMessage)
        },
        Message::Rps(Rps::Query(x)) => {
            let pl = x.encode()?;
            Ok(write_envelope(RPS_QUERY_ID, pl))
        },
        Message::Rps(Rps::Peer(x)) => {
            let pl = x.encode()?;
            Ok(write_envelope(RPS_PEER_ID, pl))
        },
    }
}

/// Decode the payload of an envelope under its registry id.
fn decode_payload(id: u16, payload: Vec<u8>) -> (r: Result<Message, NodeError>)
    ensures
        match r {
            Ok(m) => spec_decode_payload(id, payload@) == Some(m@),
            Err(e) => spec_decode_payload(id, payload@) is None && e == NodeError::MalformedMessage,
        },
{
    if id == ONION_TUNNEL_BUILD_ID {
        match OnionTunnelBuild::decode(payload) {
            Ok(x) => Ok(Message::Onion(Onion::TunnelBuild(x))),
            Err(e) => Err(e),
        }
    } else if id == ONION_TUNNEL_READY_ID {
        match OnionTunnelPayload::decode(payload) {
            Ok(x) => Ok(Message::Onion(Onion::TunnelReady(x))),
            Err(e) => Err(e),
        }
    } else if id == ONION_TUNNEL_DATA_ID {
        match OnionTunnelPayload::decode(payload) {
            Ok(x) => Ok(Message::Onion(Onion::TunnelData(x))),
            Err(e) => Err(e),
        }
    } else if id == ONION_TUNNEL_INCOMMING_ID {
        match OnionTunnelID::decode(payload) {
            Ok(x) => Ok(Message::Onion(Onion::TunnelIncomming(x))),
            Err(e) => Err(e),
        }
    } else if id == ONION_TUNNEL_DESTROY_ID {
        match OnionTunnelID::decode(payload) {
            Ok(x) => Ok(Message::Onion(Onion::TunnelDestroy(x))),
            Err(e) => Err(e),
        }
    } else if id == ONION_COVER_ID {
        match OnionCover::decode(payload) {
            Ok(x) => Ok(Message::Onion(Onion::Cover(x))),
            Err(e) => Err(e),
        }
    } else if id == AUTH_SESSION_HS1_ID {
        match AuthSessionHS::decode(payload) {
            Ok(x) => Ok(Message::Auth(Auth::SessionHS1(x))),
            Err(e) => Err(e),
        }
    } else if id == AUTH_SESSION_HS2_ID {
        match AuthSessionHS::decode(payload) {
            Ok(x) => Ok(Message::Auth(Auth::SessionHS2(x))),
            Err(e) => Err(e),
        }
    } else if id == AUTH_SESSION_INCOMMING_HS2_ID {
        match AuthSessionHS::decode(payload) {
            Ok(x) => Ok(Message::Auth(Auth::SessionIncommingHS2(x))),
            Err(e) => Err(e),
        }
    } else if id == AUTH_CIPHER_ENCRYPT_RESP_ID {
        match AuthCipherCryptResp::decode(payload) {
            Ok(x) => Ok(Message::Auth(Auth::CipherEncryptResp(x))),
            Err(e) => Err(e),
        }
    } else if id == AUTH_CIPHER_DECRYPT_RESP_ID {
        match AuthCipherCryptResp::decode(payload) {
            Ok(x) => Ok(Message::Auth(Auth::CipherDecryptResp(x))),
            Err(e) => Err(e),
        }
    } else if id == AUTH_SESSION_ERROR_ID {
        match AuthSessionError::decode(payload) {
            Ok(x) => Ok(Message::Auth(Auth::SessionError(x))),
            Err(e) => Err(e),
        }
    } else if id == RPS_PEER_ID {
        match RpsPeer::decode(payload) {
            Ok(x) => Ok(Message::Rps(Rps::Peer(x))),
            Err(e) => Err(e),
        }
    } else {
        Err(NodeError::MalformedMessage)
    }
}

/// Decode an enveloped message.
fn decode_envelope(bytes: &[u8]) -> (r: Result<Message, NodeError>)
    ensures
        match r {
            Ok(m) => spec_decode_envelope(bytes@) == Some(m@),
            Err(e) => spec_decode_envelope(bytes@) is None && e == NodeError::MalformedMessage,
        },
{
    let n: usize = bytes.len();
    if n < 4 {
        return Err(NodeError::MalformedMessage);
    }
    let total: usize = read_u16(bytes, 0) as usize;
    let id = read_u16(bytes, 2);
    if total < 4 || n < total {
        return Err(NodeError::MalformedMessage);
    }
    let payload = sub_to_vec(bytes, 4, total);
    decode_payload(id, payload)
}

/// Decode a message, trying the self-describing peer-to-peer form first and
/// the enveloped form second.
///
/// Succeeds exactly on the bytes [`spec_decode_message`] accepts; every
/// refusal is a [`NodeError::MalformedMessage`].
pub fn decode_message(bytes: &[u8]) -> (r: Result<Message, NodeError>)
    ensures
        match r {
            Ok(m) => spec_decode_message(bytes@) == Some(m@),
            Err(e) => spec_decode_message(bytes@) is None && e == NodeError::MalformedMessage,
        },
{
    match msgpack_decode_pair(bytes) {
        Some((tag, data)) => {
            match p2p_for_tag(tag) {
                Some(t) => {
                    return Ok(Message::P2P(P2PMessage { message_type: t, data }));
                },
                None => {
                    // the pair's tag names no opcode: fall back to the envelope
                },
            }
        },
        None => {},
    }
    assert(spec_decode_message(bytes@) == spec_decode_envelope(bytes@));
    decode_envelope(bytes)
}

/// The envelope decomposes into the fields it was assembled from: the
/// length field reads back as the total length, the id field as the id, and
/// the payload sits after the 4 header bytes.
pub proof fn lemma_envelope_parts(id: u16, pl: Seq<u8>)
    requires
        pl.len() + 4 <= 0xffff,
    ensures
        envelope_of(id, pl).len() == pl.len() + 4,
        u16_at(envelope_of(id, pl), 0) == pl.len() + 4,
        u16_at(envelope_of(id, pl), 2) == id,
        envelope_of(id, pl).subrange(4, pl.len() + 4 as int) == pl,
{
    let total: u16 = (pl.len() + 4) as u16;
    let enc = envelope_of(id, pl);
    assert(enc[0] == be16(total)[0] && enc[1] == be16(total)[1]);
    lemma_be16_value(total);
    assert(enc[2] == be16(id)[0] && enc[3] == be16(id)[1]);
    lemma_be16_value(id);
    assert(enc.subrange(4, pl.len() + 4 as int) =~= pl);
}

/// Round trip of the enveloped wire form: every message variant that the
/// node both writes and reads decodes back, from its own encoding, to the
/// value it was encoded from, for every field value, as long as the payload
/// fits the 16-bit length field.
pub proof fn lemma_envelope_round_trip(m: MessageV)
    requires
        spec_encodable(m),
        spec_decodable(m),
        !(m is P2P),
        spec_payload(m).len() + 4 <= 0xffff,
    ensures
        spec_decode_envelope(spec_encode_message(m)) == Some(m),
{
    let id = spec_msg_id(m);
    let pl = spec_payload(m);
    lemma_envelope_parts(id, pl);
    assert(spec_decode_envelope(envelope_of(id, pl)) == spec_decode_payload(id, pl));
    match m {
        MessageV::Onion(OnionV::TunnelBuild(x)) => {
            crate::onion::lemma_tunnel_build_round_trip(x);
        },
        MessageV::Onion(OnionV::TunnelReady(x)) => {
            crate::onion::lemma_tunnel_payload_round_trip(x);
        },
        MessageV::Onion(OnionV::TunnelIncomming(x)) => {
            crate::onion::lemma_tunnel_id_round_trip(x);
        },
        MessageV::Onion(OnionV::TunnelDestroy(x)) => {
            crate::onion::lemma_tunnel_id_round_trip(x);
        },
        MessageV::Onion(OnionV::TunnelData(x)) => {
            crate::onion::lemma_tunnel_payload_round_trip(x);
        },
        MessageV::Auth(AuthV::SessionHS1(x)) => {
            crate::auth::lemma_session_hs_round_trip(x);
        },
        MessageV::Auth(AuthV::SessionHS2(x)) => {
            crate::auth::lemma_session_hs_round_trip(x);
        },
        MessageV::Auth(AuthV::SessionIncommingHS2(x)) => {
            crate::auth::lemma_session_hs_round_trip(x);
        },
        MessageV::Rps(RpsV::Peer(x)) => {
            crate::rps::lemma_rps_peer_round_trip(x);
        },
        _ => {
            assert(false);
        },
    }
}

/// Round trip of the whole decoder: decoding what `spec_encode_message`
/// lays down yields the message again, for every variant that travels in
/// both directions.
///
/// Decoding tries the self-describing peer-to-peer form first, so an
/// enveloped frame whose bytes happened to parse as such a pair would be
/// taken for one — the ordering-dependent ambiguity this codec keeps on
/// purpose. The premises state that the encoding at hand is not shadowed
/// that way (and that a peer-to-peer encoding does parse back, which the
/// trusted serialization boundary guarantees at each call).
pub proof fn lemma_decode_encode(m: MessageV)
    requires
        spec_encodable(m),
        spec_decodable(m),
        !(m is P2P) ==> spec_payload(m).len() + 4 <= 0xffff,
        !(m is P2P) ==> msgpack_pair_parse(spec_encode_message(m)) is None,
        m matches MessageV::P2P(p) ==> msgpack_pair_parse(spec_encode_message(m)) == Some(
            (p2p_tag(p.message_type), p.data),
        ),
    ensures
        spec_decode_message(spec_encode_message(m)) == Some(m),
{
    let enc = spec_encode_message(m);
    match m {
        MessageV::P2P(p) => {
            crate::p2p::lemma_p2p_tag_round_trip(p.message_type);
            assert((P2PMessageV { message_type: p.message_type, data: p.data }) =~= p);
        },
        _ => {
            lemma_envelope_round_trip(m);
        },
    }
}

/// Framing: an enveloped frame shorter than its declared total length is
/// refused, and a frame at least that long decodes from its first `length`
/// bytes alone — trailing bytes change nothing. (The self-describing
/// peer-to-peer form carries no length field; this is the envelope layer.)
pub proof fn lemma_framing(b: Seq<u8>)
    ensures
        b.len() < 4 ==> spec_decode_envelope(b) is None,
        b.len() >= 4 && b.len() < u16_at(b, 0) ==> spec_decode_envelope(b) is None,
        b.len() >= 4 && 4 <= u16_at(b, 0) && u16_at(b, 0) <= b.len() ==> spec_decode_envelope(b)
            == spec_decode_envelope(b.take(u16_at(b, 0) as int)),
{
    if b.len() >= 4 && 4 <= u16_at(b, 0) && u16_at(b, 0) <= b.len() {
        let t = u16_at(b, 0) as int;
        let c = b.take(t);
        assert(c.len() == t);
        assert(u16_at(c, 0) == u16_at(b, 0));
        assert(u16_at(c, 2) == u16_at(b, 2));
        assert(c.subrange(4, t) =~= b.subrange(4, t));
    }
}

} // verus!
