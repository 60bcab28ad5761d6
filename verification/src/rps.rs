//! Messages of the peer-sampling (RPS) protocol family.

use vstd::prelude::*;

use crate::addr::lemma_ip_round_trip;
use crate::addr::parse_ip;
use crate::addr::put_ip;
use crate::addr::read_ip;
use crate::addr::spec_ip_bytes;
use crate::addr::IpAddress;
use crate::errors::NodeError;
use crate::wire::be16;
use crate::wire::bit0;
use crate::wire::flag_byte;
use crate::wire::lemma_be16_value;
use crate::wire::lemma_flag_bit;
use crate::wire::put_bytes;
use crate::wire::put_u16;
use crate::wire::read_u16;
use crate::wire::spec_bit0;
use crate::wire::sub_to_vec;
use crate::wire::u16_at;

verus! {

/// A query for one candidate relay peer; its payload is empty.
#[derive(Clone, Copy, Debug, PartialEq, Eq, Structural)]
pub struct RpsQuery {}

impl RpsQuery {
    pub fn encode(self) -> (r: Result<Vec<u8>, NodeError>)
        ensures
            r matches Ok(v) && v@ == Seq::<u8>::empty(),
    {
        let out: Vec<u8> = Vec::new();
        assert(out@ =~= Seq::<u8>::empty());
        Ok(out)
    }
}

/// A candidate relay peer returned by the peer-sampling capability.
pub struct RpsPeer {
    pub port: u16,
    pub ip_addr: IpAddress,
    pub hostkey: Vec<u8>,
}

/// Mathematical value of an [`RpsPeer`].
#[verifier::ext_equal]
pub struct RpsPeerV {
    pub port: u16,
    pub ip_addr: IpAddress,
    pub hostkey: Seq<u8>,
}

impl View for RpsPeer {
    type V = RpsPeerV;

    open spec fn view(&self) -> RpsPeerV {
        RpsPeerV { port: self.port, ip_addr: self.ip_addr, hostkey: self.hostkey@ }
    }
}

/// Layout: 16-bit port, 1 reserved byte, flag byte (bit 0 the IP version),
/// the address (4 or 16 bytes by the flag), hostkey.
pub open spec fn spec_encode_rps_peer(m: RpsPeerV) -> Seq<u8> {
    be16(m.port) + seq![0u8, flag_byte(m.ip_addr.spec_is_v6())] + spec_ip_bytes(m.ip_addr)
        + m.hostkey
}

/// The peer message spelled in `b`. The hostkey starts 8 bytes in for an
/// IPv4 address and 20 bytes in for IPv6.
pub open spec fn parse_rps_peer(b: Seq<u8>) -> Option<RpsPeerV> {
    if b.len() < 4 {
        None
    } else {
        let v6 = spec_bit0(b[3]);
        let off: int = if v6 {
            20
        } else {
            8
        };
        if b.len() < off {
            None
        } else {
            Some(
                RpsPeerV { port: u16_at(b, 0), ip_addr: parse_ip(b, 4, v6), hostkey: b.skip(off) },
            )
        }
    }
}

/// A peer message decodes back to the value it was encoded from.
pub proof fn lemma_rps_peer_round_trip(m: RpsPeerV)
    ensures
        parse_rps_peer(spec_encode_rps_peer(m)) == Some(m),
{
    let v6 = m.ip_addr.spec_is_v6();
    let field = spec_ip_bytes(m.ip_addr);
    let ilen: int = if v6 {
        16
    } else {
        4
    };
    let enc = spec_encode_rps_peer(m);
    assert(field.len() == ilen) by {
        crate::addr::lemma_ip_bytes_len(m.ip_addr);
    }
    assert(enc[3] == flag_byte(v6));
    lemma_flag_bit(v6);
    assert(enc[0] == be16(m.port)[0] && enc[1] == be16(m.port)[1]);
    lemma_be16_value(m.port);
    assert forall|k: int| 0 <= k < ilen implies enc[4 + k] == field[k] by {}
    assert(enc.subrange(4, 4 + ilen) =~= field);
    lemma_ip_round_trip(m.ip_addr, enc, 4);
    assert(enc.skip(4 + ilen) =~= m.hostkey);
}

/// The IP-version flag on a peer message: bit 0 of the flag byte is set
/// exactly when the address is IPv6 (eight 16-bit groups) and clear when it
/// is IPv4 (four octets); the hostkey then starts at byte 20 instead of
/// byte 8 — a shift of exactly 12 bytes — and decoding yields an address of
/// the same version.
pub proof fn lemma_rps_peer_ip_flag(m: RpsPeerV)
    ensures
        spec_bit0(spec_encode_rps_peer(m)[3]) == m.ip_addr.spec_is_v6(),
        spec_ip_bytes(m.ip_addr).len() == if m.ip_addr.spec_is_v6() {
            16int
        } else {
            4int
        },
        spec_encode_rps_peer(m).skip(
            if m.ip_addr.spec_is_v6() {
                20int
            } else {
                8int
            },
        ) == m.hostkey,
        parse_rps_peer(spec_encode_rps_peer(m)) matches Some(x) && x.ip_addr.spec_is_v6()
            == m.ip_addr.spec_is_v6(),
{
    let v6 = m.ip_addr.spec_is_v6();
    let enc = spec_encode_rps_peer(m);
    assert(enc[3] == flag_byte(v6));
    lemma_flag_bit(v6);
    crate::addr::lemma_ip_bytes_len(m.ip_addr);
    lemma_rps_peer_round_trip(m);
    assert(enc.skip(
        if v6 {
            20int
        } else {
            8int
        },
    ) =~= m.hostkey);
}

impl RpsPeer {
    pub fn decode(bytes: Vec<u8>) -> (r: Result<RpsPeer, NodeError>)
        ensures
            match parse_rps_peer(bytes@) {
                Some(m) => r matches Ok(x) && x@ == m,
                None => r == Err::<RpsPeer, NodeError>(NodeError::MalformedMessage),
            },
    {
        let n: usize = bytes.len();
        if n < 4 {
            return Err(NodeError::MalformedMessage);
        }
        let s = bytes.as_slice();
        let v6 = bit0(*vstd::slice::slice_index_get(s, 3));
        let off: usize = if v6 {
            20
        } else {
            8
        };
        if n < off {
            return Err(NodeError::MalformedMessage);
        }
        let port = read_u16(s, 0);
        let ip_addr = read_ip(s, 4, v6);
        let hostkey = sub_to_vec(s, off, n);
        assert(hostkey@ =~= bytes@.skip(off as int));
        Ok(RpsPeer { port, ip_addr, hostkey })
    }

    pub fn encode(self) -> (r: Result<Vec<u8>, NodeError>)
        ensures
            r matches Ok(v) && v@ == spec_encode_rps_peer(self@),
    {
        let mut out: Vec<u8> = Vec::new();
        put_u16(&mut out, self.port);
        out.push(0u8);
        let v6 = self.ip_addr.is_v6();
        out.push(if v6 {
            1u8
        } else {
            0u8
        });
        put_ip(&mut out, &self.ip_addr);
        put_bytes(&mut out, self.hostkey.as_slice());
        assert(out@ =~= spec_encode_rps_peer(self@));
        Ok(out)
    }
}

/// The peer-sampling protocol family.
pub enum Rps {
    Query(RpsQuery),
    Peer(RpsPeer),
}

/// Mathematical value of an [`Rps`] message.
#[verifier::ext_equal]
pub enum RpsV {
    Query(RpsQuery),
    Peer(RpsPeerV),
}

impl View for Rps {
    type V = RpsV;

    open spec fn view(&self) -> RpsV {
        match self {
            Rps::Query(m) => RpsV::Query(*m),
            Rps::Peer(m) => RpsV::Peer(m@),
        }
    }
}

} // verus!
