//! Messages of the tunnel (Onion) protocol family: build, ready, incoming,
//! destroy, data, cover traffic and error notices.

use vstd::prelude::*;

use crate::addr::lemma_ip_round_trip;
use crate::addr::parse_ip;
use crate::addr::put_ip;
use crate::addr::read_ip;
use crate::addr::spec_ip_bytes;
use crate::addr::IpAddress;
use crate::errors::NodeError;
use crate::wire::be16;
use crate::wire::be32;
use crate::wire::bit0;
use crate::wire::flag_byte;
use crate::wire::lemma_be16_value;
use crate::wire::lemma_be32_value;
use crate::wire::lemma_flag_bit;
use crate::wire::put_bytes;
use crate::wire::put_u16;
use crate::wire::put_u32;
use crate::wire::read_u16;
use crate::wire::read_u32;
use crate::wire::reserved2;
use crate::wire::spec_bit0;
use crate::wire::sub_to_vec;
use crate::wire::u16_at;
use crate::wire::u32_at;

verus! {

/// An order from the control API to build a tunnel towards one peer.
pub struct OnionTunnelBuild {
    pub onion_tunnel: u16,
    pub ip_addr: IpAddress,
    pub hostkey: Vec<u8>,
}

/// Mathematical value of an [`OnionTunnelBuild`].
#[verifier::ext_equal]
pub struct OnionTunnelBuildV {
    pub onion_tunnel: u16,
    pub ip_addr: IpAddress,
    pub hostkey: Seq<u8>,
}

impl View for OnionTunnelBuild {
    type V = OnionTunnelBuildV;

    open spec fn view(&self) -> OnionTunnelBuildV {
        OnionTunnelBuildV {
            onion_tunnel: self.onion_tunnel,
            ip_addr: self.ip_addr,
            hostkey: self.hostkey@,
        }
    }
}

/// Layout: 1 reserved byte, flag byte (bit 0 the IP version), 16-bit
/// onion-tunnel field, the address (4 or 16 bytes by the flag), hostkey.
pub open spec fn spec_encode_tunnel_build(m: OnionTunnelBuildV) -> Seq<u8> {
    seq![0u8, flag_byte(m.ip_addr.spec_is_v6())] + be16(m.onion_tunnel) + spec_ip_bytes(m.ip_addr)
        + m.hostkey
}

/// The tunnel-build order spelled in `b`. The hostkey starts 8 bytes in for
/// an IPv4 address and 20 bytes in for IPv6.
pub open spec fn parse_tunnel_build(b: Seq<u8>) -> Option<OnionTunnelBuildV> {
    if b.len() < 4 {
        None
    } else {
        let v6 = spec_bit0(b[1]);
        let off: int = if v6 {
            20
        } else {
            8
        };
        if b.len() < off {
            None
        } else {
            Some(
                OnionTunnelBuildV {
                    onion_tunnel: u16_at(b, 2),
                    ip_addr: parse_ip(b, 4, v6),
                    hostkey: b.skip(off),
                },
            )
        }
    }
}

/// A tunnel-build order decodes back to the value it was encoded from.
pub proof fn lemma_tunnel_build_round_trip(m: OnionTunnelBuildV)
    ensures
        parse_tunnel_build(spec_encode_tunnel_build(m)) == Some(m),
{
    let v6 = m.ip_addr.spec_is_v6();
    let field = spec_ip_bytes(m.ip_addr);
    let ilen: int = if v6 {
        16
    } else {
        4
    };
    let enc = spec_encode_tunnel_build(m);
    assert(field.len() == ilen) by {
        crate::addr::lemma_ip_bytes_len(m.ip_addr);
    }
    assert(enc[1] == flag_byte(v6));
    lemma_flag_bit(v6);
    assert(enc[2] == be16(m.onion_tunnel)[0] && enc[3] == be16(m.onion_tunnel)[1]);
    lemma_be16_value(m.onion_tunnel);
    assert forall|k: int| 0 <= k < ilen implies enc[4 + k] == field[k] by {}
    assert(enc.subrange(4, 4 + ilen) =~= field);
    lemma_ip_round_trip(m.ip_addr, enc, 4);
    assert(enc.skip(4 + ilen) =~= m.hostkey);
}

/// The IP-version flag on a tunnel-build order: bit 0 of the flag byte is
/// set exactly when the address is IPv6 (eight 16-bit groups) and clear
/// when it is IPv4 (four octets); the hostkey then starts at byte 20
/// instead of byte 8 — a shift of exactly 12 bytes — and decoding yields an
/// address of the same version.
pub proof fn lemma_tunnel_build_ip_flag(m: OnionTunnelBuildV)
    ensures
        spec_bit0(spec_encode_tunnel_build(m)[1]) == m.ip_addr.spec_is_v6(),
        spec_ip_bytes(m.ip_addr).len() == if m.ip_addr.spec_is_v6() {
            16int
        } else {
            4int
        },
        spec_encode_tunnel_build(m).skip(
            if m.ip_addr.spec_is_v6() {
                20int
            } else {
                8int
            },
        ) == m.hostkey,
        parse_tunnel_build(spec_encode_tunnel_build(m)) matches Some(x) && x.ip_addr.spec_is_v6()
            == m.ip_addr.spec_is_v6(),
{
    let v6 = m.ip_addr.spec_is_v6();
    let enc = spec_encode_tunnel_build(m);
    assert(enc[1] == flag_byte(v6));
    lemma_flag_bit(v6);
    crate::addr::lemma_ip_bytes_len(m.ip_addr);
    lemma_tunnel_build_round_trip(m);
    assert(enc.skip(
        if v6 {
            20int
        } else {
            8int
        },
    ) =~= m.hostkey);
}

impl OnionTunnelBuild {
    pub fn decode(bytes: Vec<u8>) -> (r: Result<OnionTunnelBuild, NodeError>)
        ensures
            match parse_tunnel_build(bytes@) {
                Some(m) => r matches Ok(x) && x@ == m,
                None => r == Err::<OnionTunnelBuild, NodeError>(NodeError::MalformedMessage),
            },
    {
        let n: usize = bytes.len();
        if n < 4 {
            return Err(NodeError::MalformedMessage);
        }
        let s = bytes.as_slice();
        let v6 = bit0(*vstd::slice::slice_index_get(s, 1));
        let off: usize = if v6 {
            20
        } else {
            8
        };
        if n < off {
            return Err(NodeError::MalformedMessage);
        }
        let onion_tunnel = read_u16(s, 2);
        let ip_addr = read_ip(s, 4, v6);
        let hostkey = sub_to_vec(s, off, n);
        assert(hostkey@ =~= bytes@.skip(off as int));
        Ok(OnionTunnelBuild { onion_tunnel, ip_addr, hostkey })
    }

    pub fn encode(self) -> (r: Result<Vec<u8>, NodeError>)
        ensures
            r matches Ok(v) && v@ == spec_encode_tunnel_build(self@),
    {
        let mut out: Vec<u8> = Vec::new();
        out.push(0u8);
        let v6 = self.ip_addr.is_v6();
        out.push(if v6 {
            1u8
        } else {
            0u8
        });
        put_u16(&mut out, self.onion_tunnel);
        put_ip(&mut out, &self.ip_addr);
        put_bytes(&mut out, self.hostkey.as_slice());
        assert(out@ =~= spec_encode_tunnel_build(self@));
        Ok(out)
    }
}

/// A tunnel message that carries opaque bytes (ready notice or relayed data).
pub struct OnionTunnelPayload {
    pub tunnel_id: u32,
    pub payload: Vec<u8>,
}

/// Mathematical value of an [`OnionTunnelPayload`].
#[verifier::ext_equal]
pub struct OnionTunnelPayloadV {
    pub tunnel_id: u32,
    pub payload: Seq<u8>,
}

impl View for OnionTunnelPayload {
    type V = OnionTunnelPayloadV;

    open spec fn view(&self) -> OnionTunnelPayloadV {
        OnionTunnelPayloadV { tunnel_id: self.tunnel_id, payload: self.payload@ }
    }
}

/// Layout: 32-bit tunnel id, remaining bytes the payload.
pub open spec fn spec_encode_tunnel_payload(m: OnionTunnelPayloadV) -> Seq<u8> {
    be32(m.tunnel_id) + m.payload
}

/// The payload message spelled in `b`.
pub open spec fn parse_tunnel_payload(b: Seq<u8>) -> Option<OnionTunnelPayloadV> {
    if b.len() < 4 {
        None
    } else {
        Some(OnionTunnelPayloadV { tunnel_id: u32_at(b, 0), payload: b.skip(4) })
    }
}

/// A tunnel-payload message decodes back to the value it was encoded from.
pub proof fn lemma_tunnel_payload_round_trip(m: OnionTunnelPayloadV)
    ensures
        parse_tunnel_payload(spec_encode_tunnel_payload(m)) == Some(m),
{
    let enc = spec_encode_tunnel_payload(m);
    assert(enc[0] == be32(m.tunnel_id)[0] && enc[1] == be32(m.tunnel_id)[1] && enc[2] == be32(
        m.tunnel_id,
    )[2] && enc[3] == be32(m.tunnel_id)[3]);
    lemma_be32_value(m.tunnel_id);
    assert(enc.skip(4) =~= m.payload);
}

impl OnionTunnelPayload {
    pub fn decode(bytes: Vec<u8>) -> (r: Result<OnionTunnelPayload, NodeError>)
        ensures
            match parse_tunnel_payload(bytes@) {
                Some(m) => r matches Ok(x) && x@ == m,
                None => r == Err::<OnionTunnelPayload, NodeError>(NodeError::MalformedMessage),
            },
    {
        let n: usize = bytes.len();
        if n < 4 {
            return Err(NodeError::MalformedMessage);
        }
        let s = bytes.as_slice();
        let tunnel_id = read_u32(s, 0);
        let payload = sub_to_vec(s, 4, n);
        assert(payload@ =~= bytes@.skip(4));
        Ok(OnionTunnelPayload { tunnel_id, payload })
    }

    pub fn encode(self) -> (r: Result<Vec<u8>, NodeError>)
        ensures
            r matches Ok(v) && v@ == spec_encode_tunnel_payload(self@),
    {
        let mut out: Vec<u8> = Vec::new();
        put_u32(&mut out, self.tunnel_id);
        put_bytes(&mut out, self.payload.as_slice());
        assert(out@ =~= spec_encode_tunnel_payload(self@));
        Ok(out)
    }
}

/// A tunnel message that carries only the tunnel id (incoming or destroy).
#[derive(Clone, Copy, Debug, PartialEq, Eq, Structural)]
pub struct OnionTunnelID {
    pub tunnel_id: u32,
}

/// Layout: 32-bit tunnel id.
pub open spec fn spec_encode_tunnel_id(m: OnionTunnelID) -> Seq<u8> {
    be32(m.tunnel_id)
}

/// The id-only message spelled in `b`; bytes past the id are ignored.
pub open spec fn parse_tunnel_id(b: Seq<u8>) -> Option<OnionTunnelID> {
    if b.len() < 4 {
        None
    } else {
        Some(OnionTunnelID { tunnel_id: u32_at(b, 0) })
    }
}

/// An id-only message decodes back to the value it was encoded from.
pub proof fn lemma_tunnel_id_round_trip(m: OnionTunnelID)
    ensures
        parse_tunnel_id(spec_encode_tunnel_id(m)) == Some(m),
{
    lemma_be32_value(m.tunnel_id);
}

impl OnionTunnelID {
    pub fn decode(bytes: Vec<u8>) -> (r: Result<OnionTunnelID, NodeError>)
        ensures
            match parse_tunnel_id(bytes@) {
                Some(m) => r matches Ok(x) && x == m,
                None => r == Err::<OnionTunnelID, NodeError>(NodeError::MalformedMessage),
            },
    {
        let n: usize = bytes.len();
        if n < 4 {
            return Err(NodeError::MalformedMessage);
        }
        let tunnel_id = read_u32(bytes.as_slice(), 0);
        Ok(OnionTunnelID { tunnel_id })
    }

    pub fn encode(self) -> (r: Result<Vec<u8>, NodeError>)
        ensures
            r matches Ok(v) && v@ == spec_encode_tunnel_id(self),
    {
        let mut out: Vec<u8> = Vec::new();
        put_u32(&mut out, self.tunnel_id);
        assert(out@ =~= spec_encode_tunnel_id(self));
        Ok(out)
    }
}

/// An error notice for one tunnel and the request type that failed.
#[derive(Clone, Copy, Debug, PartialEq, Eq, Structural)]
pub struct OnionError {
    pub tunnel_id: u32,
    pub request_type: u16,
}

/// Layout: 16-bit request type, 2 reserved bytes, 32-bit tunnel id.
pub open spec fn spec_encode_onion_error(m: OnionError) -> Seq<u8> {
    be16(m.request_type) + reserved2() + be32(m.tunnel_id)
}

impl OnionError {
    pub fn encode(self) -> (r: Result<Vec<u8>, NodeError>)
        ensures
            r matches Ok(v) && v@ == spec_encode_onion_error(self),
    {
        let mut out: Vec<u8> = Vec::new();
        put_u16(&mut out, self.request_type);
        out.push(0u8);
        out.push(0u8);
        put_u32(&mut out, self.tunnel_id);
        assert(out@ =~= spec_encode_onion_error(self));
        Ok(out)
    }
}

/// An order to emit cover traffic of the given size.
#[derive(Clone, Copy, Debug, PartialEq, Eq, Structural)]
pub struct OnionCover {
    pub cover_size: u16,
}

/// The cover order spelled in `b`: 16-bit cover size, 2 reserved bytes.
pub open spec fn parse_cover(b: Seq<u8>) -> Option<OnionCover> {
    if b.len() < 4 {
        None
    } else {
        Some(OnionCover { cover_size: u16_at(b, 0) })
    }
}

impl OnionCover {
    pub fn decode(bytes: Vec<u8>) -> (r: Result<OnionCover, NodeError>)
        ensures
            match parse_cover(bytes@) {
                Some(m) => r matches Ok(x) && x == m,
                None => r == Err::<OnionCover, NodeError>(NodeError::MalformedMessage),
            },
    {
        let n: usize = bytes.len();
        if n < 4 {
            return Err(NodeError::MalformedMessage);
        }
        let cover_size = read_u16(bytes.as_slice(), 0);
        Ok(OnionCover { cover_size })
    }
}

/// The tunnel-protocol family.
pub enum Onion {
    TunnelBuild(OnionTunnelBuild),
    TunnelReady(OnionTunnelPayload),
    TunnelIncomming(OnionTunnelID),
    TunnelDestroy(OnionTunnelID),
    TunnelData(OnionTunnelPayload),
    Cover(OnionCover),
    Error(OnionError),
}

/// Mathematical value of an [`Onion`] message.
#[verifier::ext_equal]
pub enum OnionV {
    TunnelBuild(OnionTunnelBuildV),
    TunnelReady(OnionTunnelPayloadV),
    TunnelIncomming(OnionTunnelID),
    TunnelDestroy(OnionTunnelID),
    TunnelData(OnionTunnelPayloadV),
    Cover(OnionCover),
    Error(OnionError),
}

impl View for Onion {
    type V = OnionV;

    open spec fn view(&self) -> OnionV {
        match self {
            Onion::TunnelBuild(m) => OnionV::TunnelBuild(m@),
            Onion::TunnelReady(m) => OnionV::TunnelReady(m@),
            Onion::TunnelIncomming(m) => OnionV::TunnelIncomming(*m),
            Onion::TunnelDestroy(m) => OnionV::TunnelDestroy(*m),
            Onion::TunnelData(m) => OnionV::TunnelData(m@),
            Onion::Cover(m) => OnionV::Cover(*m),
            Onion::Error(m) => OnionV::Error(*m),
        }
    }
}

} // verus!
